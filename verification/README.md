# easywg

A small harness for running WGSL compute shaders on a GPU through `wgpu`.

- `src/` is the verified library: the workgroup-size rewrite of shader text
  (`shader`, with `regex` locating the attribute and `decimal` rendering the
  size), the layout of a launch (`plan`), the byte image of host buffers and
  their read-back (`transfer`, over `bytemuck`), the benchmark set-ups
  (`bench`) and the command-line decisions (`cli`).
- `app/` is the program: it talks to the device through `wgpu`, waits on
  buffer mappings with `flume` and `pollster`, parses arguments with `clap`
  and logs with `log`/`env_logger`.
