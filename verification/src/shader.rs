//! Rewriting the `@workgroup_size(..)` attribute of a WGSL shader.
//!
//! The attribute is located with the `regex` crate; the rewrite around the
//! match is verified here.

use vstd::prelude::*;
use vstd::string::StringExecFns;
use vstd::utf8::{decode_utf8, encode_utf8, is_char_boundary};
use crate::decimal::{decimal, decimal_string, digits_value, lemma_decimal_reads_back};

verus! {

#[verifier::external_type_specification]
#[verifier::external_body]
pub struct ExRegex(regex::Regex);

#[verifier::external_type_specification]
#[verifier::external_body]
pub struct ExRegexError(regex::Error);

/// Why a shader could not be patched.
#[derive(Debug, Clone, Copy, PartialEq, Eq)]
pub enum ShaderError {
    /// The search pattern was refused by the regular-expression compiler.
    InvalidPattern,
}

/// The pattern of the attribute that fixes a compute entry point's workgroup size.
pub open spec fn workgroup_size_pattern() -> Seq<char> {
    r"@workgroup_size\(\d+\)"@
}

/// The byte span `(start, end)` of the leftmost-first match of `pattern` in
/// `haystack`, as `regex::Regex::find` reports it, or `None` when there is none.
pub uninterp spec fn leftmost_match(pattern: Seq<char>, haystack: Seq<char>) -> Option<(int, int)>;

/// A byte span of machine integers, read as mathematical integers.
pub open spec fn span_view(span: Option<(usize, usize)>) -> Option<(int, int)> {
    match span {
        Some((s, e)) => Some((s as int, e as int)),
        None => None,
    }
}

/// `span` lies within the UTF-8 encoding of `text` and starts and ends on
/// character boundaries.
pub open spec fn valid_span(text: Seq<char>, span: Option<(int, int)>) -> bool {
    match span {
        Some((s, e)) => {
            let bytes = encode_utf8(text);
            &&& 0 <= s <= e <= bytes.len()
            &&& is_char_boundary(bytes, s)
            &&& is_char_boundary(bytes, e)
        },
        None => true,
    }
}

/// The attribute that declares a workgroup size of `n`: `@workgroup_size(n)`.
pub open spec fn workgroup_size_attribute(n: u32) -> Seq<char> {
    "@workgroup_size("@ + decimal(n as nat) + ")"@
}

/// `text` with the bytes of `span` replaced by `replacement`; `text` itself
/// when there is no span.
pub open spec fn splice(text: Seq<char>, span: Option<(int, int)>, replacement: Seq<char>) -> Seq<char> {
    match span {
        Some((s, e)) => {
            let bytes = encode_utf8(text);
            decode_utf8(bytes.subrange(0, s)) + replacement + decode_utf8(
                bytes.subrange(e, bytes.len() as int),
            )
        },
        None => text,
    }
}

/// What patching `code` to a workgroup size of `n` yields: the first match of
/// the attribute pattern replaced by `@workgroup_size(n)`.
pub open spec fn patched_shader(code: Seq<char>, n: u32) -> Seq<char> {
    splice(code, leftmost_match(workgroup_size_pattern(), code), workgroup_size_attribute(n))
}

/// The UTF-8 encoding of a concatenation is the concatenation of the encodings.
proof fn lemma_encode_utf8_concat(a: Seq<char>, b: Seq<char>)
    ensures
        encode_utf8(a + b) == encode_utf8(a) + encode_utf8(b),
    decreases a.len(),
{
    if a.len() == 0 {
        assert(a + b =~= b);
        assert(encode_utf8(a) =~= Seq::<u8>::empty());
        assert(encode_utf8(a) + encode_utf8(b) =~= encode_utf8(b));
    } else {
        assert((a + b).drop_first() =~= a.drop_first() + b);
        assert((a + b)[0] == a[0]);
        lemma_encode_utf8_concat(a.drop_first(), b);
        assert(encode_utf8(a + b) =~= encode_utf8(a) + encode_utf8(b));
    }
}

/// A shader without a workgroup-size attribute is left as it is.
pub proof fn lemma_no_attribute_unchanged(code: Seq<char>, n: u32)
    requires
        leftmost_match(workgroup_size_pattern(), code) is None,
    ensures
        patched_shader(code, n) == code,
{
}

/// Splicing changes exactly the bytes of the span: the encoding of the result
/// is the bytes before the span, the encoding of the replacement, and the
/// bytes after the span.
pub proof fn lemma_splice_bytes(text: Seq<char>, s: int, e: int, replacement: Seq<char>)
    requires
        valid_span(text, Some((s, e))),
    ensures
        encode_utf8(splice(text, Some((s, e)), replacement)) == encode_utf8(text).subrange(0, s)
            + encode_utf8(replacement) + encode_utf8(text).subrange(
            e,
            encode_utf8(text).len() as int,
        ),
{
    broadcast use vstd::utf8::group_utf8_lib;

    let bytes = encode_utf8(text);
    let pre = bytes.subrange(0, s);
    let post = bytes.subrange(e, bytes.len() as int);
    assert(vstd::utf8::valid_utf8(bytes));
    assert(vstd::utf8::valid_utf8(pre));
    assert(vstd::utf8::valid_utf8(post));
    lemma_encode_utf8_concat(decode_utf8(pre), replacement);
    lemma_encode_utf8_concat(decode_utf8(pre) + replacement, decode_utf8(post));
}

/// Patching a shader whose attribute spans bytes `s..e` puts
/// `@workgroup_size(n)` in place of exactly those bytes.
pub proof fn lemma_patch_replaces_attribute(code: Seq<char>, n: u32, s: int, e: int)
    requires
        leftmost_match(workgroup_size_pattern(), code) == Some((s, e)),
        valid_span(code, Some((s, e))),
    ensures
        encode_utf8(patched_shader(code, n)) == encode_utf8(code).subrange(0, s) + encode_utf8(
            workgroup_size_attribute(n),
        ) + encode_utf8(code).subrange(e, encode_utf8(code).len() as int),
{
    lemma_splice_bytes(code, s, e, workgroup_size_attribute(n));
}

/// Patching a shader whose attribute already reads `@workgroup_size(n)` leaves
/// it as it is.
pub proof fn lemma_patch_at_same_size_unchanged(code: Seq<char>, n: u32, s: int, e: int)
    requires
        leftmost_match(workgroup_size_pattern(), code) == Some((s, e)),
        valid_span(code, Some((s, e))),
        encode_utf8(code).subrange(s, e) == encode_utf8(workgroup_size_attribute(n)),
    ensures
        patched_shader(code, n) == code,
{
    broadcast use vstd::utf8::group_utf8_lib;

    let bytes = encode_utf8(code);
    lemma_splice_bytes(code, s, e, workgroup_size_attribute(n));
    assert(bytes.subrange(0, s) + bytes.subrange(s, e) + bytes.subrange(e, bytes.len() as int)
        =~= bytes);
    assert(encode_utf8(patched_shader(code, n)) == bytes);
    assert(decode_utf8(encode_utf8(patched_shader(code, n))) == patched_shader(code, n));
    assert(decode_utf8(bytes) == code);
}

/// Patching twice is patching once with the last size, provided the pattern
/// finds the inserted attribute where the first patch put it.
pub proof fn lemma_last_size_wins(code: Seq<char>, a: u32, b: u32, s: int, e: int)
    requires
        leftmost_match(workgroup_size_pattern(), code) == Some((s, e)),
        valid_span(code, Some((s, e))),
        leftmost_match(workgroup_size_pattern(), patched_shader(code, a)) == Some(
            (s, s + encode_utf8(workgroup_size_attribute(a)).len()),
        ),
        valid_span(
            patched_shader(code, a),
            Some((s, s + encode_utf8(workgroup_size_attribute(a)).len())),
        ),
    ensures
        patched_shader(patched_shader(code, a), b) == patched_shader(code, b),
{
    broadcast use vstd::utf8::group_utf8_lib;

    let bytes = encode_utf8(code);
    let once = patched_shader(code, a);
    let la = encode_utf8(workgroup_size_attribute(a)).len() as int;
    lemma_splice_bytes(code, s, e, workgroup_size_attribute(a));
    lemma_splice_bytes(code, s, e, workgroup_size_attribute(b));
    lemma_splice_bytes(once, s, s + la, workgroup_size_attribute(b));
    let once_bytes = encode_utf8(once);
    assert(once_bytes.subrange(0, s) =~= bytes.subrange(0, s));
    assert(once_bytes.subrange(s + la, once_bytes.len() as int) =~= bytes.subrange(
        e,
        bytes.len() as int,
    ));
    let twice = patched_shader(once, b);
    let direct = patched_shader(code, b);
    assert(encode_utf8(twice) == encode_utf8(direct));
    assert(decode_utf8(encode_utf8(twice)) == twice);
    assert(decode_utf8(encode_utf8(direct)) == direct);
}

/// The attribute pattern, character by character: `@workgroup_size(`, one or
/// more decimal digits (`\d+`), then `)`.
pub proof fn lemma_attribute_pattern_text()
    ensures
        workgroup_size_pattern() == seq![
            '@', 'w', 'o', 'r', 'k', 'g', 'r', 'o', 'u', 'p', '_', 's', 'i', 'z', 'e',
            '\\', '(', '\\', 'd', '+', '\\', ')',
        ],
{
    reveal_strlit(r"@workgroup_size\(\d+\)");
    assert(workgroup_size_pattern() =~= seq![
        '@', 'w', 'o', 'r', 'k', 'g', 'r', 'o', 'u', 'p', '_', 's', 'i', 'z', 'e',
        '\\', '(', '\\', 'd', '+', '\\', ')',
    ]);
}

/// The attribute written for a size `n`: `@workgroup_size(`, the decimal digits
/// of `n`, then `)`; the digits read back as `n`.
pub proof fn lemma_attribute_text(n: u32)
    ensures
        workgroup_size_attribute(n) == seq![
            '@', 'w', 'o', 'r', 'k', 'g', 'r', 'o', 'u', 'p', '_', 's', 'i', 'z', 'e', '(',
        ] + decimal(n as nat) + seq![')'],
        digits_value(decimal(n as nat)) == n,
        forall|i: int| 0 <= i < decimal(n as nat).len() ==> 48 <= #[trigger] (decimal(n as nat)[i] as int) <= 57,
{
    reveal_strlit("@workgroup_size(");
    reveal_strlit(")");
    lemma_decimal_reads_back(n as nat);
    assert("@workgroup_size("@ =~= seq![
        '@', 'w', 'o', 'r', 'k', 'g', 'r', 'o', 'u', 'p', '_', 's', 'i', 'z', 'e', '(',
    ]);
    assert(")"@ =~= seq![')']);
}

/// `regex::Regex::new`: compiles a pattern, or reports why it cannot. It fails
/// only on invalid syntax or on a compiled program above the default size
/// limit; the workgroup-size attribute pattern is valid and small, so it
/// compiles.
#[verifier::external_body]
fn regex_new(pattern: &str) -> (res: Result<regex::Regex, regex::Error>)
    ensures
        pattern@ == workgroup_size_pattern() ==> res is Ok,
{
    regex::Regex::new(pattern)
}

/// A compiled regular expression together with the pattern it was compiled from.
pub struct Pattern {
    source: String,
    regex: regex::Regex,
}

impl Pattern {
    /// The pattern this expression was compiled from.
    pub closed spec fn source(&self) -> Seq<char> {
        self.source@
    }

    /// Compiles `source`.
    pub fn compile(source: &str) -> (res: Result<Pattern, ShaderError>)
        ensures
            res matches Ok(p) ==> p.source() == source@,
            source@ == workgroup_size_pattern() ==> res is Ok,
    {
        match regex_new(source) {
            Ok(regex) => Ok(Pattern { source: String::from_str(source), regex }),
            Err(_) => Err(ShaderError::InvalidPattern),
        }
    }

    /// `regex::Regex::find`: the byte span of the leftmost-first match in
    /// `haystack`. Its documentation promises `start <= end` and that both
    /// offsets fall on UTF-8 character boundaries of the haystack.
    #[verifier::external_body]
    pub(crate) fn find_span(&self, haystack: &str) -> (res: Option<(usize, usize)>)
        ensures
            span_view(res) == leftmost_match(self.source(), haystack@),
            valid_span(haystack@, span_view(res)),
    {
        match self.regex.find(haystack) {
            Some(m) => Some((m.start(), m.end())),
            None => None,
        }
    }
}

/// The pattern literal of the workgroup-size attribute.
fn workgroup_size_pattern_str() -> (res: &'static str)
    ensures
        res@ == workgroup_size_pattern(),
{
    r"@workgroup_size\(\d+\)"
}

/// Replaces the bytes of `span` in `code` by `@workgroup_size(new_size)`;
/// returns `code` unchanged when there is no span.
pub fn replace_span(code: &str, span: Option<(usize, usize)>, new_size: u32) -> (res: String)
    requires
        valid_span(code@, span_view(span)),
    ensures
        res@ == splice(code@, span_view(span), workgroup_size_attribute(new_size)),
{
    match span {
        None => String::from_str(code),
        Some((s, e)) => {
            let (pre, _) = code.split_at(s);
            let (_, post) = code.split_at(e);
            proof {
                broadcast use vstd::utf8::group_utf8_lib;

                assert(pre@ == decode_utf8(encode_utf8(code@).subrange(0, s as int)));
                assert(post@ == decode_utf8(
                    encode_utf8(code@).subrange(e as int, encode_utf8(code@).len() as int),
                ));
            }
            let mut out = String::from_str(pre);
            out.append("@workgroup_size(");
            let digits = decimal_string(new_size);
            out.append(digits.as_str());
            out.append(")");
            out.append(post);
            out
        },
    }
}

/// Rewrites the workgroup-size attribute of WGSL shaders; holds the compiled
/// attribute pattern so that it is compiled once.
pub struct WorkgroupSizePatcher {
    pattern: Pattern,
}

impl WorkgroupSizePatcher {
    /// The pattern this patcher searches shaders with.
    pub closed spec fn pattern_source(&self) -> Seq<char> {
        self.pattern.source()
    }

    #[verifier::type_invariant]
    closed spec fn holds_attribute_pattern(self) -> bool {
        self.pattern.source() == workgroup_size_pattern()
    }

    /// Compiles the attribute pattern.
    pub fn new() -> (res: Result<WorkgroupSizePatcher, ShaderError>)
        ensures
            res is Ok,
            res matches Ok(p) ==> p.pattern_source() == workgroup_size_pattern(),
    {
        match Pattern::compile(workgroup_size_pattern_str()) {
            Ok(pattern) => Ok(WorkgroupSizePatcher { pattern }),
            Err(e) => Err(e),
        }
    }

    /// Replaces the first `@workgroup_size(<digits>)` of `wgsl_code` by
    /// `@workgroup_size(new_size)`; a shader without one is returned unchanged.
    pub fn apply(&self, wgsl_code: &str, new_size: u32) -> (res: String)
        ensures
            res@ == patched_shader(wgsl_code@, new_size),
            valid_span(wgsl_code@, leftmost_match(workgroup_size_pattern(), wgsl_code@)),
    {
        proof {
            use_type_invariant(self);
        }
        let span = self.pattern.find_span(wgsl_code);
        replace_span(wgsl_code, span, new_size)
    }
}

/// Replaces the first `@workgroup_size(<digits>)` of `wgsl_code` by
/// `@workgroup_size(new_size)`, compiling the attribute pattern first.
pub fn modify_workgroup_size(wgsl_code: &str, new_size: u32) -> (res: Result<String, ShaderError>)
    ensures
        res is Ok,
        res matches Ok(s) ==> s@ == patched_shader(wgsl_code@, new_size),
        valid_span(wgsl_code@, leftmost_match(workgroup_size_pattern(), wgsl_code@)),
{
    match WorkgroupSizePatcher::new() {
        Ok(patcher) => Ok(patcher.apply(wgsl_code, new_size)),
        Err(e) => Err(e),
    }
}

} // verus!
