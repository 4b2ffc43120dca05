//! The checks that text arguments pass before they are handed to the engine
//! as NUL-terminated C strings, and the errors of calls that cannot be made
//! or that hand back nothing.

use vstd::prelude::*;
use vstd::slice::slice_to_vec;
use vstd::utf8::{decode_utf8, encode_utf8};

use crate::error::{Error, LOCAL_ERROR_CODE};

verus! {

/// The role of a text argument, which names it in the error of a rejected argument.
#[derive(Debug, Clone, Copy, PartialEq, Eq)]
pub enum TextArg {
    Config,
    Path,
    Name,
    Uri,
    Key,
    Value,
}

/// The name of an argument role in error messages.
pub open spec fn arg_label(what: TextArg) -> Seq<char> {
    match what {
        TextArg::Config => "Config"@,
        TextArg::Path => "Path"@,
        TextArg::Name => "Name"@,
        TextArg::Uri => "URI"@,
        TextArg::Key => "Key"@,
        TextArg::Value => "Value"@,
    }
}

impl TextArg {
    /// The name of the role in error messages.
    pub fn label(&self) -> (l: &'static str)
        ensures
            l@ == arg_label(*self),
    {
        match self {
            TextArg::Config => "Config",
            TextArg::Path => "Path",
            TextArg::Name => "Name",
            TextArg::Uri => "URI",
            TextArg::Key => "Key",
            TextArg::Value => "Value",
        }
    }
}

/// The C string of a text: its UTF-8 bytes and a terminating NUL, or nothing
/// when the bytes hold a NUL of their own.
pub open spec fn c_bytes(s: Seq<char>) -> Option<Seq<u8>> {
    let b = encode_utf8(s);
    if b.contains(0u8) {
        None
    } else {
        Some(b.push(0u8))
    }
}

/// The message of a rejected text argument.
pub open spec fn nul_message(what: TextArg) -> Seq<char> {
    arg_label(what) + " contains null byte"@
}

/// A rejected argument is named by its role: `Config`, `Path`, `Name`,
/// `URI`, `Key` or `Value`, followed by ` contains null byte`.
pub proof fn lemma_nul_messages()
    ensures
        nul_message(TextArg::Config) == "Config contains null byte"@,
        nul_message(TextArg::Path) == "Path contains null byte"@,
        nul_message(TextArg::Name) == "Name contains null byte"@,
        nul_message(TextArg::Uri) == "URI contains null byte"@,
        nul_message(TextArg::Key) == "Key contains null byte"@,
        nul_message(TextArg::Value) == "Value contains null byte"@,
{
    broadcast use vstd::string::group_string_axioms;
    reveal_strlit(" contains null byte");
    reveal_strlit("Config");
    reveal_strlit("Config contains null byte");
    assert(nul_message(TextArg::Config) =~= "Config contains null byte"@);
    reveal_strlit("Path");
    reveal_strlit("Path contains null byte");
    assert(nul_message(TextArg::Path) =~= "Path contains null byte"@);
    reveal_strlit("Name");
    reveal_strlit("Name contains null byte");
    assert(nul_message(TextArg::Name) =~= "Name contains null byte"@);
    reveal_strlit("URI");
    reveal_strlit("URI contains null byte");
    assert(nul_message(TextArg::Uri) =~= "URI contains null byte"@);
    reveal_strlit("Key");
    reveal_strlit("Key contains null byte");
    assert(nul_message(TextArg::Key) =~= "Key contains null byte"@);
    reveal_strlit("Value");
    reveal_strlit("Value contains null byte");
    assert(nul_message(TextArg::Value) =~= "Value contains null byte"@);
}

/// Whether `b` holds a zero byte.
fn has_nul(b: &[u8]) -> (r: bool)
    ensures
        r == b@.contains(0u8),
{
    let mut i: usize = 0;
    while i < b.len()
        invariant
            i <= b@.len(),
            forall|k: int| 0 <= k < i ==> b@[k] != 0u8,
        decreases b@.len() - i,
    {
        if b[i] == 0u8 {
            assert(b@[i as int] == 0u8);
            return true;
        }
        i = i + 1;
    }
    false
}

/// The C string of the text argument `s`, or the error naming its role when
/// `s` holds a NUL character.
pub fn c_string(s: &str, what: TextArg) -> (r: Result<Vec<u8>, Error>)
    ensures
        r is Err <==> s@.contains('\0'),
        match r {
            Ok(v) => c_bytes(s@) == Some(v@),
            Err(e) => c_bytes(s@) is None && e@.code == LOCAL_ERROR_CODE && e@.message
                == nul_message(what),
        },
{
    proof {
        lemma_nul_byte_iff_nul_char(s@);
    }
    let b = s.as_bytes();
    if has_nul(b) {
        let mut m = String::from_str(what.label());
        m.append(" contains null byte");
        Err(Error::local(m.as_str()))
    } else {
        let mut v = slice_to_vec(b);
        v.push(0u8);
        Ok(v)
    }
}

/// The C string of an optional configuration string.
pub fn config_to_cstring(config: Option<&str>) -> (r: Result<Option<Vec<u8>>, Error>)
    ensures
        match config {
            None => r == Ok::<Option<Vec<u8>>, Error>(None),
            Some(c) => match r {
                Ok(Some(v)) => c_bytes(c@) == Some(v@),
                Ok(None) => false,
                Err(e) => c_bytes(c@) is None && e@.code == LOCAL_ERROR_CODE && e@.message
                    == nul_message(TextArg::Config),
            },
        },
{
    match config {
        None => Ok(None),
        Some(c) => match c_string(c, TextArg::Config) {
            Ok(v) => Ok(Some(v)),
            Err(e) => Err(e),
        },
    }
}

/// The C string of a database home path; `None` stands for a path that is
/// not valid UTF-8.
pub fn home_c_string(home: Option<&str>) -> (r: Result<Vec<u8>, Error>)
    ensures
        match home {
            None => r matches Err(e) && e@.code == LOCAL_ERROR_CODE && e@.message
                == "Invalid UTF-8 in path"@,
            Some(h) => match r {
                Ok(v) => c_bytes(h@) == Some(v@),
                Err(e) => c_bytes(h@) is None && e@.code == LOCAL_ERROR_CODE && e@.message
                    == nul_message(TextArg::Path),
            },
        },
{
    match home {
        None => Err(Error::local("Invalid UTF-8 in path")),
        Some(h) => c_string(h, TextArg::Path),
    }
}

/// The error of an engine method that the handle does not provide.
pub fn unavailable(method: &str) -> (e: Error)
    ensures
        e@.code == LOCAL_ERROR_CODE,
        e@.message == method@ + " function not available"@,
{
    let mut m = String::from_str(method);
    m.append(" function not available");
    Error::local(m.as_str())
}

/// The error of an engine call that handed back a null pointer; `object`
/// names what it should have handed back, where the message names it.
pub fn returned_null(call: &str, object: Option<&str>) -> (e: Error)
    ensures
        e@.code == LOCAL_ERROR_CODE,
        e@.message == match object {
            Some(o) => call@ + " returned null "@ + o@,
            None => call@ + " returned null"@,
        },
{
    let mut m = String::from_str(call);
    match object {
        Some(o) => {
            m.append(" returned null ");
            m.append(o);
        },
        None => {
            m.append(" returned null");
        },
    }
    Error::local(m.as_str())
}

/// A C string ends in its only NUL, and the bytes before it are the text.
pub proof fn lemma_c_string_reads_back(s: Seq<char>)
    requires
        c_bytes(s) is Some,
    ensures
        ({
            let v = c_bytes(s)->0;
            &&& v.len() > 0
            &&& v.last() == 0u8
            &&& forall|i: int| 0 <= i < v.len() - 1 ==> v[i] != 0u8
            &&& decode_utf8(v.drop_last()) == s
        }),
{
    let b = encode_utf8(s);
    let v = b.push(0u8);
    assert(v.drop_last() =~= b);
    assert forall|i: int| 0 <= i < v.len() - 1 implies v[i] != 0u8 by {
        assert(v[i] == b[i]);
    }
    vstd::utf8::encode_utf8_decode_utf8(s);
}

proof fn lemma_or_nonzero(a: u8, b: u8)
    by (bit_vector)
    requires
        a != 0,
    ensures
        a | b != 0,
{
}

proof fn lemma_low_bits_zero(u: u32)
    by (bit_vector)
    requires
        u <= 0x7F,
    ensures
        ((u & 0x7F) as u8 == 0) == (u == 0),
{
}

/// The UTF-8 encoding of a scalar holds a zero byte exactly when the scalar is 0.
proof fn lemma_scalar_nul(u: u32)
    requires
        vstd::utf8::is_scalar(u),
    ensures
        vstd::utf8::encode_scalar(u).contains(0u8) == (u == 0),
{
    let e = vstd::utf8::encode_scalar(u);
    if vstd::utf8::has_width_1_encoding(u) {
        lemma_low_bits_zero(u);
        assert(e[0] == (u & 0x7F) as u8);
        if u == 0 {
            assert(e[0] == 0u8);
        }
    } else {
        assert forall|i: int| 0 <= i < e.len() implies e[i] != 0u8 by {
            if vstd::utf8::has_width_2_encoding(u) {
                lemma_or_nonzero(0xC0u8, ((u >> 6) & 0x1F) as u8);
                lemma_or_nonzero(0x80u8, (u & 0x3F) as u8);
            } else if vstd::utf8::has_width_3_encoding(u) {
                lemma_or_nonzero(0xE0u8, ((u >> 12) & 0x0F) as u8);
                lemma_or_nonzero(0x80u8, ((u >> 6) & 0x3F) as u8);
                lemma_or_nonzero(0x80u8, (u & 0x3F) as u8);
            } else {
                lemma_or_nonzero(0xF0u8, ((u >> 18) & 0x7) as u8);
                lemma_or_nonzero(0x80u8, ((u >> 12) & 0x3F) as u8);
                lemma_or_nonzero(0x80u8, ((u >> 6) & 0x3F) as u8);
                lemma_or_nonzero(0x80u8, (u & 0x3F) as u8);
            }
        }
    }
}

/// The UTF-8 bytes of a text hold a zero byte exactly when the text holds a NUL character.
pub proof fn lemma_nul_byte_iff_nul_char(s: Seq<char>)
    ensures
        encode_utf8(s).contains(0u8) == s.contains('\0'),
    decreases s.len(),
{
    if s.len() > 0 {
        let head = vstd::utf8::encode_scalar(s[0] as u32);
        let tail = encode_utf8(s.drop_first());
        vstd::utf8::char_is_scalar(s[0]);
        lemma_scalar_nul(s[0] as u32);
        lemma_nul_byte_iff_nul_char(s.drop_first());
        let e = encode_utf8(s);
        assert(e == head + tail);
        if s.contains('\0') {
            let k = choose|k: int| 0 <= k < s.len() && s[k] == '\0';
            if k == 0 {
                let j = choose|j: int| 0 <= j < head.len() && head[j] == 0u8;
                assert(e[j] == 0u8);
            } else {
                assert(s.drop_first()[k - 1] == '\0');
                let j = choose|j: int| 0 <= j < tail.len() && tail[j] == 0u8;
                assert(e[head.len() + j] == 0u8);
            }
        }
        if e.contains(0u8) {
            let j = choose|j: int| 0 <= j < e.len() && e[j] == 0u8;
            if j < head.len() {
                assert(head[j] == 0u8);
                assert((s[0] as u32) == 0);
                vstd::utf8::char_u32_cast(s[0], 0u32);
                assert(s[0] == '\0');
            } else {
                assert(tail[j - head.len()] == 0u8);
                let k = choose|k: int| 0 <= k < s.drop_first().len() && s.drop_first()[k] == '\0';
                assert(s[k + 1] == '\0');
            }
        }
    }
}

} // verus!
