use vstd::prelude::*;
use vstd::string::StringSliceAdditionalSpecFns;
use vstd::utf8::{decode_utf8, encode_utf8, valid_utf8};

verus! {

/// The fixed message that every plain entry point sends to its callback.
pub open spec fn greeting_text() -> Seq<char> {
    "Hello from Rust"@
}

/// No byte of `b` is the zero terminator.
pub open spec fn free_of_nul(b: Seq<u8>) -> bool {
    forall|i: int| 0 <= i < b.len() ==> b[i] != 0u8
}

/// The text could not be given a C form: it holds a zero byte at `position`.
#[derive(Debug, Clone, Copy, PartialEq, Eq)]
pub struct InteriorNul {
    pub position: usize,
}

/// The fixed message.
pub fn greeting() -> (r: &'static str)
    ensures
        r@ == greeting_text(),
{
    "Hello from Rust"
}

/// The UTF-8 bytes of `s` followed by one zero terminator, or the position
/// of the first zero byte of `s` when it holds one.
pub fn c_text(s: &str) -> (r: Result<Vec<u8>, InteriorNul>)
    ensures
        match r {
            Ok(v) => free_of_nul(s.spec_bytes()) && v@ == s.spec_bytes().push(0u8),
            Err(e) => e.position < s.spec_bytes().len() && s.spec_bytes()[e.position as int] == 0u8
                && free_of_nul(s.spec_bytes().take(e.position as int)),
        },
{
    let bytes = s.as_bytes();
    let mut out: Vec<u8> = Vec::new();
    let mut i: usize = 0;
    while i < bytes.len()
        invariant
            0 <= i <= bytes@.len(),
            bytes@ == s.spec_bytes(),
            out@ == bytes@.take(i as int),
            free_of_nul(bytes@.take(i as int)),
        decreases bytes@.len() - i,
    {
        let b = bytes[i];
        if b == 0 {
            return Err(InteriorNul { position: i });
        }
        out.push(b);
        i = i + 1;
        assert(out@ =~= bytes@.take(i as int));
    }
    assert(bytes@.take(i as int) =~= bytes@);
    out.push(0);
    Ok(out)
}

/// The fixed message in C form: its bytes and one zero terminator.
pub fn c_greeting() -> (r: Vec<u8>)
    ensures
        r@ == encode_utf8(greeting_text()).push(0u8),
        free_of_nul(encode_utf8(greeting_text())),
{
    let s = greeting();
    proof {
        reveal_strlit("Hello from Rust");
        vstd::string::is_ascii_spec_bytes(s);
    }
    assert(vstd::string::is_ascii(s));
    match c_text(s) {
        Ok(v) => v,
        Err(_) => {
            proof {
                assert(false);
            }
            Vec::new()
        },
    }
}

/// Appends one received chunk of a response body to what came before it.
pub fn append_chunk(body: &mut Vec<u8>, chunk: &[u8])
    ensures
        final(body)@ == old(body)@ + chunk@,
{
    let mut i: usize = 0;
    while i < chunk.len()
        invariant
            0 <= i <= chunk@.len(),
            body@ == old(body)@ + chunk@.take(i as int),
        decreases chunk@.len() - i,
    {
        body.push(chunk[i]);
        i = i + 1;
        assert(body@ =~= old(body)@ + chunk@.take(i as int));
    }
    assert(chunk@.take(i as int) =~= chunk@);
}

/// Relies on `String::from_utf8`: it returns the text exactly when the bytes
/// are well-formed UTF-8, and fails otherwise.
#[verifier::external_body]
fn utf8_string(bytes: Vec<u8>) -> (r: Option<String>)
    ensures
        r is Some <==> valid_utf8(bytes@),
        r is Some ==> r->Some_0@ == decode_utf8(bytes@),
{
    String::from_utf8(bytes).ok()
}

/// The response body as text, or `None` when it is not well-formed UTF-8.
pub fn decode_body(body: Vec<u8>) -> (r: Option<String>)
    ensures
        r is Some <==> valid_utf8(body@),
        r is Some ==> r->Some_0@ == decode_utf8(body@),
{
    utf8_string(body)
}

} // verus!
