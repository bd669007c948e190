use vstd::prelude::*;
use vstd::string::StringSliceAdditionalSpecFns;
use vstd::utf8::{decode_utf8, encode_utf8, valid_utf8};

use crate::exception::Exception;

verus! {

broadcast use {vstd::utf8::encode_utf8_valid_utf8, vstd::utf8::encode_utf8_decode_utf8};

/// What `String::from_utf8_lossy` makes of a byte sequence: the decoded text, with each
/// maximal invalid UTF-8 sequence replaced by U+FFFD.
pub uninterp spec fn utf8_lossy(bytes: Seq<u8>) -> Seq<char>;

/// Calls `String::from_utf8_lossy` and takes ownership of the text it returns. The contract
/// claims that the result is `utf8_lossy` of the bytes and, as std documents, that valid UTF-8
/// comes back decoded unchanged; it leaves unsaid how invalid sequences are replaced.
#[verifier::external_body]
fn from_utf8_lossy(bytes: &[u8]) -> (s: String)
    ensures
        s@ == utf8_lossy(bytes@),
        valid_utf8(bytes@) ==> s@ == decode_utf8(bytes@),
{
    String::from_utf8_lossy(bytes).into_owned()
}

/// Calls `core::str::from_utf8`. The contract claims what std documents: the bytes are
/// accepted exactly when they are valid UTF-8, and then the text's bytes are the given ones.
#[verifier::external_body]
fn str_from_utf8(bytes: &[u8]) -> (r: Option<&str>)
    ensures
        r is Some <==> valid_utf8(bytes@),
        r matches Some(s) ==> s.spec_bytes() == bytes@,
{
    core::str::from_utf8(bytes).ok()
}

/// The message of a C++ exception as it crosses to Rust: the UTF-8 bytes of a string that
/// Rust owns, and their length.
pub struct PtrLen {
    bytes: Vec<u8>,
    len: usize,
}

impl PtrLen {
    #[verifier::type_invariant]
    spec fn wf(self) -> bool {
        &&& self.len == self.bytes@.len()
        &&& valid_utf8(self.bytes@)
    }

    /// The bytes of the message.
    pub closed spec fn spec_bytes(self) -> Seq<u8> {
        self.bytes@
    }

    /// The number of bytes of the message.
    pub closed spec fn spec_len(self) -> usize {
        self.len
    }

    /// The bytes of the message.
    pub fn bytes(&self) -> (b: &[u8])
        ensures
            b@ == self.spec_bytes(),
    {
        self.bytes.as_slice()
    }

    /// The number of bytes of the message.
    pub fn len(&self) -> (n: usize)
        ensures
            n == self.spec_len(),
            n == self.spec_bytes().len(),
    {
        proof {
            use_type_invariant(self);
        }
        self.len
    }
}

/// Turns the bytes of a C++ exception message into a Rust-owned message: the bytes are read
/// as UTF-8, invalid sequences are replaced, and the text's own UTF-8 bytes and length are
/// returned.
pub fn exception(bytes: &[u8]) -> (p: PtrLen)
    ensures
        p.spec_bytes() == encode_utf8(utf8_lossy(bytes@)),
        p.spec_len() == p.spec_bytes().len(),
        valid_utf8(bytes@) ==> p.spec_bytes() == bytes@,
{
    let text = from_utf8_lossy(bytes);
    let view: &str = text.as_str();
    let raw = view.as_bytes();
    let owned = vstd::slice::slice_to_vec(raw);
    proof {
        if valid_utf8(bytes@) {
            vstd::utf8::decode_utf8_encode_utf8(bytes@);
        }
    }
    let len = owned.len();
    PtrLen { bytes: owned, len }
}

/// The outcome of a call into C++, as C++ hands it back: success, or the message of the
/// exception that the call threw.
pub enum Result {
    Success,
    Thrown(PtrLen),
}

impl Result {
    /// Converts the outcome of a C++ call into a Rust result: `Ok` on success, else an
    /// `Exception` whose message is the thrown text.
    pub fn exception(self) -> (r: core::result::Result<(), Exception>)
        ensures
            match self {
                Result::Success => r is Ok,
                Result::Thrown(p) => r matches Err(e) && e.message() == decode_utf8(p.spec_bytes()),
            },
    {
        match self {
            Result::Success => Ok(()),
            Result::Thrown(err) => {
                proof {
                    use_type_invariant(&err);
                }
                let s = str_from_utf8(err.bytes.as_slice()).unwrap();
                let what = s.to_owned();
                proof {
                    assert(encode_utf8(s@) == err.bytes@);
                }
                Err(Exception::new(what))
            },
        }
    }
}

/// A C++ exception's message reaches Rust intact: the bytes that `exception` keeps for the
/// message `bytes` decode, in `Result::exception`, to exactly the text that
/// `String::from_utf8_lossy` reads from `bytes`.
pub proof fn lemma_message_round_trip(bytes: Seq<u8>)
    ensures
        valid_utf8(encode_utf8(utf8_lossy(bytes))),
        decode_utf8(encode_utf8(utf8_lossy(bytes))) == utf8_lossy(bytes),
{
}

} // verus!
