//! Byte material: certificate and key payloads, whatever they were encoded as.

use vstd::prelude::*;
use vstd::string::*;

verus! {

/// Holder for secret or certificate bytes.
///
/// The content is reachable only through [`Bytes::as_slice`]; the textual form
/// given by [`Bytes::debug_text`] shows the length and nothing else, so that
/// key material does not end up in logs.
pub struct Bytes(Vec<u8>);

impl View for Bytes {
    type V = Seq<u8>;

    closed spec fn view(&self) -> Seq<u8> {
        self.0@
    }
}

/// What `base64::decode` returns for a text: the decoded bytes, or the debug
/// rendering of its `DecodeError`.
pub uninterp spec fn base64_decoded(text: Seq<char>) -> Result<Seq<u8>, Seq<char>>;

/// The longest text, in bytes, that is handed to the base64 decoder: its
/// length arithmetic adds up to seven to the input length.
pub open spec fn max_base64_input() -> int {
    usize::MAX - 7
}

/// The message of a failed base64 decode with the given detail.
pub open spec fn base64_failure(detail: Seq<char>) -> Seq<char> {
    "unable to decode base64 string: "@ + detail
}

/// The detail reported for a text that is too long to hand to the decoder.
pub open spec fn oversized_detail() -> Seq<char> {
    "InvalidLength"@
}

/// What decoding a base64 field yields, given what the decoder returned.
pub open spec fn base64_outcome(decoded: Result<Seq<u8>, Seq<char>>) -> Result<Seq<u8>, Seq<char>> {
    match decoded {
        Ok(data) => Ok(data),
        Err(detail) => Err(base64_failure(detail)),
    }
}

/// What a base64 field decodes to: what the decoder makes of the text, where
/// the text can be handed to it.
pub open spec fn base64_field(text: Seq<char>) -> Result<Seq<u8>, Seq<char>> {
    if vstd::utf8::encode_utf8(text).len() <= max_base64_input() {
        base64_outcome(base64_decoded(text))
    } else {
        Err(base64_failure(oversized_detail()))
    }
}

/// The view of a decode result: bytes on success, message text on failure.
pub open spec fn outcome_view(res: Result<Bytes, String>) -> Result<Seq<u8>, Seq<char>> {
    match res {
        Ok(bytes) => Ok(bytes@),
        Err(message) => Err(message@),
    }
}

/// Calls `base64::decode`, which reads the standard alphabet.
///
/// Trusted: the result is `base64_decoded` of the text, where a failure is
/// given as the `{:?}` rendering of the crate's `DecodeError`. Texts so long
/// that the crate's length arithmetic would overflow are left out.
#[verifier::external_body]
fn decode_base64(text: &str) -> (res: Result<Vec<u8>, String>)
    requires
        text.spec_bytes().len() <= max_base64_input(),
    ensures
        match res {
            Ok(data) => base64_decoded(text@) == Ok::<Seq<u8>, Seq<char>>(data@),
            Err(detail) => base64_decoded(text@) == Err::<Seq<u8>, Seq<char>>(detail@),
        },
{
    match base64::decode(text) {
        Ok(data) => Ok(data),
        Err(e) => Err(format!("{:?}", e)),
    }
}

impl Bytes {
    /// Wraps bytes that were read elsewhere, unchanged.
    pub fn new(data: Vec<u8>) -> (res: Bytes)
        ensures
            res@ == data@,
    {
        Bytes(data)
    }

    /// The number of bytes held.
    pub fn len(&self) -> (n: usize)
        ensures
            n == self@.len(),
    {
        self.0.len()
    }

    /// The bytes held.
    pub fn as_slice(&self) -> (res: &[u8])
        ensures
            res@ == self@,
    {
        self.0.as_slice()
    }

    /// The textual form: `&u8[`, the length in decimal, `]`. It shows how
    /// many bytes there are and none of them.
    pub fn debug_text(&self) -> (res: String)
        ensures
            exists|digits: String|
                to_string_from_display_ensures::<usize>(&(self@.len() as usize), digits) && res@
                    == "&u8["@ + digits@ + "]"@,
    {
        let n: usize = self.0.len();
        let digits = n.to_string();
        let mut text = String::from_str("&u8[");
        text.append(digits.as_str());
        text.append("]");
        text
    }

    /// Text-to-bytes: the UTF-8 bytes of the text, verbatim.
    pub fn from_text(text: &str) -> (res: Bytes)
        ensures
            res@ == text.spec_bytes(),
    {
        Bytes(text.as_bytes_vec())
    }

    /// What a base64 field decodes to, given the decoder's answer: the bytes
    /// as they are, or the failure message built around the decoder's detail.
    pub fn from_decoded(decoded: Result<Vec<u8>, String>) -> (res: Result<Bytes, String>)
        ensures
            outcome_view(res) == base64_outcome(
                match decoded {
                    Ok(data) => Ok(data@),
                    Err(detail) => Err(detail@),
                },
            ),
    {
        match decoded {
            Ok(data) => Ok(Bytes(data)),
            Err(detail) => {
                let mut message = String::from_str("unable to decode base64 string: ");
                message.append(detail.as_str());
                Err(message)
            },
        }
    }

    /// Base64-to-contents: decodes standard base64 text. Fails, with a message
    /// that carries the decoder's detail, exactly when the decoder does; no
    /// other reading of the text is tried.
    pub fn from_base64(text: &str) -> (res: Result<Bytes, String>)
        ensures
            outcome_view(res) == base64_field(text@),
    {
        if text.as_bytes().len() > usize::MAX - 7 {
            Bytes::from_decoded(Err(String::from_str("InvalidLength")))
        } else {
            Bytes::from_decoded(decode_base64(text))
        }
    }
}

/// A base64 field holds what the decoder found in its text, byte for byte:
/// where the text stands for `data`, decoding the field yields exactly `data`.
pub proof fn lemma_base64_field_keeps_decoded_bytes(text: Seq<char>, data: Seq<u8>)
    ensures
        vstd::utf8::encode_utf8(text).len() <= max_base64_input() && (base64_decoded(text) matches Ok(
            found,
        ) && found == data) ==> (base64_field(text) matches Ok(kept) && kept == data),
{
}

impl std::ops::Deref for Bytes {
    type Target = [u8];

    fn deref(&self) -> (res: &[u8])
        ensures
            res@ == self@,
    {
        self.0.as_slice()
    }
}

impl Clone for Bytes {
    fn clone(&self) -> (res: Bytes)
        ensures
            res@ == self@,
    {
        Bytes(self.0.clone())
    }
}

} // verus!
