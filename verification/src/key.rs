//! Public keys, held as canonical hexadecimal text.
use vstd::prelude::*;

verus! {

/// `nostr_types::Error`, carried from the calls below to where it is mapped to
/// an error of the engine; nothing is read out of it.
#[verifier::external_type_specification]
#[verifier::external_body]
pub struct ExNostrError(nostr_types::Error);

/// The canonical hexadecimal text of the key that `text` denotes, if it denotes one.
pub uninterp spec fn canonical_key_hex(text: Seq<char>) -> Option<Seq<char>>;

/// The bech32 text (`npub1...`) of the key whose canonical hexadecimal text is `hex`.
pub uninterp spec fn bech32_of_key(hex: Seq<char>) -> Option<Seq<char>>;

/// The lower-case hexadecimal digit of a value below sixteen.
pub open spec fn hex_digit(v: int) -> char {
    if v < 10 {
        (48 + v) as u8 as char
    } else {
        (87 + v) as u8 as char
    }
}

/// Bytes in lower-case hexadecimal: two digits each, the high half first.
pub open spec fn hex_text(bytes: Seq<u8>) -> Seq<char> {
    Seq::new(
        2 * bytes.len(),
        |i: int|
            if i % 2 == 0 {
                hex_digit(bytes[i / 2] as int / 16)
            } else {
                hex_digit(bytes[i / 2] as int % 16)
            },
    )
}

/// Calls `hex::encode`, which writes each byte as two lower-case hexadecimal
/// digits, the high half first.
#[verifier::external_body]
pub(crate) fn hex_encode(bytes: &[u8]) -> (r: String)
    ensures
        r@ == hex_text(bytes@),
{
    hex::encode(bytes)
}

/// A public key. `hex` is its canonical hexadecimal text.
#[derive(Clone, Debug)]
pub struct PublicKey {
    pub hex: String,
}

impl View for PublicKey {
    type V = Seq<char>;

    open spec fn view(&self) -> Seq<char> {
        self.hex@
    }
}

/// Calls `nostr_types::PublicKey::try_from_hex_string` and renders the key it
/// gives with `as_hex_string`. Trusted: the answer is `canonical_key_hex` of the
/// text, and the call fails exactly where that is `None`.
#[verifier::external_body]
fn decode_key(text: &str) -> (r: Result<String, nostr_types::Error>)
    ensures
        r matches Ok(hex) ==> canonical_key_hex(text@) == Some(hex@),
        r is Err ==> canonical_key_hex(text@) is None,
{
    let key = nostr_types::PublicKey::try_from_hex_string(text)?;
    Ok(key.as_hex_string())
}

/// Calls `nostr_types::PublicKey::try_as_bech32_string` on the key that
/// `try_from_hex_string` gives for `hex`. Trusted: the answer is `bech32_of_key`
/// of the text, and the call fails exactly where that is `None`.
#[verifier::external_body]
fn encode_key_bech32(hex: &str) -> (r: Result<String, nostr_types::Error>)
    ensures
        r matches Ok(text) ==> bech32_of_key(hex@) == Some(text@),
        r is Err ==> bech32_of_key(hex@) is None,
{
    let key = nostr_types::PublicKey::try_from_hex_string(hex)?;
    key.try_as_bech32_string()
}

impl PublicKey {
    /// The key that `text` denotes in hexadecimal, or `InvalidPublicKey`.
    pub fn try_from_hex_string(text: &str) -> (r: Result<PublicKey, crate::error::ErrorKind>)
        ensures
            match r {
                Ok(key) => canonical_key_hex(text@) == Some(key@),
                Err(e) => canonical_key_hex(text@) is None
                    && e@ == crate::error::ErrorModel::InvalidPublicKey,
            },
    {
        match decode_key(text) {
            Ok(hex) => Ok(PublicKey { hex }),
            Err(_) => Err(crate::error::ErrorKind::InvalidPublicKey),
        }
    }

    /// The key's hexadecimal text.
    pub fn as_hex_string(&self) -> (r: String)
        ensures
            r@ == self@,
    {
        self.hex.clone()
    }

    /// The key's bech32 text, where it has one.
    pub fn try_as_bech32_string(&self) -> (r: Option<String>)
        ensures
            match r {
                Some(text) => bech32_of_key(self@) == Some(text@),
                None => bech32_of_key(self@) is None,
            },
    {
        match encode_key_bech32(self.hex.as_str()) {
            Ok(text) => Some(text),
            Err(_) => None,
        }
    }

    /// A copy of the key.
    pub fn duplicate(&self) -> (r: PublicKey)
        ensures
            r@ == self@,
    {
        PublicKey { hex: self.hex.clone() }
    }

    /// Whether two keys are the same key.
    pub fn same(&self, other: &PublicKey) -> (r: bool)
        ensures
            r == (self@ == other@),
    {
        self.hex == other.hex
    }
}

} // verus!
