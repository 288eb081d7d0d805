//! The engine's errors.
use vstd::prelude::*;

verus! {

/// Why an entry point failed.
#[derive(Debug)]
pub enum ErrorKind {
    /// No local public key is configured.
    NoPublicKey,
    /// The pairing URI does not follow its grammar.
    BadNostrConnectString,
    /// The text is no public key.
    InvalidPublicKey,
    /// The text is no relay URL.
    InvalidRelayUrl,
    /// The text is no JSON, or not the JSON that was asked for.
    InvalidJson,
    /// A command envelope is JSON but no object.
    Nip46CommandNotJsonObject,
    /// A command envelope has no `id` that is a string.
    Nip46CommandMissingId,
    /// A command envelope with a usable `id` (first) is malformed (second: how).
    Nip46ParsingError(String, String),
    /// No relay is known on which to answer.
    Nip46RelayNeeded,
    /// No pairing secret could be generated.
    NoSecret,
    /// The inbound message could not be decrypted.
    Undecryptable,
}

/// The mathematical value of an error.
pub enum ErrorModel {
    NoPublicKey,
    BadNostrConnectString,
    InvalidPublicKey,
    InvalidRelayUrl,
    InvalidJson,
    Nip46CommandNotJsonObject,
    Nip46CommandMissingId,
    Nip46ParsingError(Seq<char>, Seq<char>),
    Nip46RelayNeeded,
    NoSecret,
    Undecryptable,
}

impl View for ErrorKind {
    type V = ErrorModel;

    open spec fn view(&self) -> ErrorModel {
        match self {
            ErrorKind::NoPublicKey => ErrorModel::NoPublicKey,
            ErrorKind::BadNostrConnectString => ErrorModel::BadNostrConnectString,
            ErrorKind::InvalidPublicKey => ErrorModel::InvalidPublicKey,
            ErrorKind::InvalidRelayUrl => ErrorModel::InvalidRelayUrl,
            ErrorKind::InvalidJson => ErrorModel::InvalidJson,
            ErrorKind::Nip46CommandNotJsonObject => ErrorModel::Nip46CommandNotJsonObject,
            ErrorKind::Nip46CommandMissingId => ErrorModel::Nip46CommandMissingId,
            ErrorKind::Nip46ParsingError(id, how) => ErrorModel::Nip46ParsingError(id@, how@),
            ErrorKind::Nip46RelayNeeded => ErrorModel::Nip46RelayNeeded,
            ErrorKind::NoSecret => ErrorModel::NoSecret,
            ErrorKind::Undecryptable => ErrorModel::Undecryptable,
        }
    }
}

} // verus!
