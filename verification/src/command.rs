//! The command envelope: `{"id": string, "method": string, "params": [string, ...]}`.
use vstd::prelude::*;
use crate::error::{ErrorKind, ErrorModel};
use crate::json::{
    is_object, items, json_of_bytes, member, parse_json, text, texts, value_is_object,
    value_items, value_member, value_text,
};

verus! {

/// One decoded command of a peer.
#[derive(Clone, Debug)]
pub struct ParsedCommand {
    /// The peer's correlation string, echoed in the answer.
    pub id: String,
    /// The command's name.
    pub method: String,
    /// The command's arguments, in order.
    pub params: Vec<String>,
}

/// The mathematical value of a command.
pub struct CommandModel {
    pub id: Seq<char>,
    pub method: Seq<char>,
    pub params: Seq<Seq<char>>,
}

impl View for ParsedCommand {
    type V = CommandModel;

    open spec fn view(&self) -> CommandModel {
        CommandModel { id: self.id@, method: self.method@, params: texts(self.params@) }
    }
}

/// The view of a decoding result.
pub open spec fn decoded_view(r: Result<ParsedCommand, ErrorKind>) -> Result<
    CommandModel,
    ErrorModel,
> {
    match r {
        Ok(c) => Ok(c@),
        Err(e) => Err(e@),
    }
}

/// The texts of a list of documents, where each of them is a string.
pub open spec fn all_texts(docs: Seq<serde_json::Value>) -> Option<Seq<Seq<char>>> {
    if forall|i: int| 0 <= i < docs.len() ==> (#[trigger] value_text(docs[i])) is Some {
        Some(Seq::new(docs.len(), |i: int| value_text(docs[i]).unwrap()))
    } else {
        None
    }
}

/// The `params` of an envelope whose `id` is known.
pub open spec fn params_of_value(v: serde_json::Value, id: Seq<char>) -> Result<
    Seq<Seq<char>>,
    ErrorModel,
> {
    match value_member(v, "params"@) {
        None => Err(ErrorModel::Nip46ParsingError(id, "params missing"@)),
        Some(ps) => match value_items(ps) {
            None => Err(ErrorModel::Nip46ParsingError(id, "params not an array"@)),
            Some(docs) => match all_texts(docs) {
                None => Err(ErrorModel::Nip46ParsingError(id, "non-string parameter found"@)),
                Some(params) => Ok(params),
            },
        },
    }
}

/// The `method` of an envelope whose `id` is known.
pub open spec fn method_of_value(v: serde_json::Value, id: Seq<char>) -> Result<
    Seq<char>,
    ErrorModel,
> {
    match value_member(v, "method"@) {
        None => Err(ErrorModel::Nip46ParsingError(id, "method parameter missing"@)),
        Some(m) => match value_text(m) {
            None => Err(ErrorModel::Nip46ParsingError(id, "method not a string"@)),
            Some(method) => Ok(method),
        },
    }
}

/// The `id` of an envelope: a member that is a string.
pub open spec fn id_of_value(v: serde_json::Value) -> Option<Seq<char>> {
    match value_member(v, "id"@) {
        None => None,
        Some(m) => value_text(m),
    }
}

/// The command that a document holds. The fields are read in the order `id`,
/// `method`, `params`; a fault found once `id` is known carries that `id`, so
/// that an answer can be addressed.
pub open spec fn command_of_value(v: serde_json::Value) -> Result<CommandModel, ErrorModel> {
    if !value_is_object(v) {
        Err(ErrorModel::Nip46CommandNotJsonObject)
    } else {
        match id_of_value(v) {
            None => Err(ErrorModel::Nip46CommandMissingId),
            Some(id) => match method_of_value(v, id) {
                Err(e) => Err(e),
                Ok(method) => match params_of_value(v, id) {
                    Err(e) => Err(e),
                    Ok(params) => Ok(CommandModel { id, method, params }),
                },
            },
        }
    }
}

/// The command that decrypted bytes hold.
pub open spec fn command_of_bytes(bytes: Seq<u8>) -> Result<CommandModel, ErrorModel> {
    match json_of_bytes(bytes) {
        None => Err(ErrorModel::InvalidJson),
        Some(v) => command_of_value(v),
    }
}

/// Reads a list of documents as strings; `None` where one of them is no string.
fn read_texts(docs: &Vec<serde_json::Value>) -> (r: Option<Vec<String>>)
    ensures
        match r {
            Some(out) => all_texts(docs@) == Some(texts(out@)),
            None => all_texts(docs@) is None,
        },
{
    let mut out: Vec<String> = Vec::new();
    let mut i: usize = 0;
    while i < docs.len()
        invariant
            i <= docs.len(),
            out.len() == i,
            forall|j: int| 0 <= j < i ==> (#[trigger] value_text(docs[j])) == Some(out[j]@),
        decreases docs.len() - i,
    {
        match text(&docs[i]) {
            Some(s) => out.push(s.to_owned()),
            None => {
                assert(value_text(docs@[i as int]) is None);
                return None;
            },
        }
        i = i + 1;
    }
    assert(all_texts(docs@) is Some);
    assert(all_texts(docs@).unwrap() =~= texts(out@));
    Some(out)
}

/// Reads a command out of a parsed document.
pub fn command_from_value(v: &serde_json::Value) -> (r: Result<ParsedCommand, ErrorKind>)
    ensures
        decoded_view(r) == command_of_value(*v),
{
    if !is_object(v) {
        return Err(ErrorKind::Nip46CommandNotJsonObject);
    }
    let id: String = match member(v, "id") {
        Some(m) => match text(m) {
            Some(s) => s.to_owned(),
            None => {
                return Err(ErrorKind::Nip46CommandMissingId);
            },
        },
        None => {
            return Err(ErrorKind::Nip46CommandMissingId);
        },
    };
    let method: String = match member(v, "method") {
        Some(m) => match text(m) {
            Some(s) => s.to_owned(),
            None => {
                return Err(ErrorKind::Nip46ParsingError(id, "method not a string".to_owned()));
            },
        },
        None => {
            return Err(ErrorKind::Nip46ParsingError(id, "method parameter missing".to_owned()));
        },
    };
    match member(v, "params") {
        Some(ps) => match items(ps) {
            Some(docs) => match read_texts(docs) {
                Some(params) => Ok(ParsedCommand { id, method, params }),
                None => Err(
                    ErrorKind::Nip46ParsingError(id, "non-string parameter found".to_owned()),
                ),
            },
            None => Err(ErrorKind::Nip46ParsingError(id, "params not an array".to_owned())),
        },
        None => Err(ErrorKind::Nip46ParsingError(id, "params missing".to_owned())),
    }
}

/// Decodes the decrypted bytes of an inbound message.
pub fn parse_command(plaintext: &[u8]) -> (r: Result<ParsedCommand, ErrorKind>)
    ensures
        decoded_view(r) == command_of_bytes(plaintext@),
{
    match parse_json(plaintext) {
        Ok(v) => command_from_value(&v),
        Err(_) => Err(ErrorKind::InvalidJson),
    }
}

} // verus!
