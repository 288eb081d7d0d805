//! A paired session and the capabilities it serves.
use vstd::prelude::*;
use crate::command::{CommandModel, ParsedCommand};
use crate::json::{array_text, texts, write_array};
use crate::key::{canonical_key_hex, hex_encode, hex_text, PublicKey};
use crate::relay::{duplicate_relays, relay_texts, RelayUrl};
use crate::text::same_text;

verus! {

/// What a peer says of itself when it pairs. Advisory: never used to authorize.
#[derive(Clone, Debug)]
pub struct Nip46ClientMetadata {
    pub name: String,
    pub url: RelayUrl,
    pub description: String,
}

/// The mathematical value of a peer's metadata.
pub struct MetadataModel {
    pub name: Seq<char>,
    pub url: Seq<char>,
    pub description: Seq<char>,
}

impl View for Nip46ClientMetadata {
    type V = MetadataModel;

    open spec fn view(&self) -> MetadataModel {
        MetadataModel { name: self.name@, url: self.url@, description: self.description@ }
    }
}

/// A paired session: the peer, and the relays its traffic uses.
#[derive(Clone, Debug)]
pub struct Nip46Server {
    pub peer_pubkey: PublicKey,
    pub relays: Vec<RelayUrl>,
    pub metadata: Option<Nip46ClientMetadata>,
}

/// The mathematical value of a session.
pub struct SessionModel {
    pub peer: Seq<char>,
    pub relays: Seq<Seq<char>>,
    pub metadata: Option<MetadataModel>,
}

impl View for Nip46Server {
    type V = SessionModel;

    open spec fn view(&self) -> SessionModel {
        SessionModel {
            peer: self.peer_pubkey@,
            relays: relay_texts(self.relays@),
            metadata: match self.metadata {
                Some(m) => Some(m@),
                None => None,
            },
        }
    }
}

/// An answer to a peer: the envelope's three fields, whom it is for, and the
/// relays to publish it on.
#[derive(Clone, Debug)]
pub struct Response {
    pub id: String,
    pub result: String,
    pub error: String,
    pub recipient: PublicKey,
    pub relays: Vec<RelayUrl>,
}

/// The mathematical value of an answer.
pub struct ResponseModel {
    pub id: Seq<char>,
    pub result: Seq<char>,
    pub error: Seq<char>,
    pub recipient: Seq<char>,
    pub relays: Seq<Seq<char>>,
}

impl View for Response {
    type V = ResponseModel;

    open spec fn view(&self) -> ResponseModel {
        ResponseModel {
            id: self.id@,
            result: self.result@,
            error: self.error@,
            recipient: self.recipient@,
            relays: relay_texts(self.relays@),
        }
    }
}

/// The answer that carries a result.
pub open spec fn success(
    id: Seq<char>,
    result: Seq<char>,
    recipient: Seq<char>,
    relays: Seq<Seq<char>>,
) -> ResponseModel {
    ResponseModel { id, result, error: Seq::empty(), recipient, relays }
}

/// The answer that carries an error.
pub open spec fn failure(
    id: Seq<char>,
    error: Seq<char>,
    recipient: Seq<char>,
    relays: Seq<Seq<char>>,
) -> ResponseModel {
    ResponseModel { id, result: Seq::empty(), error, recipient, relays }
}

/// The two content-encryption schemes.
#[derive(Clone, Copy, Debug, PartialEq, Eq, Structural)]
pub enum Algorithm {
    Nip04,
    Nip44v2,
}

/// What the host must ask of the local identity to answer a command.
#[derive(Clone, Debug)]
pub enum Capability {
    /// Decode the descriptor, pass it to `Nip46Server::sign_event`, and sign
    /// the event that it gives.
    SignEvent { descriptor: String },
    /// Encrypt `text` to `peer`.
    Encrypt { peer: PublicKey, text: String, algorithm: Algorithm },
    /// Decrypt `text` from `peer`.
    Decrypt { peer: PublicKey, text: String, algorithm: Algorithm },
    /// Derive the conversation key shared with `peer`.
    ConversationKey { peer: PublicKey },
}

/// The mathematical value of a capability request.
pub enum CapabilityModel {
    SignEvent { descriptor: Seq<char> },
    Encrypt { peer: Seq<char>, text: Seq<char>, algorithm: Algorithm },
    Decrypt { peer: Seq<char>, text: Seq<char>, algorithm: Algorithm },
    ConversationKey { peer: Seq<char> },
}

impl View for Capability {
    type V = CapabilityModel;

    open spec fn view(&self) -> CapabilityModel {
        match self {
            Capability::SignEvent { descriptor } => CapabilityModel::SignEvent {
                descriptor: descriptor@,
            },
            Capability::Encrypt { peer, text, algorithm } => CapabilityModel::Encrypt {
                peer: peer@,
                text: text@,
                algorithm: *algorithm,
            },
            Capability::Decrypt { peer, text, algorithm } => CapabilityModel::Decrypt {
                peer: peer@,
                text: text@,
                algorithm: *algorithm,
            },
            Capability::ConversationKey { peer } => CapabilityModel::ConversationKey {
                peer: peer@,
            },
        }
    }
}

/// What a command comes to: an answer at once, or a request to the identity,
/// whose outcome `answer`, `answer_bytes` or `answer_key` turns into the answer.
#[derive(Clone, Debug)]
pub enum Step {
    Reply(Response),
    Invoke(String, Capability),
}

/// The mathematical value of a step.
pub enum StepModel {
    Reply(ResponseModel),
    Invoke(Seq<char>, CapabilityModel),
}

impl View for Step {
    type V = StepModel;

    open spec fn view(&self) -> StepModel {
        match self {
            Step::Reply(r) => StepModel::Reply(r@),
            Step::Invoke(id, c) => StepModel::Invoke(id@, c@),
        }
    }
}

/// The view of an optional key.
pub open spec fn key_view(key: Option<&PublicKey>) -> Option<Seq<char>> {
    match key {
        Some(k) => Some(k@),
        None => None,
    }
}

/// The view of what a capability function gives: the request to the
/// identity, or the text of the error to answer with.
pub open spec fn request_view(r: Result<Capability, String>) -> Result<CapabilityModel, Seq<char>> {
    match r {
        Ok(c) => Ok(c@),
        Err(why) => Err(why@),
    }
}

/// The request of a command that names a peer key in its first parameter and
/// needs `needed` parameters: too few parameters and a malformed key are
/// errors, else the request is what `request` builds from the key.
pub open spec fn keyed_request(
    params: Seq<Seq<char>>,
    needed: int,
    short: Seq<char>,
    request: spec_fn(Seq<char>) -> CapabilityModel,
) -> Result<CapabilityModel, Seq<char>> {
    if params.len() < needed {
        Err(short)
    } else {
        match canonical_key_hex(params[0]) {
            None => Err("invalid public key"@),
            Some(peer) => Ok(request(peer)),
        }
    }
}

/// The request of `sign_event`.
pub open spec fn sign_event_request(
    params: Seq<Seq<char>>,
    local_key: Option<Seq<char>>,
) -> Result<CapabilityModel, Seq<char>> {
    if params.len() == 0 {
        Err("sign_event: requires a parameter"@)
    } else if local_key is None {
        Err("No public key configured"@)
    } else {
        Ok(CapabilityModel::SignEvent { descriptor: params[0] })
    }
}

/// The request of `nip04_encrypt`.
pub open spec fn nip04_encrypt_request(params: Seq<Seq<char>>) -> Result<
    CapabilityModel,
    Seq<char>,
> {
    keyed_request(
        params,
        2,
        "nip04_encrypt: requires two parameters"@,
        |peer: Seq<char>|
            CapabilityModel::Encrypt { peer, text: params[1], algorithm: Algorithm::Nip04 },
    )
}

/// The request of `nip04_decrypt`.
pub open spec fn nip04_decrypt_request(params: Seq<Seq<char>>) -> Result<
    CapabilityModel,
    Seq<char>,
> {
    keyed_request(
        params,
        2,
        "nip04_decrypt: requires two parameters"@,
        |peer: Seq<char>|
            CapabilityModel::Decrypt { peer, text: params[1], algorithm: Algorithm::Nip04 },
    )
}

/// The request of `nip44_get_key`.
pub open spec fn nip44_get_key_request(params: Seq<Seq<char>>) -> Result<
    CapabilityModel,
    Seq<char>,
> {
    keyed_request(
        params,
        1,
        "nip44_get_key: requires a parameter"@,
        |peer: Seq<char>| CapabilityModel::ConversationKey { peer },
    )
}

/// The request of `nip44_encrypt`.
pub open spec fn nip44_encrypt_request(params: Seq<Seq<char>>) -> Result<
    CapabilityModel,
    Seq<char>,
> {
    keyed_request(
        params,
        2,
        "nip44_encrypt: requires two parameters"@,
        |peer: Seq<char>|
            CapabilityModel::Encrypt { peer, text: params[1], algorithm: Algorithm::Nip44v2 },
    )
}

/// The request of `nip44_decrypt`.
pub open spec fn nip44_decrypt_request(params: Seq<Seq<char>>) -> Result<
    CapabilityModel,
    Seq<char>,
> {
    keyed_request(
        params,
        2,
        "nip44_decrypt: requires two parameters"@,
        |peer: Seq<char>|
            CapabilityModel::Decrypt { peer, text: params[1], algorithm: Algorithm::Nip44v2 },
    )
}

/// The step that a request comes to: the identity is invoked, or the error is
/// answered at once.
pub open spec fn step_of(
    id: Seq<char>,
    session: SessionModel,
    request: Result<CapabilityModel, Seq<char>>,
) -> StepModel {
    match request {
        Ok(c) => StepModel::Invoke(id, c),
        Err(why) => StepModel::Reply(failure(id, why, session.peer, session.relays)),
    }
}

/// What a paired session does with a command. Every answer goes to the
/// session's peer on the session's relays and echoes the command's `id`.
pub open spec fn dispatch(
    cmd: CommandModel,
    session: SessionModel,
    local_key: Option<Seq<char>>,
) -> StepModel {
    let ok = |text: Seq<char>| StepModel::Reply(success(cmd.id, text, session.peer, session.relays));
    let no = |text: Seq<char>| StepModel::Reply(failure(cmd.id, text, session.peer, session.relays));
    if cmd.method == "connect"@ {
        no("You are already connected"@)
    } else if cmd.method == "get_public_key"@ {
        match local_key {
            Some(key) => ok(key),
            None => no("No public key configured"@),
        }
    } else if cmd.method == "sign_event"@ {
        step_of(cmd.id, session, sign_event_request(cmd.params, local_key))
    } else if cmd.method == "get_relays"@ {
        ok(array_text(session.relays))
    } else if cmd.method == "nip04_encrypt"@ {
        step_of(cmd.id, session, nip04_encrypt_request(cmd.params))
    } else if cmd.method == "nip04_decrypt"@ {
        step_of(cmd.id, session, nip04_decrypt_request(cmd.params))
    } else if cmd.method == "nip44_get_key"@ {
        step_of(cmd.id, session, nip44_get_key_request(cmd.params))
    } else if cmd.method == "nip44_encrypt"@ {
        step_of(cmd.id, session, nip44_encrypt_request(cmd.params))
    } else if cmd.method == "nip44_decrypt"@ {
        step_of(cmd.id, session, nip44_decrypt_request(cmd.params))
    } else if cmd.method == "ping"@ {
        ok("pong"@)
    } else {
        no("unrecognized command"@)
    }
}

/// Calls `String::from_utf8`, which accepts exactly the byte sequences that are
/// UTF-8 and gives the text they encode.
#[verifier::external_body]
fn text_of_bytes(bytes: Vec<u8>) -> (r: Option<String>)
    ensures
        r is Some <==> vstd::utf8::valid_utf8(bytes@),
        r matches Some(s) ==> s@ == vstd::utf8::decode_utf8(bytes@),
{
    String::from_utf8(bytes).ok()
}

/// The texts of the relays, as owned strings.
fn relay_strings(relays: &Vec<RelayUrl>) -> (r: Vec<String>)
    ensures
        texts(r@) == relay_texts(relays@),
{
    let mut out: Vec<String> = Vec::new();
    let mut i: usize = 0;
    while i < relays.len()
        invariant
            i <= relays.len(),
            out.len() == i,
            forall|j: int| 0 <= j < i ==> out[j]@ == relays[j]@,
        decreases relays.len() - i,
    {
        out.push(relays[i].url.clone());
        i = i + 1;
    }
    assert(texts(out@) =~= relay_texts(relays@));
    out
}

impl Nip46Server {
    /// The answer to this session's peer that carries a result.
    pub fn accept(&self, id: String, result: String) -> (r: Response)
        ensures
            r@ == success(id@, result@, self@.peer, self@.relays),
    {
        Response {
            id,
            result,
            error: String::new(),
            recipient: self.peer_pubkey.duplicate(),
            relays: duplicate_relays(&self.relays),
        }
    }

    /// The answer to this session's peer that carries an error.
    pub fn refuse(&self, id: String, error: String) -> (r: Response)
        ensures
            r@ == failure(id@, error@, self@.peer, self@.relays),
    {
        Response {
            id,
            result: String::new(),
            error,
            recipient: self.peer_pubkey.duplicate(),
            relays: duplicate_relays(&self.relays),
        }
    }

    /// `get_public_key`: the local key in hexadecimal.
    pub fn get_public_key(local_key: Option<&PublicKey>) -> (r: Result<String, String>)
        ensures
            match r {
                Ok(text) => key_view(local_key) == Some(text@),
                Err(why) => local_key is None && why@ == "No public key configured"@,
            },
    {
        match local_key {
            Some(key) => Ok(key.as_hex_string()),
            None => Err("No public key configured".to_owned()),
        }
    }

    /// `get_relays`: the session's relays as a JSON array of strings.
    pub fn get_relays(&self) -> (r: String)
        ensures
            r@ == array_text(self@.relays),
    {
        let strings = relay_strings(&self.relays);
        write_array(&strings)
    }

    /// `ping`.
    pub fn ping() -> (r: String)
        ensures
            r@ == "pong"@,
    {
        "pong".to_owned()
    }

    /// The peer key that a command names in its first parameter.
    fn peer_key(params: &Vec<String>) -> (r: Result<PublicKey, String>)
        requires
            params.len() >= 1,
        ensures
            match r {
                Ok(peer) => canonical_key_hex(texts(params@)[0]) == Some(peer@),
                Err(why) => canonical_key_hex(texts(params@)[0]) is None && why@
                    == "invalid public key"@,
            },
    {
        match PublicKey::try_from_hex_string(params[0].as_str()) {
            Ok(peer) => Ok(peer),
            Err(_) => Err("invalid public key".to_owned()),
        }
    }

    /// `sign_event`: asks for a signature on the event that the first
    /// parameter describes.
    pub fn sign_event_command(params: &Vec<String>, local_key: Option<&PublicKey>) -> (r: Result<
        Capability,
        String,
    >)
        ensures
            request_view(r) == sign_event_request(texts(params@), key_view(local_key)),
    {
        if params.len() == 0 {
            Err("sign_event: requires a parameter".to_owned())
        } else if local_key.is_none() {
            Err("No public key configured".to_owned())
        } else {
            Ok(Capability::SignEvent { descriptor: params[0].clone() })
        }
    }

    /// `nip04_encrypt`: asks for the second parameter encrypted to the key in
    /// the first.
    pub fn nip04_encrypt(params: &Vec<String>) -> (r: Result<Capability, String>)
        ensures
            request_view(r) == nip04_encrypt_request(texts(params@)),
    {
        if params.len() < 2 {
            return Err("nip04_encrypt: requires two parameters".to_owned());
        }
        let peer = Self::peer_key(params)?;
        Ok(Capability::Encrypt { peer, text: params[1].clone(), algorithm: Algorithm::Nip04 })
    }

    /// `nip04_decrypt`: asks for the second parameter decrypted from the key
    /// in the first.
    pub fn nip04_decrypt(params: &Vec<String>) -> (r: Result<Capability, String>)
        ensures
            request_view(r) == nip04_decrypt_request(texts(params@)),
    {
        if params.len() < 2 {
            return Err("nip04_decrypt: requires two parameters".to_owned());
        }
        let peer = Self::peer_key(params)?;
        Ok(Capability::Decrypt { peer, text: params[1].clone(), algorithm: Algorithm::Nip04 })
    }

    /// `nip44_get_key`: asks for the conversation key shared with the key in
    /// the first parameter.
    pub fn nip44_get_key(params: &Vec<String>) -> (r: Result<Capability, String>)
        ensures
            request_view(r) == nip44_get_key_request(texts(params@)),
    {
        if params.len() < 1 {
            return Err("nip44_get_key: requires a parameter".to_owned());
        }
        let peer = Self::peer_key(params)?;
        Ok(Capability::ConversationKey { peer })
    }

    /// `nip44_encrypt`: as `nip04_encrypt`, in the versioned scheme.
    pub fn nip44_encrypt(params: &Vec<String>) -> (r: Result<Capability, String>)
        ensures
            request_view(r) == nip44_encrypt_request(texts(params@)),
    {
        if params.len() < 2 {
            return Err("nip44_encrypt: requires two parameters".to_owned());
        }
        let peer = Self::peer_key(params)?;
        Ok(Capability::Encrypt { peer, text: params[1].clone(), algorithm: Algorithm::Nip44v2 })
    }

    /// `nip44_decrypt`: as `nip04_decrypt`, in the versioned scheme.
    pub fn nip44_decrypt(params: &Vec<String>) -> (r: Result<Capability, String>)
        ensures
            request_view(r) == nip44_decrypt_request(texts(params@)),
    {
        if params.len() < 2 {
            return Err("nip44_decrypt: requires two parameters".to_owned());
        }
        let peer = Self::peer_key(params)?;
        Ok(Capability::Decrypt { peer, text: params[1].clone(), algorithm: Algorithm::Nip44v2 })
    }

    /// The step that a request comes to.
    fn step(&self, id: String, request: Result<Capability, String>) -> (r: Step)
        ensures
            r@ == step_of(id@, self@, request_view(request)),
    {
        match request {
            Ok(c) => Step::Invoke(id, c),
            Err(why) => Step::Reply(self.refuse(id, why)),
        }
    }

    /// Serves one command of the session's peer.
    pub fn handle(&self, cmd: ParsedCommand, local_key: Option<&PublicKey>) -> (r: Step)
        ensures
            r@ == dispatch(cmd@, self@, key_view(local_key)),
    {
        let ghost model = cmd@;
        let ParsedCommand { id, method, params } = cmd;
        assert(model.params == texts(params@));
        let name: &str = method.as_str();
        if same_text(name, "connect") {
            Step::Reply(self.refuse(id, "You are already connected".to_owned()))
        } else if same_text(name, "get_public_key") {
            match Self::get_public_key(local_key) {
                Ok(text) => Step::Reply(self.accept(id, text)),
                Err(why) => Step::Reply(self.refuse(id, why)),
            }
        } else if same_text(name, "sign_event") {
            self.step(id, Self::sign_event_command(&params, local_key))
        } else if same_text(name, "get_relays") {
            Step::Reply(self.accept(id, self.get_relays()))
        } else if same_text(name, "nip04_encrypt") {
            self.step(id, Self::nip04_encrypt(&params))
        } else if same_text(name, "nip04_decrypt") {
            self.step(id, Self::nip04_decrypt(&params))
        } else if same_text(name, "nip44_get_key") {
            self.step(id, Self::nip44_get_key(&params))
        } else if same_text(name, "nip44_encrypt") {
            self.step(id, Self::nip44_encrypt(&params))
        } else if same_text(name, "nip44_decrypt") {
            self.step(id, Self::nip44_decrypt(&params))
        } else if same_text(name, "ping") {
            Step::Reply(self.accept(id, Self::ping()))
        } else {
            Step::Reply(self.refuse(id, "unrecognized command".to_owned()))
        }
    }

    /// The answer once the identity has done what was asked: its text as the
    /// result, or its failure as the error.
    pub fn answer(&self, id: String, outcome: Result<String, String>) -> (r: Response)
        ensures
            r@ == (match outcome {
                Ok(text) => success(id@, text@, self@.peer, self@.relays),
                Err(why) => failure(id@, why@, self@.peer, self@.relays),
            }),
    {
        match outcome {
            Ok(text) => self.accept(id, text),
            Err(why) => self.refuse(id, why),
        }
    }

    /// The answer to a decryption that gave bytes: the text they encode as the
    /// result; an error where they encode none, and the failure as the error.
    pub fn answer_bytes(&self, id: String, outcome: Result<Vec<u8>, String>) -> (r: Response)
        ensures
            r@ == (match outcome {
                Ok(bytes) => if vstd::utf8::valid_utf8(bytes@) {
                    success(id@, vstd::utf8::decode_utf8(bytes@), self@.peer, self@.relays)
                } else {
                    failure(id@, "invalid utf-8 sequence"@, self@.peer, self@.relays)
                },
                Err(why) => failure(id@, why@, self@.peer, self@.relays),
            }),
    {
        match outcome {
            Ok(bytes) => match text_of_bytes(bytes) {
                Some(text) => self.accept(id, text),
                None => self.refuse(id, "invalid utf-8 sequence".to_owned()),
            },
            Err(why) => self.refuse(id, why),
        }
    }

    /// The answer to `nip44_get_key` once the identity has derived the
    /// conversation key: the key in hexadecimal, or the failure as the error.
    pub fn answer_key(&self, id: String, outcome: Result<Vec<u8>, String>) -> (r: Response)
        ensures
            r@ == (match outcome {
                Ok(key) => success(id@, hex_text(key@), self@.peer, self@.relays),
                Err(why) => failure(id@, why@, self@.peer, self@.relays),
            }),
    {
        match outcome {
            Ok(key) => self.accept(id, hex_encode(key.as_slice())),
            Err(why) => self.refuse(id, why),
        }
    }
}

} // verus!
