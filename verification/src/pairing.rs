//! Pairing: the pending context, its token, and the handshake that turns an
//! unpaired peer into a session.
use vstd::prelude::*;
use vstd::string::*;
use crate::command::{command_of_bytes, decoded_view, parse_command, CommandModel, ParsedCommand};
use crate::error::{ErrorKind, ErrorModel};
use crate::json::{envelope_text, member_texts, write_object};
use crate::key::{bech32_of_key, PublicKey};
use crate::relay::{combine_relays, relay_texts, strictly_ascending, RelayUrl};
use crate::server::{
    dispatch, failure, key_view, success, Capability, CapabilityModel, Nip46Server, Response,
    ResponseModel, SessionModel, Step, StepModel,
};
use crate::text::same_text;
use crate::uri::{lemma_segments_push, segments};

verus! {

/// A pairing that waits for its peer: the secret the peer must present, and the
/// relays configured for it.
#[derive(Clone, Debug)]
pub struct Nip46UnconnectedServer {
    pub connect_secret: String,
    pub relays: Vec<RelayUrl>,
}

/// The mathematical value of a pending pairing.
pub struct PendingModel {
    pub secret: Seq<char>,
    pub relays: Seq<Seq<char>>,
}

impl View for Nip46UnconnectedServer {
    type V = PendingModel;

    open spec fn view(&self) -> PendingModel {
        PendingModel { secret: self.connect_secret@, relays: relay_texts(self.relays@) }
    }
}

/// A character of URL-safe base64: a letter, a digit, `-`, `_`, or the
/// padding `=`.
pub open spec fn url_safe(c: char) -> bool {
    ('a' <= c && c <= 'z') || ('A' <= c && c <= 'Z') || ('0' <= c && c <= '9') || c == '-' || c
        == '_' || c == '='
}

/// Calls `textnonce::TextNonce::sized_urlsafe` and `into_string`. The nonce
/// comes from the clock and the system's random source, so nothing is said of
/// which characters it holds. Trusted: the call fails for a length under
/// sixteen or not divisible by four, and when the clock stands before the
/// epoch; a nonce that is returned is URL-safe base64 of `length` characters.
#[verifier::external_body]
fn fresh_secret(length: usize) -> (r: Result<String, String>)
    ensures
        r matches Ok(s) ==> s@.len() == length && forall|i: int|
            0 <= i < s@.len() ==> url_safe(#[trigger] s@[i]),
{
    let nonce = textnonce::TextNonce::sized_urlsafe(length)?;
    Ok(nonce.into_string())
}

/// The pairing token: `<bech32 key>#<secret>?relay=<url>&relay=<url>...`.
pub open spec fn token_text(bech32: Seq<char>, secret: Seq<char>, relays: Seq<Seq<char>>) -> Seq<
    char,
> {
    bech32 + seq!['#'] + secret + seq!['?'] + segments(relays, None)
}

impl Nip46UnconnectedServer {
    /// A pending pairing on `relays` with a fresh secret: 32 characters of
    /// URL-safe base64. Fails with `NoPublicKey` where no local key is
    /// configured, and with `NoSecret` only where no secret could be generated.
    pub fn new(relays: Vec<RelayUrl>, local_key: Option<&PublicKey>) -> (r: Result<
        Nip46UnconnectedServer,
        ErrorKind,
    >)
        ensures
            match r {
                Ok(pending) => {
                    &&& local_key is Some
                    &&& pending.relays == relays
                    &&& pending.connect_secret@.len() == 32
                    &&& forall|i: int|
                        0 <= i < 32 ==> url_safe(#[trigger] pending.connect_secret@[i])
                },
                Err(e) => if local_key is None {
                    e@ == ErrorModel::NoPublicKey
                } else {
                    e@ == ErrorModel::NoSecret
                },
            },
    {
        if local_key.is_none() {
            return Err(ErrorKind::NoPublicKey);
        }
        match fresh_secret(32) {
            Ok(connect_secret) => Ok(Nip46UnconnectedServer { connect_secret, relays }),
            Err(_) => Err(ErrorKind::NoSecret),
        }
    }

    /// The token that is handed to the peer out of band.
    pub fn connection_token(&self, local_key: Option<&PublicKey>) -> (r: Result<String, ErrorKind>)
        ensures
            match r {
                Ok(token) => local_key matches Some(key) && bech32_of_key(key@) matches Some(b)
                    && token@ == token_text(b, self@.secret, self@.relays),
                Err(e) => match local_key {
                    None => e@ == ErrorModel::NoPublicKey,
                    Some(key) => bech32_of_key(key@) is None && e@
                        == ErrorModel::InvalidPublicKey,
                },
            },
    {
        let key = match local_key {
            Some(key) => key,
            None => {
                return Err(ErrorKind::NoPublicKey);
            },
        };
        let mut token: String = match key.try_as_bech32_string() {
            Some(text) => text,
            None => {
                return Err(ErrorKind::InvalidPublicKey);
            },
        };
        let ghost head = token@;
        proof {
            reveal_strlit("#");
            reveal_strlit("?");
            reveal_strlit("&");
        }
        token.append("#");
        token.append(self.connect_secret.as_str());
        token.append("?");
        let ghost all = relay_texts(self.relays@);
        let ghost prefix = head + seq!['#'] + self@.secret + seq!['?'];
        assert(token@ =~= prefix + segments(all.take(0), None));
        let mut i: usize = 0;
        while i < self.relays.len()
            invariant
                i <= self.relays.len(),
                all == relay_texts(self.relays@),
                prefix == head + seq!['#'] + self@.secret + seq!['?'],
                "&"@ == seq!['&'],
                token@ == prefix + segments(all.take(i as int), None),
            decreases self.relays.len() - i,
        {
            let ghost sofar = segments(all.take(i as int), None);
            if i > 0 {
                token.append("&");
            }
            token.append("relay=");
            token.append(self.relays[i].as_str());
            proof {
                assert(all.take(i + 1) =~= all.take(i as int).push(all[i as int]));
                lemma_segments_push(all.take(i as int), all[i as int]);
                if i > 0 {
                    assert(token@ =~= prefix + (sofar + seq!['&'] + "relay="@ + all[i as int]));
                } else {
                    assert(sofar =~= Seq::<char>::empty());
                    assert(token@ =~= prefix + ("relay="@ + all[i as int]));
                }
            }
            i = i + 1;
        }
        assert(all.take(i as int) =~= all);
        Ok(token)
    }
}

/// What the host must publish: `plaintext` encrypted to `recipient` with the
/// pairing-era scheme, in an event by `author` tagged to `recipient`, on `relays`.
#[derive(Clone, Debug)]
pub struct Outbound {
    pub author: PublicKey,
    pub recipient: PublicKey,
    pub plaintext: String,
    pub relays: Vec<RelayUrl>,
}

/// Encodes an answer for delivery. Fails with `NoPublicKey` exactly where no
/// local key is configured.
pub fn send_response(
    id: String,
    result: String,
    error: String,
    peer_pubkey: PublicKey,
    relays: Vec<RelayUrl>,
    local_key: Option<&PublicKey>,
) -> (r: Result<Outbound, ErrorKind>)
    ensures
        match r {
            Ok(out) => {
                &&& key_view(local_key) == Some(out.author@)
                &&& out.recipient == peer_pubkey
                &&& out.relays == relays
                &&& out.plaintext@ == envelope_text(id@, result@, error@)
            },
            Err(e) => local_key is None && e@ == ErrorModel::NoPublicKey,
        },
{
    match local_key {
        None => Err(ErrorKind::NoPublicKey),
        Some(key) => {
            let ghost wanted = seq![("id"@, id@), ("result"@, result@), ("error"@, error@)];
            let mut members: Vec<(String, String)> = Vec::new();
            members.push(("id".to_owned(), id));
            members.push(("result".to_owned(), result));
            members.push(("error".to_owned(), error));
            assert(member_texts(members@) =~= wanted);
            Ok(
                Outbound {
                    author: key.duplicate(),
                    recipient: peer_pubkey,
                    plaintext: write_object(&members),
                    relays,
                },
            )
        },
    }
}

/// What one inbound message comes to. The host, in this order: stores
/// `session` and deletes the pending pairing in one transaction, where there is
/// one; publishes `reply`, where there is one; performs `invoke`, where there is
/// one, and publishes the session's answer to its outcome; and returns `error`
/// to its caller, where there is one.
#[derive(Debug)]
pub struct Outcome {
    pub reply: Option<Response>,
    pub invoke: Option<(String, Capability)>,
    pub session: Option<Nip46Server>,
    pub error: Option<ErrorKind>,
}

/// The mathematical value of an outcome.
pub struct OutcomeModel {
    pub reply: Option<ResponseModel>,
    pub invoke: Option<(Seq<char>, CapabilityModel)>,
    pub session: Option<SessionModel>,
    pub error: Option<ErrorModel>,
}

impl View for Outcome {
    type V = OutcomeModel;

    open spec fn view(&self) -> OutcomeModel {
        OutcomeModel {
            reply: match self.reply {
                Some(r) => Some(r@),
                None => None,
            },
            invoke: match self.invoke {
                Some((id, c)) => Some((id@, c@)),
                None => None,
            },
            session: match self.session {
                Some(s) => Some(s@),
                None => None,
            },
            error: match self.error {
                Some(e) => Some(e@),
                None => None,
            },
        }
    }
}

/// How the handshake judges a command of an unpaired peer.
#[derive(Clone, Copy, Debug, PartialEq, Eq, Structural)]
pub enum Verdict {
    /// The command is not `connect`.
    WrongMethod,
    /// `connect` without exactly two parameters.
    WrongArity,
    /// No local key is configured.
    NoKey,
    /// The first parameter is not the local key in hexadecimal.
    WrongKey,
    /// The second parameter is not the pending secret.
    WrongSecret,
    /// The peer is paired.
    Accept,
}

/// The handshake's checks, in their order.
pub open spec fn verdict(cmd: CommandModel, secret: Seq<char>, local_key: Option<Seq<char>>) -> Verdict {
    if cmd.method != "connect"@ {
        Verdict::WrongMethod
    } else if cmd.params.len() != 2 {
        Verdict::WrongArity
    } else {
        match local_key {
            None => Verdict::NoKey,
            Some(key) => if cmd.params[0] != key {
                Verdict::WrongKey
            } else if cmd.params[1] != secret {
                Verdict::WrongSecret
            } else {
                Verdict::Accept
            },
        }
    }
}

/// The answer that tells the peer the verdict.
pub open spec fn verdict_reply(
    v: Verdict,
    id: Seq<char>,
    recipient: Seq<char>,
    relays: Seq<Seq<char>>,
) -> ResponseModel {
    match v {
        Verdict::WrongMethod => failure(
            id,
            "Your pubkey is not configured for nostr connect here."@,
            recipient,
            relays,
        ),
        Verdict::WrongArity => failure(id, "connect requires two parameters"@, recipient, relays),
        Verdict::NoKey => failure(id, "connect requires two parameters"@, recipient, relays),
        Verdict::WrongKey => failure(
            id,
            "Not configured to sign with the requested public key"@,
            recipient,
            relays,
        ),
        Verdict::WrongSecret => failure(id, "Incorrect secret."@, recipient, relays),
        Verdict::Accept => success(id, "ack"@, recipient, relays),
    }
}

/// `merged` holds the configured relays and the observed one, ascending, each once.
pub open spec fn is_merge(
    merged: Seq<Seq<char>>,
    configured: Seq<Seq<char>>,
    observed: Seq<char>,
) -> bool {
    &&& strictly_ascending(merged)
    &&& forall|t: Seq<char>| merged.contains(t) <==> (configured.contains(t) || t == observed)
}

/// The answer to a decoding fault: one that names an `id` is told to the peer.
pub open spec fn fault_reply(e: ErrorModel, recipient: Seq<char>, relays: Seq<Seq<char>>) -> Option<
    ResponseModel,
> {
    match e {
        ErrorModel::Nip46ParsingError(id, how) => Some(failure(id, how, recipient, relays)),
        _ => None,
    }
}

/// The outcome of a message from a paired peer.
pub open spec fn paired_outcome(
    session: SessionModel,
    command: Result<CommandModel, ErrorModel>,
    local_key: Option<Seq<char>>,
) -> OutcomeModel {
    match command {
        Ok(cmd) => match dispatch(cmd, session, local_key) {
            StepModel::Reply(r) => OutcomeModel {
                reply: Some(r),
                invoke: None,
                session: None,
                error: None,
            },
            StepModel::Invoke(id, c) => OutcomeModel {
                reply: None,
                invoke: Some((id, c)),
                session: None,
                error: None,
            },
        },
        Err(e) => OutcomeModel {
            reply: fault_reply(e, session.peer, session.relays),
            invoke: None,
            session: None,
            error: Some(e),
        },
    }
}

/// Whether `out` is the outcome owed to a message from an unpaired peer.
pub open spec fn unpaired_fits(
    sender: Seq<char>,
    seen_on: Option<Seq<char>>,
    command: Result<CommandModel, ErrorModel>,
    pending: Option<PendingModel>,
    local_key: Option<Seq<char>>,
    out: OutcomeModel,
) -> bool {
    &&& out.invoke is None
    &&& match seen_on {
        None => out.reply is None && out.session is None && out.error == Some(
            ErrorModel::Nip46RelayNeeded,
        ),
        Some(observed) => match command {
            Err(e) => {
                &&& out.reply == fault_reply(e, sender, seq![observed])
                &&& out.session is None
                &&& out.error == Some(e)
            },
            Ok(cmd) => match pending {
                None => {
                    &&& out.reply == Some(
                        failure(
                            cmd.id,
                            "Not configured to receive a connection"@,
                            sender,
                            seq![observed],
                        ),
                    )
                    &&& out.session is None
                    &&& out.error is None
                },
                Some(p) => {
                    let v = verdict(cmd, p.secret, local_key);
                    &&& out.reply matches Some(reply)
                    &&& is_merge(reply.relays, p.relays, observed)
                    &&& reply == verdict_reply(v, cmd.id, sender, reply.relays)
                    &&& out.session == (if v == Verdict::Accept {
                        Some(SessionModel { peer: sender, relays: reply.relays, metadata: None })
                    } else {
                        None
                    })
                    &&& out.error == (if v == Verdict::NoKey {
                        Some(ErrorModel::NoPublicKey)
                    } else {
                        None
                    })
                },
            },
        },
    }
}

/// Whether `out` is the outcome owed to a message, given what the store holds
/// for its sender.
pub open spec fn outcome_fits(
    sender: Seq<char>,
    seen_on: Option<Seq<char>>,
    session: Option<SessionModel>,
    command: Result<CommandModel, ErrorModel>,
    pending: Option<PendingModel>,
    local_key: Option<Seq<char>>,
    out: OutcomeModel,
) -> bool {
    match session {
        Some(s) => out == paired_outcome(s, command, local_key),
        None => unpaired_fits(sender, seen_on, command, pending, local_key, out),
    }
}

/// The view of an optional relay.
pub open spec fn relay_view(relay: Option<RelayUrl>) -> Option<Seq<char>> {
    match relay {
        Some(r) => Some(r@),
        None => None,
    }
}

/// The view of an optional session.
pub open spec fn session_view(session: Option<&Nip46Server>) -> Option<SessionModel> {
    match session {
        Some(s) => Some(s@),
        None => None,
    }
}

/// The view of an optional pending pairing.
pub open spec fn pending_view(pending: Option<&Nip46UnconnectedServer>) -> Option<PendingModel> {
    match pending {
        Some(p) => Some(p@),
        None => None,
    }
}

/// The command that an inbound message holds: `None` stands for a message that
/// could not be decrypted.
pub open spec fn command_of_message(plaintext: Option<&[u8]>) -> Result<CommandModel, ErrorModel> {
    match plaintext {
        Some(bytes) => command_of_bytes(bytes@),
        None => Err(ErrorModel::Undecryptable),
    }
}

/// The answer to a decoding fault, if it names an `id`.
fn tell_fault(e: &ErrorKind, recipient: &PublicKey, relays: Vec<RelayUrl>) -> (r: Option<Response>)
    ensures
        (match r {
            Some(x) => Some(x@),
            None => None,
        }) == fault_reply(e@, recipient@, relay_texts(relays@)),
{
    match e {
        ErrorKind::Nip46ParsingError(id, how) => Some(
            Response {
                id: id.clone(),
                result: String::new(),
                error: how.clone(),
                recipient: recipient.duplicate(),
                relays,
            },
        ),
        _ => None,
    }
}

/// Judges a command of an unpaired peer against the pending pairing.
pub fn judge(cmd: &ParsedCommand, secret: &str, local_key: Option<&PublicKey>) -> (v: Verdict)
    ensures
        v == verdict(cmd@, secret@, key_view(local_key)),
{
    if !same_text(cmd.method.as_str(), "connect") {
        return Verdict::WrongMethod;
    }
    if cmd.params.len() != 2 {
        assert(cmd@.params.len() != 2);
        return Verdict::WrongArity;
    }
    assert(cmd@.params[0] == cmd.params[0]@);
    assert(cmd@.params[1] == cmd.params[1]@);
    match local_key {
        None => Verdict::NoKey,
        Some(key) => {
            if !same_text(cmd.params[0].as_str(), key.hex.as_str()) {
                Verdict::WrongKey
            } else if !same_text(cmd.params[1].as_str(), secret) {
                Verdict::WrongSecret
            } else {
                Verdict::Accept
            }
        },
    }
}

/// The result and the error of the answer to a verdict, in that order.
fn verdict_texts(v: Verdict) -> (r: (String, String))
    ensures
        forall|id: Seq<char>, to: Seq<char>, on: Seq<Seq<char>>|
            #[trigger] verdict_reply(v, id, to, on) == (ResponseModel {
                id,
                result: r.0@,
                error: r.1@,
                recipient: to,
                relays: on,
            }),
{
    match v {
        Verdict::WrongMethod => (
            String::new(),
            "Your pubkey is not configured for nostr connect here.".to_owned(),
        ),
        Verdict::WrongArity => (String::new(), "connect requires two parameters".to_owned()),
        Verdict::NoKey => (String::new(), "connect requires two parameters".to_owned()),
        Verdict::WrongKey => (
            String::new(),
            "Not configured to sign with the requested public key".to_owned(),
        ),
        Verdict::WrongSecret => (String::new(), "Incorrect secret.".to_owned()),
        Verdict::Accept => ("ack".to_owned(), String::new()),
    }
}

/// Decides what a decoded message comes to. `session` is what the store holds
/// for `sender`, `pending` the pending pairing, `seen_on` the relay the message
/// arrived on.
pub fn respond(
    sender: &PublicKey,
    seen_on: Option<RelayUrl>,
    session: Option<&Nip46Server>,
    command: Result<ParsedCommand, ErrorKind>,
    pending: Option<&Nip46UnconnectedServer>,
    local_key: Option<&PublicKey>,
) -> (out: Outcome)
    ensures
        outcome_fits(
            sender@,
            relay_view(seen_on),
            session_view(session),
            decoded_view(command),
            pending_view(pending),
            key_view(local_key),
            out@,
        ),
{
    if let Some(server) = session {
        return match command {
            Ok(cmd) => match server.handle(cmd, local_key) {
                Step::Reply(r) => Outcome {
                    reply: Some(r),
                    invoke: None,
                    session: None,
                    error: None,
                },
                Step::Invoke(id, c) => Outcome {
                    reply: None,
                    invoke: Some((id, c)),
                    session: None,
                    error: None,
                },
            },
            Err(e) => {
                let reply = tell_fault(&e, &server.peer_pubkey, crate::relay::duplicate_relays(&server.relays));
                Outcome { reply, invoke: None, session: None, error: Some(e) }
            },
        };
    }
    let observed: RelayUrl = match seen_on {
        Some(r) => r,
        None => {
            return Outcome {
                reply: None,
                invoke: None,
                session: None,
                error: Some(ErrorKind::Nip46RelayNeeded),
            };
        },
    };
    let cmd: ParsedCommand = match command {
        Ok(cmd) => cmd,
        Err(e) => {
            let mut on: Vec<RelayUrl> = Vec::new();
            on.push(observed);
            assert(relay_texts(on@) =~= seq![observed@]);
            let reply = tell_fault(&e, sender, on);
            return Outcome { reply, invoke: None, session: None, error: Some(e) };
        },
    };
    let waiting: &Nip46UnconnectedServer = match pending {
        Some(p) => p,
        None => {
            let mut on: Vec<RelayUrl> = Vec::new();
            on.push(observed);
            assert(relay_texts(on@) =~= seq![observed@]);
            let reply = Response {
                id: cmd.id,
                result: String::new(),
                error: "Not configured to receive a connection".to_owned(),
                recipient: sender.duplicate(),
                relays: on,
            };
            return Outcome { reply: Some(reply), invoke: None, session: None, error: None };
        },
    };
    let reply_relays = combine_relays(&waiting.relays, &observed);
    let v = judge(&cmd, waiting.connect_secret.as_str(), local_key);
    let (result, error) = verdict_texts(v);
    let session = match v {
        Verdict::Accept => Some(
            Nip46Server {
                peer_pubkey: sender.duplicate(),
                relays: crate::relay::duplicate_relays(&reply_relays),
                metadata: None,
            },
        ),
        _ => None,
    };
    let error_out = match v {
        Verdict::NoKey => Some(ErrorKind::NoPublicKey),
        _ => None,
    };
    let reply = Response {
        id: cmd.id,
        result,
        error,
        recipient: sender.duplicate(),
        relays: reply_relays,
    };
    Outcome { reply: Some(reply), invoke: None, session, error: error_out }
}

/// Handles one inbound message: decodes its decrypted content and decides what
/// it comes to. `plaintext` is `None` where the content could not be decrypted.
pub fn handle_command(
    sender: &PublicKey,
    seen_on: Option<RelayUrl>,
    session: Option<&Nip46Server>,
    plaintext: Option<&[u8]>,
    pending: Option<&Nip46UnconnectedServer>,
    local_key: Option<&PublicKey>,
) -> (out: Outcome)
    ensures
        outcome_fits(
            sender@,
            relay_view(seen_on),
            session_view(session),
            command_of_message(plaintext),
            pending_view(pending),
            key_view(local_key),
            out@,
        ),
{
    let command = match plaintext {
        Some(bytes) => parse_command(bytes),
        None => Err(ErrorKind::Undecryptable),
    };
    respond(sender, seen_on, session, command, pending, local_key)
}

} // verus!
