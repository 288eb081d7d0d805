//! What holds of the engine as a whole, stated over the models of its parts.
use vstd::prelude::*;
use crate::command::CommandModel;
use crate::error::ErrorModel;
use crate::json::array_text;
use crate::pairing::{
    is_merge, outcome_fits, token_text, verdict, OutcomeModel, PendingModel, Verdict,
};
use crate::relay::ascending_is_unique;
use crate::server::{dispatch, failure, success, MetadataModel, SessionModel, StepModel};
use crate::uri::{lemma_query, plain_relay, query_from};

verus! {

/// What the store holds: the pending pairing, if any, and the sessions by peer.
pub struct StoreModel {
    pub pending: Option<PendingModel>,
    pub sessions: Map<Seq<char>, SessionModel>,
}

/// The session that the store holds for a peer.
pub open spec fn lookup(store: StoreModel, peer: Seq<char>) -> Option<SessionModel> {
    if store.sessions.dom().contains(peer) {
        Some(store.sessions[peer])
    } else {
        None
    }
}

/// The store after the host has persisted an outcome: a new session is written
/// and the pending pairing deleted together, and nothing else changes.
pub open spec fn commit(store: StoreModel, out: OutcomeModel) -> StoreModel {
    match out.session {
        Some(s) => StoreModel { pending: None, sessions: store.sessions.insert(s.peer, s) },
        None => store,
    }
}

/// Whether `out` is the outcome owed to a message, given the store.
pub open spec fn handled(
    store: StoreModel,
    sender: Seq<char>,
    seen_on: Option<Seq<char>>,
    command: Result<CommandModel, ErrorModel>,
    local_key: Option<Seq<char>>,
    out: OutcomeModel,
) -> bool {
    outcome_fits(sender, seen_on, lookup(store, sender), command, store.pending, local_key, out)
}

/// A decodable command from a peer without a session, while no pairing is
/// pending, is answered once, on the relay it was seen on, that no connection is
/// expected; nothing is stored and nothing is asked of the identity.
pub proof fn unexpected_peer_is_told(
    sender: Seq<char>,
    observed: Seq<char>,
    cmd: CommandModel,
    local_key: Option<Seq<char>>,
    out: OutcomeModel,
)
    requires
        outcome_fits(sender, Some(observed), None, Ok(cmd), None, local_key, out),
    ensures
        out.reply == Some(
            failure(cmd.id, "Not configured to receive a connection"@, sender, seq![observed]),
        ),
        out.session is None,
        out.invoke is None,
        out.error is None,
{
}

/// A `connect` that names the local key and presents the pending secret pairs
/// its sender: the session is the sender's, its relays are the configured ones
/// and the observed one, ascending and each once, and `ack` goes out on those
/// relays. Committing the outcome deletes the pending pairing.
pub proof fn correct_connect_pairs(
    store: StoreModel,
    sender: Seq<char>,
    observed: Seq<char>,
    cmd: CommandModel,
    pending: PendingModel,
    key: Seq<char>,
    out: OutcomeModel,
)
    requires
        store.pending == Some(pending),
        lookup(store, sender) is None,
        cmd.method == "connect"@,
        cmd.params == seq![key, pending.secret],
        handled(store, sender, Some(observed), Ok(cmd), Some(key), out),
    ensures
        out.session matches Some(session) && out.reply matches Some(reply) && {
            &&& session.peer == sender
            &&& session.metadata is None
            &&& is_merge(session.relays, pending.relays, observed)
            &&& reply == success(cmd.id, "ack"@, sender, session.relays)
        },
        out.error is None,
        out.invoke is None,
        commit(store, out).pending is None,
        lookup(commit(store, out), sender) == out.session,
{
    assert(cmd.params.len() == 2);
    assert(cmd.params[0] == key);
    assert(cmd.params[1] == pending.secret);
    assert(verdict(cmd, pending.secret, Some(key)) == Verdict::Accept);
}

/// A command that presents another secret than the pending one creates no
/// session and leaves the store as it was; the peer is told.
pub proof fn wrong_secret_changes_nothing(
    store: StoreModel,
    sender: Seq<char>,
    seen_on: Option<Seq<char>>,
    cmd: CommandModel,
    pending: PendingModel,
    local_key: Option<Seq<char>>,
    out: OutcomeModel,
)
    requires
        store.pending == Some(pending),
        lookup(store, sender) is None,
        cmd.params.len() == 2 ==> cmd.params[1] != pending.secret,
        handled(store, sender, seen_on, Ok(cmd), local_key, out),
    ensures
        out.session is None,
        commit(store, out) == store,
        seen_on is Some ==> (out.reply matches Some(reply) && reply.result.len() == 0
            && reply.id == cmd.id),
{
    assert(verdict(cmd, pending.secret, local_key) != Verdict::Accept);
}

/// A session is created only for the sender of a `connect` that named the local
/// key and presented the pending secret.
pub proof fn session_needs_the_secret(
    sender: Seq<char>,
    seen_on: Option<Seq<char>>,
    session: Option<SessionModel>,
    command: Result<CommandModel, ErrorModel>,
    pending: Option<PendingModel>,
    local_key: Option<Seq<char>>,
    out: OutcomeModel,
)
    requires
        outcome_fits(sender, seen_on, session, command, pending, local_key, out),
        out.session is Some,
    ensures
        session is None,
        out.session.unwrap().peer == sender,
        command matches Ok(cmd) && pending matches Some(p) && local_key matches Some(key) && {
            &&& cmd.method == "connect"@
            &&& cmd.params == seq![key, p.secret]
        },
{
    let cmd = command->Ok_0;
    let p = pending->Some_0;
    assert(verdict(cmd, p.secret, local_key) == Verdict::Accept);
    assert(cmd.params =~= seq![local_key->Some_0, p.secret]);
}

/// `get_relays` is answered with the session's relays as a JSON array,
/// whatever its parameters, the local key, and the commands served before: the
/// answer is a function of the command and the session alone.
pub proof fn relays_are_the_sessions(
    cmd: CommandModel,
    session: SessionModel,
    local_key: Option<Seq<char>>,
)
    requires
        cmd.method == "get_relays"@,
    ensures
        dispatch(cmd, session, local_key) == StepModel::Reply(
            success(cmd.id, array_text(session.relays), session.peer, session.relays),
        ),
{
    reveal_strlit("get_relays");
    reveal_strlit("connect");
    reveal_strlit("get_public_key");
    reveal_strlit("sign_event");
    assert("get_relays"@.len() == 10 && "connect"@.len() == 7 && "get_public_key"@.len() == 14);
    assert("get_relays"@[0] == 'g' && "sign_event"@[0] == 's');
}

/// A message that cannot be decrypted is not answered, even to a paired peer:
/// no `id` is known. The fault goes to the caller and nothing is stored.
pub proof fn undecryptable_is_dropped(
    sender: Seq<char>,
    seen_on: Option<Seq<char>>,
    session: Option<SessionModel>,
    pending: Option<PendingModel>,
    local_key: Option<Seq<char>>,
    out: OutcomeModel,
)
    requires
        session is Some || seen_on is Some,
        outcome_fits(
            sender,
            seen_on,
            session,
            Err(ErrorModel::Undecryptable),
            pending,
            local_key,
            out,
        ),
    ensures
        out.reply is None,
        out.invoke is None,
        out.session is None,
        out.error == Some(ErrorModel::Undecryptable),
{
}

/// Of two messages handled one after the other, each against the store that
/// the one before left, at most one creates a session: the first pairing
/// deletes the pending context, and without one nobody is paired.
pub proof fn pairing_happens_once(
    store: StoreModel,
    first_sender: Seq<char>,
    first_seen_on: Option<Seq<char>>,
    first: Result<CommandModel, ErrorModel>,
    first_out: OutcomeModel,
    second_sender: Seq<char>,
    second_seen_on: Option<Seq<char>>,
    second: Result<CommandModel, ErrorModel>,
    second_out: OutcomeModel,
    local_key: Option<Seq<char>>,
)
    requires
        handled(store, first_sender, first_seen_on, first, local_key, first_out),
        handled(
            commit(store, first_out),
            second_sender,
            second_seen_on,
            second,
            local_key,
            second_out,
        ),
        first_out.session is Some,
    ensures
        second_out.session is None,
        commit(commit(store, first_out), second_out) == commit(store, first_out),
        commit(store, first_out).sessions == store.sessions.insert(
            first_sender,
            first_out.session.unwrap(),
        ),
{
    session_needs_the_secret(
        first_sender,
        first_seen_on,
        lookup(store, first_sender),
        first,
        store.pending,
        local_key,
        first_out,
    );
}

/// The relays of a pairing token read back: what follows the `?` of a token
/// is a query in the grammar of the pairing URI, and parses to the token's
/// relays in their order, with no metadata. The token as a whole is no pairing
/// URI: the two begin differently.
pub proof fn token_relays_read_back(bech32: Seq<char>, secret: Seq<char>, relays: Seq<Seq<char>>)
    requires
        relays.len() >= 1,
        forall|i: int| 0 <= i < relays.len() ==> plain_relay(#[trigger] relays[i]),
    ensures
        query_from(
            token_text(bech32, secret, relays),
            (bech32.len() + secret.len() + 2) as int,
            Seq::empty(),
        ) == Ok::<(Seq<Seq<char>>, Option<MetadataModel>), ErrorModel>((relays, None)),
{
    let token = token_text(bech32, secret, relays);
    let pos = (bech32.len() + secret.len() + 2) as int;
    assert(token.subrange(pos, token.len() as int) =~= crate::uri::segments(relays, None));
    lemma_query(token, pos, Seq::empty(), relays, None, None);
    assert(Seq::<Seq<char>>::empty() + relays =~= relays);
}

/// The relays of a pairing are determined: two lists that both hold the
/// configured relays and the observed one, ascending and each once, are equal.
pub proof fn merge_is_determined(
    first: Seq<Seq<char>>,
    second: Seq<Seq<char>>,
    configured: Seq<Seq<char>>,
    observed: Seq<char>,
)
    requires
        is_merge(first, configured, observed),
        is_merge(second, configured, observed),
    ensures
        first == second,
{
    ascending_is_unique(first, second);
}

/// The outcome of a message is determined by the message and what the store
/// holds: any two outcomes that are owed to the same inputs are equal.
pub proof fn outcome_is_determined(
    sender: Seq<char>,
    seen_on: Option<Seq<char>>,
    session: Option<SessionModel>,
    command: Result<CommandModel, ErrorModel>,
    pending: Option<PendingModel>,
    local_key: Option<Seq<char>>,
    first: OutcomeModel,
    second: OutcomeModel,
)
    requires
        outcome_fits(sender, seen_on, session, command, pending, local_key, first),
        outcome_fits(sender, seen_on, session, command, pending, local_key, second),
    ensures
        first == second,
{
    if session is None && seen_on is Some && command is Ok && pending is Some {
        merge_is_determined(
            first.reply->Some_0.relays,
            second.reply->Some_0.relays,
            pending->Some_0.relays,
            seen_on->Some_0,
        );
    }
}

/// Every message whose `id` could be read is answered exactly once, under
/// that `id`: either the engine answers at once, or it asks the identity for
/// what the answer needs. A peer without a session must have been seen on a
/// relay, or there is nowhere to answer.
pub proof fn identified_message_is_answered(
    sender: Seq<char>,
    seen_on: Option<Seq<char>>,
    session: Option<SessionModel>,
    command: Result<CommandModel, ErrorModel>,
    pending: Option<PendingModel>,
    local_key: Option<Seq<char>>,
    out: OutcomeModel,
    id: Seq<char>,
)
    requires
        outcome_fits(sender, seen_on, session, command, pending, local_key, out),
        session is Some || seen_on is Some,
        match command {
            Ok(cmd) => cmd.id == id,
            Err(ErrorModel::Nip46ParsingError(found, _)) => found == id,
            Err(_) => false,
        },
    ensures
        out.reply is Some != out.invoke is Some,
        out.reply matches Some(reply) ==> reply.id == id,
        out.invoke matches Some(request) ==> request.0 == id,
{
}

} // verus!
