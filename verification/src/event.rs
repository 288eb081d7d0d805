//! The unsigned event that `sign_event` builds from a peer's descriptor.
use vstd::prelude::*;
use crate::key::PublicKey;
use crate::server::Nip46Server;

verus! {

/// A peer's descriptor of the event it wants signed.
#[derive(Clone, Debug)]
pub struct Nip46PreEvent {
    /// The key the peer expects to sign, if it names one.
    pub pubkey: Option<PublicKey>,
    /// The event's time in seconds since the epoch, if the peer sets one.
    pub created_at: Option<i64>,
    pub kind: u64,
    pub tags: Vec<Vec<String>>,
    pub content: String,
}

/// An event that is ready to be signed by the key in `pubkey`.
#[derive(Clone, Debug)]
pub struct PreEvent {
    pub pubkey: PublicKey,
    pub created_at: i64,
    pub kind: u64,
    pub tags: Vec<Vec<String>>,
    pub content: String,
}

/// The time of the event: the descriptor's, or else the current time.
pub open spec fn event_time(created_at: Option<i64>, now: i64) -> i64 {
    match created_at {
        Some(t) => t,
        None => now,
    }
}

/// Whether a descriptor names a key other than `local_key`.
pub open spec fn names_other_key(descriptor: Nip46PreEvent, local_key: Seq<char>) -> bool {
    descriptor.pubkey matches Some(named) && named@ != local_key
}

impl Nip46Server {
    /// `sign_event`: the event to hand to the signer. A descriptor that names
    /// another key than the local one is refused, and only such a one: no event
    /// comes back, so nothing reaches the signer.
    pub fn sign_event(descriptor: Nip46PreEvent, local_key: &PublicKey, now: i64) -> (r: Result<
        PreEvent,
        String,
    >)
        ensures
            match r {
                Ok(event) => {
                    &&& !names_other_key(descriptor, local_key@)
                    &&& event.pubkey@ == local_key@
                    &&& event.created_at == event_time(descriptor.created_at, now)
                    &&& event.kind == descriptor.kind
                    &&& event.tags == descriptor.tags
                    &&& event.content == descriptor.content
                },
                Err(why) => names_other_key(descriptor, local_key@) && why@
                    == "sign_event: pubkey mismatch"@,
            },
    {
        let Nip46PreEvent { pubkey, created_at, kind, tags, content } = descriptor;
        if let Some(named) = pubkey {
            if !named.same(local_key) {
                return Err("sign_event: pubkey mismatch".to_owned());
            }
        }
        let at: i64 = match created_at {
            Some(t) => t,
            None => now,
        };
        Ok(PreEvent { pubkey: local_key.duplicate(), created_at: at, kind, tags, content })
    }
}

} // verus!
