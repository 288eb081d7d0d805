//! The pairing URI that a peer offers:
//! `nostrconnect://<64 hex characters>?relay=<url>&...&metadata=<json>`.
use vstd::prelude::*;
use vstd::string::*;
use crate::error::{ErrorKind, ErrorModel};
use crate::json::{json_of_text, member, parse_json_text, text, value_member, value_text};
use crate::key::{canonical_key_hex, PublicKey};
use crate::relay::{canonical_relay_url, relay_texts, RelayUrl};
use crate::server::{MetadataModel, Nip46ClientMetadata, Nip46Server, SessionModel};
use crate::text::{begins_at, find_from, first_at, has_prefix};

verus! {

/// The member of an object under `key`, where it is a string.
pub open spec fn member_text(v: serde_json::Value, key: Seq<char>) -> Option<Seq<char>> {
    match value_member(v, key) {
        Some(m) => value_text(m),
        None => None,
    }
}

/// The metadata that a document holds: the strings `name`, `url` and
/// `description`, the second a relay URL.
pub open spec fn metadata_of_value(v: serde_json::Value) -> Result<MetadataModel, ErrorModel> {
    match (member_text(v, "name"@), member_text(v, "url"@), member_text(v, "description"@)) {
        (Some(name), Some(address), Some(description)) => match canonical_relay_url(address) {
            Some(url) => Ok(MetadataModel { name, url, description }),
            None => Err(ErrorModel::InvalidRelayUrl),
        },
        _ => Err(ErrorModel::InvalidJson),
    }
}

/// The metadata that a text holds.
pub open spec fn metadata_of_text(t: Seq<char>) -> Result<MetadataModel, ErrorModel> {
    match json_of_text(t) {
        Some(v) => metadata_of_value(v),
        None => Err(ErrorModel::InvalidJson),
    }
}

/// What the query holds from `pos` on, after the relays read so far. A
/// `relay=` segment runs to the next `&` or to the end; `metadata=` takes all
/// that follows it; anything else is refused.
pub open spec fn query_from(s: Seq<char>, pos: int, relays: Seq<Seq<char>>) -> Result<
    (Seq<Seq<char>>, Option<MetadataModel>),
    ErrorModel,
>
    decreases s.len() - pos,
{
    if pos < 0 || pos > s.len() {
        Err(ErrorModel::BadNostrConnectString)
    } else if has_prefix(s.subrange(pos, s.len() as int), "relay="@) {
        let start = pos + "relay="@.len();
        let end = first_at(s, '&', start);
        match canonical_relay_url(s.subrange(start, end)) {
            None => Err(ErrorModel::InvalidRelayUrl),
            Some(url) => if start <= end < s.len() {
                query_from(s, end + 1, relays.push(url))
            } else {
                Ok((relays.push(url), None))
            },
        }
    } else if has_prefix(s.subrange(pos, s.len() as int), "metadata="@) {
        match metadata_of_text(s.subrange(pos + "metadata="@.len(), s.len() as int)) {
            Ok(m) => Ok((relays, Some(m))),
            Err(e) => Err(e),
        }
    } else {
        Err(ErrorModel::BadNostrConnectString)
    }
}

/// The pending peer that a pairing URI describes.
pub open spec fn peer_of_uri(s: Seq<char>) -> Result<SessionModel, ErrorModel> {
    let head = "nostrconnect://"@.len() as int;
    if !has_prefix(s, "nostrconnect://"@) || s.len() < head + 64 {
        Err(ErrorModel::BadNostrConnectString)
    } else {
        match canonical_key_hex(s.subrange(head, head + 64)) {
            None => Err(ErrorModel::InvalidPublicKey),
            Some(peer) => if s.len() < head + 65 || s[head + 64] != '?' {
                Err(ErrorModel::BadNostrConnectString)
            } else {
                match query_from(s, head + 65, Seq::empty()) {
                    Ok((relays, metadata)) => Ok(SessionModel { peer, relays, metadata }),
                    Err(e) => Err(e),
                }
            },
        }
    }
}

/// The view of a parsing result.
pub open spec fn peer_view(r: Result<Nip46Server, ErrorKind>) -> Result<SessionModel, ErrorModel> {
    match r {
        Ok(s) => Ok(s@),
        Err(e) => Err(e@),
    }
}

/// The member of an object under `key` as an owned string.
fn member_string(v: &serde_json::Value, key: &str) -> (r: Option<String>)
    ensures
        (match r {
            Some(s) => Some(s@),
            None => None,
        }) == member_text(*v, key@),
{
    match member(v, key) {
        Some(m) => match text(m) {
            Some(s) => Some(s.to_owned()),
            None => None,
        },
        None => None,
    }
}

/// Reads a peer's metadata out of a parsed document.
pub fn metadata_from_value(v: &serde_json::Value) -> (r: Result<Nip46ClientMetadata, ErrorKind>)
    ensures
        (match r {
            Ok(m) => Ok(m@),
            Err(e) => Err(e@),
        }) == metadata_of_value(*v),
{
    let name = member_string(v, "name");
    let address = member_string(v, "url");
    let description = member_string(v, "description");
    match (name, address, description) {
        (Some(name), Some(address), Some(description)) => {
            match RelayUrl::try_from_str(address.as_str()) {
                Ok(url) => Ok(Nip46ClientMetadata { name, url, description }),
                Err(e) => Err(e),
            }
        },
        _ => Err(ErrorKind::InvalidJson),
    }
}

impl Nip46Server {
    /// Parses the pairing URI of a peer into a pending peer record.
    pub fn new_from_client(input: String) -> (r: Result<Nip46Server, ErrorKind>)
        ensures
            peer_view(r) == peer_of_uri(input@),
    {
        let s: &str = input.as_str();
        let len: usize = s.unicode_len();
        if !begins_at(s, 0, "nostrconnect://") {
            assert(s@.subrange(0, len as int) =~= s@);
            return Err(ErrorKind::BadNostrConnectString);
        }
        assert(s@.subrange(0, len as int) =~= s@);
        let head: usize = "nostrconnect://".unicode_len();
        if len - head < 64 {
            return Err(ErrorKind::BadNostrConnectString);
        }
        let peer_pubkey = match PublicKey::try_from_hex_string(s.substring_char(head, head + 64)) {
            Ok(key) => key,
            Err(e) => {
                return Err(e);
            },
        };
        let mut pos: usize = head + 64;
        if len - pos < 1 {
            return Err(ErrorKind::BadNostrConnectString);
        }
        if s.get_char(pos) != '?' {
            return Err(ErrorKind::BadNostrConnectString);
        }
        pos = pos + 1;
        let mut relays: Vec<RelayUrl> = Vec::new();
        let relay_len: usize = "relay=".unicode_len();
        let metadata_len: usize = "metadata=".unicode_len();
        assert(relay_texts(relays@) =~= Seq::<Seq<char>>::empty());
        loop
            invariant
                s@ == input@,
                len == s@.len(),
                pos <= len,
                relay_len == "relay="@.len(),
                metadata_len == "metadata="@.len(),
                query_from(s@, head + 65, Seq::empty()) == query_from(
                    s@,
                    pos as int,
                    relay_texts(relays@),
                ),
                peer_of_uri(s@) == match query_from(s@, head + 65, Seq::empty()) {
                    Ok((found, metadata)) => Ok(
                        SessionModel { peer: peer_pubkey@, relays: found, metadata },
                    ),
                    Err(e) => Err::<SessionModel, ErrorModel>(e),
                },
            decreases len - pos,
        {
            let ghost sofar = relay_texts(relays@);
            if begins_at(s, pos, "relay=") {
                let start: usize = pos + relay_len;
                let end: usize = find_from(s, '&', start);
                let relay = match RelayUrl::try_from_str(s.substring_char(start, end)) {
                    Ok(relay) => relay,
                    Err(e) => {
                        return Err(e);
                    },
                };
                relays.push(relay);
                assert(relay_texts(relays@) =~= sofar.push(relay@));
                if end < len {
                    pos = end + 1;
                } else {
                    return Ok(Nip46Server { peer_pubkey, relays, metadata: None });
                }
            } else if begins_at(s, pos, "metadata=") {
                let document = match parse_json_text(s.substring_char(pos + metadata_len, len)) {
                    Ok(v) => v,
                    Err(_) => {
                        return Err(ErrorKind::InvalidJson);
                    },
                };
                return match metadata_from_value(&document) {
                    Ok(m) => Ok(Nip46Server { peer_pubkey, relays, metadata: Some(m) }),
                    Err(e) => Err(e),
                };
            } else {
                return Err(ErrorKind::BadNostrConnectString);
            }
        }
    }
}

/// The query of a pairing URI: a `relay=` segment for each relay, then the
/// `metadata=` segment where there is a document, joined by `&`.
pub open spec fn segments(relays: Seq<Seq<char>>, document: Option<Seq<char>>) -> Seq<char>
    decreases relays.len(),
{
    if relays.len() == 0 {
        match document {
            Some(json) => "metadata="@ + json,
            None => Seq::empty(),
        }
    } else if relays.len() == 1 && document is None {
        "relay="@ + relays[0]
    } else {
        "relay="@ + relays[0] + seq!['&'] + segments(relays.drop_first(), document)
    }
}

/// The pairing URI of a peer: its key in hexadecimal, its relays, and the JSON
/// document of its metadata, if any.
pub open spec fn uri_text(
    peer: Seq<char>,
    relays: Seq<Seq<char>>,
    document: Option<Seq<char>>,
) -> Seq<char> {
    "nostrconnect://"@ + peer + seq!['?'] + segments(relays, document)
}

/// A relay text that a URI can carry unchanged: canonical, and without `&`.
pub open spec fn plain_relay(relay: Seq<char>) -> bool {
    !relay.contains('&') && canonical_relay_url(relay) == Some(relay)
}

/// Adding a relay at the end of a query without metadata adds its segment at
/// the end of the text.
pub proof fn lemma_segments_push(relays: Seq<Seq<char>>, relay: Seq<char>)
    ensures
        segments(relays.push(relay), None) == if relays.len() == 0 {
            "relay="@ + relay
        } else {
            segments(relays, None) + seq!['&'] + "relay="@ + relay
        },
    decreases relays.len(),
{
    let longer = relays.push(relay);
    if relays.len() == 0 {
        assert(longer[0] == relay);
    } else {
        let shorter = relays.drop_first();
        assert(longer.drop_first() =~= shorter.push(relay));
        assert(longer[0] == relays[0]);
        lemma_segments_push(shorter, relay);
        if relays.len() == 1 {
            assert(shorter.len() == 0);
            assert(segments(longer, None) =~= segments(relays, None) + seq!['&'] + "relay="@
                + relay);
        } else {
            assert(segments(longer, None) =~= segments(relays, None) + seq!['&'] + "relay="@
                + relay);
        }
    }
}

proof fn lemma_first_at(s: Seq<char>, c: char, from: int, stop: int)
    requires
        0 <= from <= stop <= s.len(),
        forall|i: int| from <= i < stop ==> s[i] != c,
        stop == s.len() || s[stop] == c,
    ensures
        first_at(s, c, from) == stop,
    decreases stop - from,
{
    if from < stop {
        lemma_first_at(s, c, from + 1, stop);
    }
}

/// A query written by `segments` parses to what it was written from.
pub proof fn lemma_query(
    s: Seq<char>,
    pos: int,
    acc: Seq<Seq<char>>,
    rest: Seq<Seq<char>>,
    document: Option<Seq<char>>,
    metadata: Option<MetadataModel>,
)
    requires
        0 <= pos <= s.len(),
        s.subrange(pos, s.len() as int) == segments(rest, document),
        rest.len() >= 1 || document is Some,
        forall|i: int| 0 <= i < rest.len() ==> plain_relay(#[trigger] rest[i]),
        match document {
            Some(json) => metadata matches Some(m) && metadata_of_text(json) == Ok::<
                MetadataModel,
                ErrorModel,
            >(m),
            None => metadata is None,
        },
    ensures
        query_from(s, pos, acc) == Ok::<(Seq<Seq<char>>, Option<MetadataModel>), ErrorModel>(
            (acc + rest, metadata),
        ),
    decreases rest.len(),
{
    let tail = s.subrange(pos, s.len() as int);
    reveal_strlit("relay=");
    reveal_strlit("metadata=");
    if rest.len() == 0 {
        let json = document->Some_0;
        assert(tail == "metadata="@ + json);
        assert(tail[0] == 'm');
        if has_prefix(tail, "relay="@) {
            assert(tail.subrange(0, 6)[0] == 'r');
        }
        assert(tail.subrange(0, 9) =~= "metadata="@);
        assert(tail.len() == 9 + json.len());
        assert forall|k: int| 0 <= k < json.len() implies s[pos + 9 + k] == json[k] by {
            assert(s[pos + 9 + k] == tail[9 + k]);
        }
        assert(s.subrange(pos + 9, s.len() as int) =~= json);
        assert(acc + rest =~= acc);
    } else {
        let r = rest[0];
        let last = rest.len() == 1 && document is None;
        let start = pos + 6;
        let stop = start + r.len();
        assert(plain_relay(r));
        let more = segments(rest.drop_first(), document);
        if last {
            assert(tail == "relay="@ + r);
            assert(tail.len() == 6 + r.len());
        } else {
            assert(tail == "relay="@ + r + seq!['&'] + more);
            assert(tail.len() == 6 + r.len() + 1 + more.len());
            assert(tail[stop - pos] == '&');
            assert(s[stop] == tail[stop - pos]);
        }
        assert(tail.subrange(0, 6) =~= "relay="@);
        assert forall|i: int| start <= i < stop implies s[i] == r[i - start] && s[i] != '&' by {
            assert(s[i] == tail[i - pos]);
            assert(tail[i - pos] == r[i - start]);
            assert(r.contains(r[i - start]));
        }
        lemma_first_at(s, '&', start, stop);
        assert(s.subrange(start, stop) =~= r);
        if last {
            assert(acc.push(r) =~= acc + rest);
        } else {
            assert forall|k: int| 0 <= k < more.len() implies s[stop + 1 + k] == more[k] by {
                assert(s[stop + 1 + k] == tail[stop + 1 - pos + k]);
            }
            assert(s.subrange(stop + 1, s.len() as int) =~= more);
            lemma_query(s, stop + 1, acc.push(r), rest.drop_first(), document, metadata);
            assert(acc.push(r) + rest.drop_first() =~= acc + rest);
        }
    }
}

/// Parsing recovers what a pairing URI was written from: for a key in
/// canonical hexadecimal, relays that are canonical and hold no `&`, and a
/// document that reads as the metadata, the URI parses to that key, those
/// relays in their order, and that metadata. A URI with neither a relay nor
/// metadata is left out: the grammar refuses an empty query.
pub proof fn uri_round_trip(
    peer: Seq<char>,
    relays: Seq<Seq<char>>,
    document: Option<Seq<char>>,
    metadata: Option<MetadataModel>,
)
    requires
        peer.len() == 64,
        canonical_key_hex(peer) == Some(peer),
        relays.len() >= 1 || document is Some,
        forall|i: int| 0 <= i < relays.len() ==> plain_relay(#[trigger] relays[i]),
        match document {
            Some(json) => metadata matches Some(m) && metadata_of_text(json) == Ok::<
                MetadataModel,
                ErrorModel,
            >(m),
            None => metadata is None,
        },
    ensures
        peer_of_uri(uri_text(peer, relays, document)) == Ok::<SessionModel, ErrorModel>(
            SessionModel { peer, relays, metadata },
        ),
{
    let s = uri_text(peer, relays, document);
    let head = "nostrconnect://"@.len() as int;
    assert(s.subrange(0, head) =~= "nostrconnect://"@);
    assert(s.subrange(head, head + 64) =~= peer);
    assert(s[head + 64] == '?');
    assert(s.subrange(head + 65, s.len() as int) =~= segments(relays, document));
    lemma_query(s, head + 65, Seq::empty(), relays, document, metadata);
    assert(Seq::<Seq<char>>::empty() + relays =~= relays);
}

} // verus!
