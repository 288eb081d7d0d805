//! Relay URLs in canonical form, and the ordered relay set of a session.
use vstd::prelude::*;
use crate::error::{ErrorKind, ErrorModel};
use crate::text::{
    rank_text, text_lt, text_lt_asymmetric, text_lt_irreflexive, text_lt_transitive, Rank,
};

verus! {

/// The canonical form of the relay URL that `text` denotes, if it denotes one.
pub uninterp spec fn canonical_relay_url(text: Seq<char>) -> Option<Seq<char>>;

/// A relay URL. `url` is its canonical text.
#[derive(Clone, Debug)]
pub struct RelayUrl {
    pub url: String,
}

impl View for RelayUrl {
    type V = Seq<char>;

    open spec fn view(&self) -> Seq<char> {
        self.url@
    }
}

/// The texts of a list of relays, in order.
pub open spec fn relay_texts(relays: Seq<RelayUrl>) -> Seq<Seq<char>> {
    Seq::new(relays.len(), |i: int| relays[i]@)
}

/// Each text stands before its successor in code-point order. With the order's
/// transitivity this is a sorted list without repeats.
pub open spec fn strictly_ascending(texts: Seq<Seq<char>>) -> bool {
    forall|i: int, j: int|
        0 <= i && j == i + 1 && j < texts.len() ==> text_lt(#[trigger] texts[i], #[trigger] texts[j])
}

/// In an ascending list every text stands before every later one, so none
/// occurs twice.
pub proof fn ascending_orders_all(texts: Seq<Seq<char>>, i: int, j: int)
    requires
        strictly_ascending(texts),
        0 <= i < j < texts.len(),
    ensures
        text_lt(texts[i], texts[j]),
        texts[i] != texts[j],
    decreases j - i,
{
    if i + 1 < j {
        ascending_orders_all(texts, i, j - 1);
        assert(text_lt(texts[j - 1], texts[j]));
        text_lt_transitive(texts[i], texts[j - 1], texts[j]);
    } else {
        assert(text_lt(texts[i], texts[i + 1]));
    }
    text_lt_irreflexive(texts[i]);
}

/// What follows the first text of an ascending list is ascending and holds
/// the list's other members.
proof fn lemma_ascending_rest(a: Seq<Seq<char>>)
    requires
        strictly_ascending(a),
        a.len() > 0,
    ensures
        strictly_ascending(a.drop_first()),
        forall|t: Seq<char>| a.drop_first().contains(t) <==> (a.contains(t) && t != a[0]),
{
    let x = a.drop_first();
    assert forall|k: int, m: int| 0 <= k && m == k + 1 && m < x.len() implies text_lt(
        #[trigger] x[k],
        #[trigger] x[m],
    ) by {
        assert(text_lt(a[k + 1], a[m + 1]));
    }
    assert forall|t: Seq<char>| x.contains(t) <==> (a.contains(t) && t != a[0]) by {
        if x.contains(t) {
            let k = choose|k: int| 0 <= k < x.len() && x[k] == t;
            assert(a[k + 1] == t);
            ascending_orders_all(a, 0, k + 1);
        }
        if a.contains(t) && t != a[0] {
            let k = choose|k: int| 0 <= k < a.len() && a[k] == t;
            assert(x[k - 1] == t);
        }
    }
}

/// An ascending list is determined by its members.
pub proof fn ascending_is_unique(a: Seq<Seq<char>>, b: Seq<Seq<char>>)
    requires
        strictly_ascending(a),
        strictly_ascending(b),
        forall|t: Seq<char>| a.contains(t) <==> b.contains(t),
    ensures
        a == b,
    decreases a.len(),
{
    if a.len() == 0 {
        if b.len() > 0 {
            assert(b.contains(b[0]));
            assert(a.contains(b[0]));
        }
        assert(a =~= b);
    } else {
        assert(a.contains(a[0]));
        assert(b.contains(a[0]));
        let j = choose|j: int| 0 <= j < b.len() && b[j] == a[0];
        assert(b.contains(b[0]));
        assert(a.contains(b[0]));
        let i = choose|i: int| 0 <= i < a.len() && a[i] == b[0];
        if j > 0 {
            ascending_orders_all(b, 0, j);
            if i > 0 {
                ascending_orders_all(a, 0, i);
                text_lt_asymmetric(a[0], b[0]);
            } else {
                text_lt_irreflexive(a[0]);
            }
        }
        assert(a[0] == b[0]);
        lemma_ascending_rest(a);
        lemma_ascending_rest(b);
        assert forall|t: Seq<char>| a.drop_first().contains(t) <==> b.drop_first().contains(
            t,
        ) by {
            assert(a.drop_first().contains(t) <==> (a.contains(t) && t != a[0]));
            assert(b.drop_first().contains(t) <==> (b.contains(t) && t != b[0]));
        }
        ascending_is_unique(a.drop_first(), b.drop_first());
        assert(a =~= seq![a[0]] + a.drop_first());
        assert(b =~= seq![b[0]] + b.drop_first());
    }
}

/// Calls `nostr_types::RelayUrl::try_from_str` and takes the text out of the URL
/// it gives. Trusted: the answer is `canonical_relay_url` of the text, and the
/// call fails exactly where that is `None`.
#[verifier::external_body]
fn decode_relay(text: &str) -> (r: Result<String, nostr_types::Error>)
    ensures
        r matches Ok(url) ==> canonical_relay_url(text@) == Some(url@),
        r is Err ==> canonical_relay_url(text@) is None,
{
    let relay = nostr_types::RelayUrl::try_from_str(text)?;
    Ok(relay.0)
}

impl RelayUrl {
    /// The relay URL that `text` denotes, or `InvalidRelayUrl`.
    pub fn try_from_str(text: &str) -> (r: Result<RelayUrl, ErrorKind>)
        ensures
            match r {
                Ok(relay) => canonical_relay_url(text@) == Some(relay@),
                Err(e) => canonical_relay_url(text@) is None && e@ == ErrorModel::InvalidRelayUrl,
            },
    {
        match decode_relay(text) {
            Ok(url) => Ok(RelayUrl { url }),
            Err(_) => Err(ErrorKind::InvalidRelayUrl),
        }
    }

    /// The URL's text.
    pub fn as_str(&self) -> (r: &str)
        ensures
            r@ == self@,
    {
        self.url.as_str()
    }

    /// A copy of the URL.
    pub fn duplicate(&self) -> (r: RelayUrl)
        ensures
            r@ == self@,
    {
        RelayUrl { url: self.url.clone() }
    }
}

/// A copy of a list of relays.
pub fn duplicate_relays(relays: &Vec<RelayUrl>) -> (r: Vec<RelayUrl>)
    ensures
        relay_texts(r@) == relay_texts(relays@),
{
    let mut out: Vec<RelayUrl> = Vec::new();
    let mut i: usize = 0;
    while i < relays.len()
        invariant
            i <= relays.len(),
            out.len() == i,
            forall|j: int| 0 <= j < i ==> out[j]@ == relays[j]@,
        decreases relays.len() - i,
    {
        out.push(relays[i].duplicate());
        i = i + 1;
    }
    assert(relay_texts(out@) =~= relay_texts(relays@));
    out
}

/// Puts `relay` in its place in an ascending list, unless the list holds it.
pub fn insert_relay(relays: &mut Vec<RelayUrl>, relay: RelayUrl)
    requires
        strictly_ascending(relay_texts(old(relays)@)),
    ensures
        strictly_ascending(relay_texts(final(relays)@)),
        forall|t: Seq<char>|
            relay_texts(final(relays)@).contains(t) <==> (relay_texts(old(relays)@).contains(t)
                || t == relay@),
{
    let ghost before = relay_texts(relays@);
    let mut i: usize = 0;
    while i < relays.len()
        invariant
            i <= relays.len(),
            relay_texts(relays@) == before,
            before == relay_texts(old(relays)@),
            strictly_ascending(before),
            forall|j: int| 0 <= j < i ==> text_lt(#[trigger] before[j], relay@),
        decreases relays.len() - i,
    {
        assert(before[i as int] == relays[i as int]@);
        match rank_text(relays[i].as_str(), relay.as_str()) {
            Rank::Before => {
                i = i + 1;
            },
            Rank::Same => {
                assert(before.contains(relay@));
                return ;
            },
            Rank::After => {
                let ghost at = i as int;
                let ghost x = relay@;
                relays.insert(i, relay);
                proof {
                    let after = relay_texts(relays@);
                    assert(after =~= before.insert(at, x));
                    assert forall|k: int, m: int|
                        0 <= k && m == k + 1 && m < after.len() implies text_lt(
                        #[trigger] after[k],
                        #[trigger] after[m],
                    ) by {
                        if k + 1 < at {
                            assert(text_lt(before[k], before[k + 1]));
                        } else if k + 1 == at {
                            assert(text_lt(before[k], x));
                        } else if k == at {
                        } else {
                            assert(text_lt(before[k - 1], before[k]));
                        }
                    }
                    assert forall|t: Seq<char>| after.contains(t) <==> (before.contains(t) || t
                        == x) by {
                        if after.contains(t) {
                            let k = choose|k: int| 0 <= k < after.len() && after[k] == t;
                            if k < at {
                                assert(before[k] == t);
                            } else if k > at {
                                assert(before[k - 1] == t);
                            }
                        }
                        if before.contains(t) {
                            let k = choose|k: int| 0 <= k < before.len() && before[k] == t;
                            if k < at {
                                assert(after[k] == t);
                            } else {
                                assert(after[k + 1] == t);
                            }
                        }
                        if t == x {
                            assert(after[at] == t);
                        }
                    }
                }
                return ;
            },
        }
    }
    let ghost x = relay@;
    relays.push(relay);
    proof {
        let after = relay_texts(relays@);
        assert(after =~= before.push(x));
        assert forall|k: int, m: int| 0 <= k && m == k + 1 && m < after.len() implies text_lt(
            #[trigger] after[k],
            #[trigger] after[m],
        ) by {
            if k + 1 < before.len() {
                assert(text_lt(before[k], before[k + 1]));
            } else {
                assert(text_lt(before[k], x));
            }
        }
        assert forall|t: Seq<char>| after.contains(t) <==> (before.contains(t) || t == x) by {
            if after.contains(t) {
                let k = choose|k: int| 0 <= k < after.len() && after[k] == t;
                if k < before.len() {
                    assert(before[k] == t);
                }
            }
            if before.contains(t) {
                let k = choose|k: int| 0 <= k < before.len() && before[k] == t;
                assert(after[k] == t);
            }
            if t == x {
                assert(after[before.len() as int] == t);
            }
        }
    }
}

/// The relays on which a pairing is answered and which the session keeps: the
/// configured relays and the one the message was seen on, ascending, each once.
pub fn combine_relays(configured: &Vec<RelayUrl>, observed: &RelayUrl) -> (r: Vec<RelayUrl>)
    ensures
        strictly_ascending(relay_texts(r@)),
        forall|t: Seq<char>|
            relay_texts(r@).contains(t) <==> (relay_texts(configured@).contains(t) || t
                == observed@),
{
    let mut out: Vec<RelayUrl> = Vec::new();
    insert_relay(&mut out, observed.duplicate());
    let mut i: usize = 0;
    while i < configured.len()
        invariant
            i <= configured.len(),
            strictly_ascending(relay_texts(out@)),
            forall|t: Seq<char>|
                relay_texts(out@).contains(t) <==> (relay_texts(configured@.take(i as int)).contains(t) || t
                    == observed@),
        decreases configured.len() - i,
    {
        let ghost prev = relay_texts(out@);
        insert_relay(&mut out, configured[i].duplicate());
        proof {
            let a = relay_texts(configured@.take(i as int));
            let b = relay_texts(configured@.take(i + 1));
            assert(b =~= a.push(configured[i as int]@));
            assert forall|t: Seq<char>| b.contains(t) <==> (a.contains(t) || t == configured[i as int]@) by {
                if b.contains(t) {
                    let k = choose|k: int| 0 <= k < b.len() && b[k] == t;
                    if k < a.len() {
                        assert(a[k] == t);
                    }
                }
                if a.contains(t) {
                    let k = choose|k: int| 0 <= k < a.len() && a[k] == t;
                    assert(b[k] == t);
                }
                if t == configured[i as int]@ {
                    assert(b[a.len() as int] == t);
                }
            }
        }
        i = i + 1;
    }
    assert(configured@.take(i as int) =~= configured@);
    out
}

} // verus!
