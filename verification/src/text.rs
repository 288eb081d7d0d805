//! Text helpers: code-point order and prefix scanning over `Seq<char>`.
use vstd::prelude::*;
use vstd::string::*;

verus! {

/// `a` and `b` agree on their first `k` characters, and at position `k` either
/// `a` has ended while `b` goes on, or `a` holds the smaller character.
pub open spec fn diverge_at(a: Seq<char>, b: Seq<char>, k: int) -> bool {
    &&& 0 <= k <= a.len()
    &&& k < b.len()
    &&& a.subrange(0, k) == b.subrange(0, k)
    &&& (k < a.len() ==> (a[k] as u32) < (b[k] as u32))
}

/// Lexicographic order by code point: the order of `String` in std.
pub open spec fn text_lt(a: Seq<char>, b: Seq<char>) -> bool {
    exists|k: int| diverge_at(a, b, k)
}

/// Where one text stands relative to another.
#[derive(Clone, Copy, Debug, PartialEq, Eq, Structural)]
pub enum Rank {
    Before,
    Same,
    After,
}

/// Where `a` stands relative to `b`.
pub open spec fn rank_of(a: Seq<char>, b: Seq<char>) -> Rank {
    if a == b {
        Rank::Same
    } else if text_lt(a, b) {
        Rank::Before
    } else {
        Rank::After
    }
}

/// No text stands before itself.
pub proof fn text_lt_irreflexive(a: Seq<char>)
    ensures
        !text_lt(a, a),
{
    assert forall|k: int| !diverge_at(a, a, k) by {}
}

/// Of two texts at most one stands before the other.
pub proof fn text_lt_asymmetric(a: Seq<char>, b: Seq<char>)
    requires
        text_lt(a, b),
    ensures
        !text_lt(b, a),
{
    let k = choose|k: int| diverge_at(a, b, k);
    if text_lt(b, a) {
        let j = choose|j: int| diverge_at(b, a, j);
        if k < j {
            assert(b.subrange(0, j)[k] == a.subrange(0, j)[k]);
        } else if j < k {
            assert(a.subrange(0, k)[j] == b.subrange(0, k)[j]);
        }
    }
}

/// The order is transitive.
pub proof fn text_lt_transitive(a: Seq<char>, b: Seq<char>, c: Seq<char>)
    requires
        text_lt(a, b),
        text_lt(b, c),
    ensures
        text_lt(a, c),
{
    let k = choose|k: int| diverge_at(a, b, k);
    let j = choose|j: int| diverge_at(b, c, j);
    let m = if k <= j { k } else { j };
    assert(a.subrange(0, m) =~= c.subrange(0, m)) by {
        assert forall|i: int| 0 <= i < m implies a[i] == c[i] by {
            assert(a.subrange(0, k)[i] == b.subrange(0, k)[i]);
            assert(b.subrange(0, j)[i] == c.subrange(0, j)[i]);
        }
    }
    if k < j {
        assert(b.subrange(0, j)[k] == c.subrange(0, j)[k]);
    } else if j < k {
        assert(a.subrange(0, k)[j] == b.subrange(0, k)[j]);
    }
    assert(diverge_at(a, c, m));
}

/// What a scan of two texts has found.
spec fn scan_fits(r: Rank, a: Seq<char>, b: Seq<char>) -> bool {
    match r {
        Rank::Before => text_lt(a, b),
        Rank::Same => a == b,
        Rank::After => text_lt(b, a),
    }
}

/// Compares two texts by code point.
pub fn rank_text(a: &str, b: &str) -> (r: Rank)
    ensures
        r == rank_of(a@, b@),
        r == Rank::After ==> text_lt(b@, a@),
{
    let r = scan(a, b);
    proof {
        text_lt_irreflexive(a@);
        if text_lt(b@, a@) {
            text_lt_asymmetric(b@, a@);
        }
    }
    r
}

/// Walks two texts to the first place where they differ.
fn scan(a: &str, b: &str) -> (r: Rank)
    ensures
        scan_fits(r, a@, b@),
{
    let la: usize = a.unicode_len();
    let lb: usize = b.unicode_len();
    let mut i: usize = 0;
    while i < la && i < lb
        invariant
            la == a@.len(),
            lb == b@.len(),
            i <= la,
            i <= lb,
            a@.subrange(0, i as int) == b@.subrange(0, i as int),
        decreases la - i,
    {
        let ca: char = a.get_char(i);
        let cb: char = b.get_char(i);
        let ua: u32 = ca as u32;
        let ub: u32 = cb as u32;
        if ua < ub {
            assert(diverge_at(a@, b@, i as int));
            return Rank::Before;
        }
        if ub < ua {
            assert(diverge_at(b@, a@, i as int));
            return Rank::After;
        }
        assert(ca == cb);
        assert(a@.subrange(0, i + 1) =~= a@.subrange(0, i as int).push(ca));
        assert(b@.subrange(0, i + 1) =~= b@.subrange(0, i as int).push(cb));
        i = i + 1;
    }
    if la < lb {
        assert(diverge_at(a@, b@, i as int));
        Rank::Before
    } else if lb < la {
        assert(diverge_at(b@, a@, i as int));
        Rank::After
    } else {
        assert(a@ =~= a@.subrange(0, i as int));
        assert(b@ =~= b@.subrange(0, i as int));
        Rank::Same
    }
}

/// Whether two texts are the same.
pub fn same_text(a: &str, b: &str) -> (r: bool)
    ensures
        r == (a@ == b@),
{
    let la: usize = a.unicode_len();
    let lb: usize = b.unicode_len();
    if la != lb {
        return false;
    }
    let mut i: usize = 0;
    while i < la
        invariant
            la == a@.len(),
            lb == b@.len(),
            la == lb,
            i <= la,
            a@.subrange(0, i as int) == b@.subrange(0, i as int),
        decreases la - i,
    {
        if a.get_char(i) != b.get_char(i) {
            return false;
        }
        assert(a@.subrange(0, i + 1) =~= a@.subrange(0, i as int).push(a@[i as int]));
        assert(b@.subrange(0, i + 1) =~= b@.subrange(0, i as int).push(b@[i as int]));
        i = i + 1;
    }
    assert(a@ =~= a@.subrange(0, i as int));
    assert(b@ =~= b@.subrange(0, i as int));
    true
}

/// `s` begins with `p`.
pub open spec fn has_prefix(s: Seq<char>, p: Seq<char>) -> bool {
    p.len() <= s.len() && s.subrange(0, p.len() as int) == p
}

/// The first position at or after `from` where `s` holds `c`; the length of
/// `s` where it holds none.
pub open spec fn first_at(s: Seq<char>, c: char, from: int) -> int
    decreases s.len() - from,
{
    if from < 0 || from >= s.len() {
        s.len() as int
    } else if s[from] == c {
        from
    } else {
        first_at(s, c, from + 1)
    }
}

/// Whether what `s` holds from `pos` on begins with `p`.
pub fn begins_at(s: &str, pos: usize, p: &str) -> (r: bool)
    ensures
        r == (pos <= s@.len() && has_prefix(s@.subrange(pos as int, s@.len() as int), p@)),
{
    let len: usize = s.unicode_len();
    let n: usize = p.unicode_len();
    if pos > len || len - pos < n {
        return false;
    }
    let part: &str = s.substring_char(pos, pos + n);
    assert(part@ =~= s@.subrange(pos as int, len as int).subrange(0, n as int));
    same_text(part, p)
}

/// Finds the first `c` at or after `from`; the length of `s` in characters
/// where there is none.
pub fn find_from(s: &str, c: char, from: usize) -> (r: usize)
    ensures
        r == first_at(s@, c, from as int),
        r <= s@.len(),
        from <= s@.len() ==> from <= r,
{
    let len: usize = s.unicode_len();
    if from >= len {
        return len;
    }
    let mut i: usize = from;
    while i < len
        invariant
            len == s@.len(),
            from <= i <= len,
            first_at(s@, c, from as int) == first_at(s@, c, i as int),
        decreases len - i,
    {
        if s.get_char(i) == c {
            return i;
        }
        i = i + 1;
    }
    i
}

} // verus!
