//! Fixed-length slot sequences: a slot is empty (`None`) or holds one
//! participant. Positions never move; removal leaves a hole.
use vstd::prelude::*;

verus! {

/// Opaque identity of a stored record (a participant or a practice).
#[derive(Clone, Copy, Debug, PartialEq, Eq, Structural, Hash)]
pub struct RecordId(pub u128);

/// Number of hexadecimal digits in the text form of a record id.
pub const ID_HEX_DIGITS: usize = 24;

pub open spec fn hex_alphabet() -> Seq<char> {
    "0123456789abcdef"@
}

/// The last `n` hexadecimal digits of `v`, most significant first, in lower case.
pub open spec fn hex_digits(v: nat, n: nat) -> Seq<char>
    decreases n,
{
    if n == 0 {
        Seq::empty()
    } else {
        hex_digits(v / 16, (n - 1) as nat).push(hex_alphabet()[(v % 16) as int])
    }
}

fn hex_text(v: u128, n: usize) -> (r: String)
    ensures
        r@ == hex_digits(v as nat, n as nat),
    decreases n,
{
    if n == 0 {
        String::new()
    } else {
        let mut s = hex_text(v / 16, n - 1);
        let d = (v % 16) as usize;
        proof {
            reveal_strlit("0123456789abcdef");
        }
        s.append("0123456789abcdef".substring_char(d, d + 1));
        proof {
            assert("0123456789abcdef"@.subrange(d as int, d as int + 1) =~= seq![hex_alphabet()[d as int]]);
        }
        s
    }
}

/// The text form of a record id: 24 lower-case hexadecimal digits.
pub open spec fn id_text(id: RecordId) -> Seq<char> {
    hex_digits(id.0 as nat, ID_HEX_DIGITS as nat)
}

impl RecordId {
    /// The id as 24 lower-case hexadecimal digits, the text form that stored
    /// ids take.
    pub fn to_hex(&self) -> (r: String)
        ensures
            r@ == id_text(*self),
    {
        hex_text(self.0, ID_HEX_DIGITS)
    }
}

/// What a slot search looks for.
#[derive(Clone, Copy, Debug, PartialEq, Eq, Structural)]
pub enum SlotQuery {
    Empty,
    Occupied,
    Holding(RecordId),
}

pub open spec fn slot_matches(slot: Option<RecordId>, q: SlotQuery) -> bool {
    match q {
        SlotQuery::Empty => slot is None,
        SlotQuery::Occupied => slot is Some,
        SlotQuery::Holding(id) => slot == Some(id),
    }
}

/// Index of the first slot at or after `k` that matches `q`, or `s.len()`
/// when there is none.
pub open spec fn first_match_from(s: Seq<Option<RecordId>>, k: int, q: SlotQuery) -> int
    decreases s.len() - k,
{
    if k < 0 || k >= s.len() {
        s.len() as int
    } else if slot_matches(s[k], q) {
        k
    } else {
        first_match_from(s, k + 1, q)
    }
}

/// Index of the first slot matching `q`, or `s.len()` when none does.
pub open spec fn first_match(s: Seq<Option<RecordId>>, q: SlotQuery) -> int {
    first_match_from(s, 0, q)
}

/// Number of occupied slots.
pub open spec fn occupied_count(s: Seq<Option<RecordId>>) -> nat
    decreases s.len(),
{
    if s.len() == 0 {
        0
    } else {
        occupied_count(s.drop_last()) + if s.last() is Some {
            1nat
        } else {
            0nat
        }
    }
}

/// The occupants of the slots, in slot order.
pub open spec fn occupants(s: Seq<Option<RecordId>>) -> Seq<RecordId>
    decreases s.len(),
{
    if s.len() == 0 {
        Seq::empty()
    } else if s.last() is Some {
        occupants(s.drop_last()).push(s.last()->0)
    } else {
        occupants(s.drop_last())
    }
}

/// A sequence of `n` empty slots.
pub open spec fn empty_slots(n: nat) -> Seq<Option<RecordId>> {
    Seq::new(n, |i: int| None)
}

/// Returns the index of the first slot that matches `q`, or the length of
/// `v` when no slot does.
pub fn find_first(v: &Vec<Option<RecordId>>, q: SlotQuery) -> (r: usize)
    ensures
        r as int == first_match(v@, q),
        r <= v.len(),
{
    let mut i: usize = 0;
    while i < v.len()
        invariant
            i <= v.len(),
            first_match(v@, q) == first_match_from(v@, i as int, q),
        decreases v.len() - i,
    {
        let hit = match q {
            SlotQuery::Empty => v[i].is_none(),
            SlotQuery::Occupied => v[i].is_some(),
            SlotQuery::Holding(id) => v[i] == Some(id),
        };
        if hit {
            return i;
        }
        i = i + 1;
    }
    i
}

/// `first_match_from` lands on a matching slot with no match before it, or
/// on the end when nothing at or after `k` matches.
pub proof fn lemma_first_match_from(s: Seq<Option<RecordId>>, k: int, q: SlotQuery)
    requires
        0 <= k <= s.len(),
    ensures
        k <= first_match_from(s, k, q) <= s.len(),
        first_match_from(s, k, q) < s.len() ==> slot_matches(s[first_match_from(s, k, q)], q),
        forall|j: int| k <= j < first_match_from(s, k, q) ==> !slot_matches(#[trigger] s[j], q),
    decreases s.len() - k,
{
    if k < s.len() && !slot_matches(s[k], q) {
        lemma_first_match_from(s, k + 1, q);
    }
}

/// `first_match` is the lowest matching index, or the length when no slot
/// matches.
pub proof fn lemma_first_match(s: Seq<Option<RecordId>>, q: SlotQuery)
    ensures
        0 <= first_match(s, q) <= s.len(),
        first_match(s, q) < s.len() ==> slot_matches(s[first_match(s, q)], q),
        forall|j: int| 0 <= j < first_match(s, q) ==> !slot_matches(#[trigger] s[j], q),
        first_match(s, q) == s.len() <==> forall|j: int|
            0 <= j < s.len() ==> !slot_matches(#[trigger] s[j], q),
{
    lemma_first_match_from(s, 0, q);
}

/// At most every slot is occupied; all of them are exactly when none is empty.
pub proof fn lemma_occupied_count_bound(s: Seq<Option<RecordId>>)
    ensures
        occupied_count(s) <= s.len(),
        occupied_count(s) == s.len() <==> forall|j: int| 0 <= j < s.len() ==> #[trigger] s[j] is Some,
    decreases s.len(),
{
    if s.len() > 0 {
        let t = s.drop_last();
        lemma_occupied_count_bound(t);
        if occupied_count(s) == s.len() {
            assert forall|j: int| 0 <= j < s.len() implies #[trigger] s[j] is Some by {
                if j < s.len() - 1 {
                    assert(t[j] == s[j]);
                }
            }
        }
        if forall|j: int| 0 <= j < s.len() ==> #[trigger] s[j] is Some {
            assert forall|j: int| 0 <= j < t.len() implies #[trigger] t[j] is Some by {
                assert(t[j] == s[j]);
            }
        }
    }
}

/// Rewriting one slot changes the count by what left and what arrived.
pub proof fn lemma_occupied_count_update(s: Seq<Option<RecordId>>, i: int, v: Option<RecordId>)
    requires
        0 <= i < s.len(),
    ensures
        occupied_count(s.update(i, v)) + (if s[i] is Some { 1int } else { 0int })
            == occupied_count(s) + (if v is Some { 1int } else { 0int }),
    decreases s.len(),
{
    let u = s.update(i, v);
    if i == s.len() - 1 {
        assert(u.drop_last() =~= s.drop_last());
    } else {
        assert(u.drop_last() =~= s.drop_last().update(i, v));
        lemma_occupied_count_update(s.drop_last(), i, v);
    }
}

/// Counts the occupied slots.
pub fn count_occupied(v: &Vec<Option<RecordId>>) -> (r: usize)
    ensures
        r == occupied_count(v@),
{
    let mut n: usize = 0;
    let mut i: usize = 0;
    while i < v.len()
        invariant
            i <= v.len(),
            n == occupied_count(v@.subrange(0, i as int)),
            n <= i,
        decreases v.len() - i,
    {
        assert(v@.subrange(0, i as int + 1).drop_last() =~= v@.subrange(0, i as int));
        if v[i].is_some() {
            n = n + 1;
        }
        i = i + 1;
    }
    assert(v@.subrange(0, i as int) =~= v@);
    n
}

/// Collects the occupants of the slots, in slot order.
pub fn collect_occupants(v: &Vec<Option<RecordId>>) -> (r: Vec<RecordId>)
    ensures
        r@ == occupants(v@),
{
    let mut out: Vec<RecordId> = Vec::new();
    let mut i: usize = 0;
    while i < v.len()
        invariant
            i <= v.len(),
            out@ == occupants(v@.subrange(0, i as int)),
        decreases v.len() - i,
    {
        assert(v@.subrange(0, i as int + 1).drop_last() =~= v@.subrange(0, i as int));
        match v[i] {
            Some(id) => out.push(id),
            None => {},
        }
        i = i + 1;
    }
    assert(v@.subrange(0, i as int) =~= v@);
    out
}

/// Makes `n` empty slots.
pub fn new_slots(n: usize) -> (r: Vec<Option<RecordId>>)
    ensures
        r@ == empty_slots(n as nat),
{
    let mut out: Vec<Option<RecordId>> = Vec::new();
    let mut i: usize = 0;
    while i < n
        invariant
            i <= n,
            out@ == empty_slots(i as nat),
        decreases n - i,
    {
        out.push(None);
        i = i + 1;
    }
    out
}

} // verus!
