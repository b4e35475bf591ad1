//! The per-session correlation table: outstanding message ids mapped to the
//! action that awaits a reply, plus the transaction id assigned by the CSMS.
//!
//! The table is owned by its session and touched only from that session's
//! task; the generator records an entry on every outbound Call and the
//! handler takes it back on the matching CallResult or CallError.

use vstd::prelude::*;
use crate::json::{dec_digit, dec_rep};
use crate::strutil::str_eq;

verus! {

/// Relies on `uuid::Uuid::new_v4` and its `Display` form: a random
/// version-4 UUID printed as the 36-character hyphenated string of
/// lowercase hexadecimal digits, so its first character is never `m`.
#[verifier::external_body]
fn uuid_v4_string() -> (r: String)
    ensures
        r@.len() == 36,
        r@[0] != 'm',
{
    uuid::Uuid::new_v4().to_string()
}

/// The decimal representation is never empty.
proof fn lemma_dec_rep_nonempty(n: int)
    requires
        n >= 0,
    ensures
        dec_rep(n).len() >= 1,
{
}

/// Distinct decimal digits print as distinct characters.
proof fn lemma_dec_digit_injective(a: int, b: int)
    requires
        0 <= a < 10,
        0 <= b < 10,
        dec_digit(a) == dec_digit(b),
    ensures
        a == b,
{
}

/// Decimal representations identify their numbers.
proof fn lemma_dec_rep_injective(a: int, b: int)
    requires
        a >= 0,
        b >= 0,
        dec_rep(a) == dec_rep(b),
    ensures
        a == b,
    decreases a + b,
{
    if a < 10 && b < 10 {
        assert(dec_rep(a) == seq![dec_digit(a)]);
        assert(dec_rep(b) == seq![dec_digit(b)]);
        assert(dec_rep(a)[0] == dec_digit(a));
        assert(dec_rep(b)[0] == dec_digit(b));
        lemma_dec_digit_injective(a, b);
    } else if a < 10 {
        lemma_dec_rep_nonempty(b / 10);
        assert(dec_rep(b).len() >= 2);
        assert(dec_rep(a).len() == 1);
    } else if b < 10 {
        lemma_dec_rep_nonempty(a / 10);
        assert(dec_rep(a).len() >= 2);
        assert(dec_rep(b).len() == 1);
    } else {
        let pa = dec_rep(a / 10);
        let pb = dec_rep(b / 10);
        assert(dec_rep(a) == pa + seq![dec_digit(a % 10)]);
        assert(dec_rep(b) == pb + seq![dec_digit(b % 10)]);
        assert(dec_rep(a).last() == dec_digit(a % 10));
        assert(dec_rep(b).last() == dec_digit(b % 10));
        lemma_dec_digit_injective(a % 10, b % 10);
        assert(a % 10 == b % 10);
        assert(pa =~= dec_rep(a).drop_last());
        assert(pb =~= dec_rep(b).drop_last());
        lemma_dec_rep_injective(a / 10, b / 10);
        assert(a == (a / 10) * 10 + a % 10);
        assert(b == (b / 10) * 10 + b % 10);
    }
}

/// The key used for a fallback message id: `m` followed by the counter.
pub open spec fn fallback_key(j: int) -> Seq<char> {
    seq!['m'] + dec_rep(j)
}

/// Fallback keys identify their counters.
proof fn lemma_fallback_key_injective(a: int, b: int)
    requires
        a >= 0,
        b >= 0,
        fallback_key(a) == fallback_key(b),
    ensures
        a == b,
{
    assert(dec_rep(a) =~= fallback_key(a).drop_first());
    assert(dec_rep(b) =~= fallback_key(b).drop_first());
    lemma_dec_rep_injective(a, b);
}

/// The map described by a list of `(msg_id, action)` entries.
pub open spec fn entries_map<A>(s: Seq<(String, A)>) -> Map<Seq<char>, A>
    decreases s.len(),
{
    if s.len() == 0 {
        Map::empty()
    } else {
        entries_map(s.drop_last()).insert(s.last().0@, s.last().1)
    }
}

/// No two entries carry the same message id.
pub open spec fn entries_unique<A>(s: Seq<(String, A)>) -> bool {
    forall|i: int, j: int| 0 <= i < j < s.len() ==> s[i].0@ != s[j].0@
}

/// With unique ids, the entry list and its map agree: each entry is in the
/// map, and everything in the map comes from an entry.
pub proof fn lemma_entries_map<A>(s: Seq<(String, A)>)
    requires
        entries_unique(s),
    ensures
        forall|i: int| 0 <= i < s.len() ==> entries_map(s).contains_key(#[trigger] s[i].0@),
        forall|i: int| 0 <= i < s.len() ==> entries_map(s)[#[trigger] s[i].0@] == s[i].1,
        forall|k: Seq<char>| entries_map(s).contains_key(k) ==> exists|i: int|
            0 <= i < s.len() && (#[trigger] s[i]).0@ == k,
    decreases s.len(),
{
    if s.len() > 0 {
        assert(entries_unique(s.drop_last()));
        lemma_entries_map(s.drop_last());
        assert(forall|i: int| 0 <= i < s.len() - 1 ==> s.drop_last()[i] == s[i]);
        assert forall|k: Seq<char>| entries_map(s).contains_key(k) implies exists|i: int|
            0 <= i < s.len() && (#[trigger] s[i]).0@ == k by {
            if k == s.last().0@ {
                assert(s[s.len() - 1].0@ == k);
            } else {
                assert(entries_map(s.drop_last()).contains_key(k));
                let i = choose|i: int|
                    0 <= i < s.drop_last().len() && (#[trigger] s.drop_last()[i]).0@ == k;
                assert(s[i].0@ == k);
            }
        }
    }
}

/// Removing the entry at `i` removes exactly its id from the map.
pub proof fn lemma_entries_map_remove<A>(s: Seq<(String, A)>, i: int)
    requires
        entries_unique(s),
        0 <= i < s.len(),
    ensures
        entries_unique(s.remove(i)),
        entries_map(s.remove(i)) == entries_map(s).remove(s[i].0@),
    decreases s.len(),
{
    lemma_entries_map(s);
    let key = s[i].0@;
    let p = s.last();
    if i == s.len() - 1 {
        assert(s.remove(i) =~= s.drop_last());
        assert(entries_unique(s.drop_last()));
        lemma_entries_map(s.drop_last());
        assert(!entries_map(s.drop_last()).contains_key(key)) by {
            if entries_map(s.drop_last()).contains_key(key) {
                lemma_entries_map(s.drop_last());
            }
        }
        assert(entries_map(s.remove(i)) =~= entries_map(s).remove(key));
    } else {
        assert(s.remove(i).drop_last() =~= s.drop_last().remove(i));
        assert(s.remove(i).last() == p);
        assert(entries_unique(s.drop_last()));
        lemma_entries_map_remove(s.drop_last(), i);
        assert(entries_unique(s.remove(i))) by {
            assert(forall|x: int, y: int| 0 <= x < y < s.remove(i).len() ==> (#[trigger] s.remove(
                i,
            )[x]).0@ != (#[trigger] s.remove(i)[y]).0@) by {
                assert(forall|x: int| 0 <= x < s.remove(i).len() ==> #[trigger] s.remove(i)[x] == (
                    if x < i {
                        s[x]
                    } else {
                        s[x + 1]
                    }
                ));
            }
        }
        assert(key != p.0@);
        assert(entries_map(s.remove(i)) == entries_map(s.drop_last().remove(i)).insert(p.0@, p.1));
        assert(entries_map(s.drop_last().remove(i)) == entries_map(s.drop_last()).remove(key));
        assert(entries_map(s.remove(i)) =~= entries_map(s).remove(key));
    }
}

/// A message id acceptable in the table: never empty, and if it begins
/// with the fallback marker `m` it is a fallback key already counted by
/// `next_id`.
pub open spec fn key_ok(k: Seq<char>, next_id: int) -> bool {
    k.len() >= 1 && (k[0] != 'm' || exists|j: int| 0 <= j < next_id && k == fallback_key(j))
}

/// The shared per-session record: pending correlations and the transaction
/// id last assigned by the CSMS.
pub struct SharedState<A> {
    msgs: Vec<(String, A)>,
    transaction_id: Option<i32>,
    next_id: u64,
}

impl<A: Copy> SharedState<A> {
    /// The pending correlations as a map from message id to action.
    pub closed spec fn pending(&self) -> Map<Seq<char>, A> {
        entries_map(self.msgs@)
    }

    /// The transaction id assigned by the CSMS, if any arrived yet.
    pub closed spec fn spec_transaction_id(&self) -> Option<i32> {
        self.transaction_id
    }

    /// How many fallback message ids were ever handed out.
    pub closed spec fn spec_next_id(&self) -> int {
        self.next_id as int
    }

    /// The table keeps one entry per message id, and every id is one the
    /// table could have issued.
    pub closed spec fn wf(&self) -> bool {
        &&& entries_unique(self.msgs@)
        &&& forall|i: int| 0 <= i < self.msgs@.len() ==> key_ok(
            (#[trigger] self.msgs@[i]).0@,
            self.next_id as int,
        )
    }

    /// An empty table: nothing pending, no transaction id.
    pub fn new() -> (r: SharedState<A>)
        ensures
            r.wf(),
            r.pending() == Map::<Seq<char>, A>::empty(),
            r.spec_transaction_id() is None,
            r.spec_next_id() == 0,
    {
        SharedState { msgs: Vec::new(), transaction_id: None, next_id: 0 }
    }

    /// Draws a fresh message id for an outbound Call and records that a
    /// reply to `action` is awaited under it.  The id is a version-4 UUID;
    /// in the vanishingly rare case that the UUID is already pending, a
    /// session-local counter id is used instead, so the returned id is
    /// never one that is still awaiting a reply.
    pub fn register(&mut self, action: A) -> (r: String)
        requires
            old(self).wf(),
            old(self).spec_next_id() < u64::MAX,
        ensures
            final(self).wf(),
            !old(self).pending().contains_key(r@),
            final(self).pending() == old(self).pending().insert(r@, action),
            final(self).spec_transaction_id() == old(self).spec_transaction_id(),
            old(self).spec_next_id() <= final(self).spec_next_id() <= old(self).spec_next_id() + 1,
    {
        let id = uuid_v4_string();
        if !self.contains_msg(id.as_str()) {
            proof {
                lemma_entries_map(self.msgs@);
            }
            self.msgs.push((id.clone(), action));
            proof {
                assert(self.msgs@.drop_last() =~= old(self).msgs@);
                assert(entries_unique(self.msgs@));
                assert forall|i: int| 0 <= i < self.msgs@.len() implies key_ok(
                    (#[trigger] self.msgs@[i]).0@,
                    self.next_id as int,
                ) by {
                    if i < self.msgs@.len() - 1 {
                        assert(key_ok(old(self).msgs@[i].0@, self.next_id as int));
                    } else {
                        assert(self.msgs@[i].0@ == id@);
                    }
                }
            }
            id
        } else {
            let ghost jj = self.next_id as int;
            let mut fid = String::new();
            crate::strutil::push_char(&mut fid, 'm');
            crate::json::write_u64_dec(self.next_id, &mut fid);
            proof {
                assert(fid@ =~= fallback_key(jj));
            }
            self.next_id = self.next_id + 1;
            proof {
                lemma_entries_map(old(self).msgs@);
                assert(!entries_map(old(self).msgs@).contains_key(fid@)) by {
                    if entries_map(old(self).msgs@).contains_key(fid@) {
                        let i = choose|i: int|
                            0 <= i < old(self).msgs@.len() && (#[trigger] old(
                                self,
                            ).msgs@[i]).0@ == fid@;
                        assert(key_ok(old(self).msgs@[i].0@, jj));
                        assert(fallback_key(jj)[0] == 'm');
                        let j = choose|j: int| 0 <= j < jj && old(self).msgs@[i].0@ == fallback_key(
                            j,
                        );
                        lemma_fallback_key_injective(j, jj);
                    }
                }
            }
            self.msgs.push((fid.clone(), action));
            proof {
                assert(self.msgs@.drop_last() =~= old(self).msgs@);
                assert(entries_unique(self.msgs@));
                assert forall|i: int| 0 <= i < self.msgs@.len() implies key_ok(
                    (#[trigger] self.msgs@[i]).0@,
                    self.next_id as int,
                ) by {
                    if i < self.msgs@.len() - 1 {
                        assert(key_ok(old(self).msgs@[i].0@, jj));
                    } else {
                        assert(self.msgs@[i].0@ == fallback_key(jj));
                    }
                }
            }
            fid
        }
    }

    /// The index of `msg_id` in the entry list, if present.
    fn find(&self, msg_id: &str) -> (r: Option<usize>)
        requires
            self.wf(),
        ensures
            match r {
                Some(i) => i < self.msgs@.len() && self.msgs@[i as int].0@ == msg_id@
                    && self.pending().contains_key(msg_id@),
                None => !self.pending().contains_key(msg_id@),
            },
    {
        proof {
            lemma_entries_map(self.msgs@);
        }
        let n = self.msgs.len();
        let mut i: usize = 0;
        while i < n
            invariant
                self.wf(),
                n == self.msgs@.len(),
                i <= n,
                forall|k: int| 0 <= k < i ==> (#[trigger] self.msgs@[k]).0@ != msg_id@,
            decreases n - i,
        {
            if str_eq(self.msgs[i].0.as_str(), msg_id) {
                proof {
                    lemma_entries_map(self.msgs@);
                }
                return Some(i);
            }
            i = i + 1;
        }
        proof {
            lemma_entries_map(self.msgs@);
            if self.pending().contains_key(msg_id@) {
                let k = choose|k: int|
                    0 <= k < self.msgs@.len() && (#[trigger] self.msgs@[k]).0@ == msg_id@;
            }
        }
        None
    }

    /// Whether a Call with this message id is still awaiting its reply.
    pub fn contains_msg(&self, msg_id: &str) -> (r: bool)
        requires
            self.wf(),
        ensures
            r == self.pending().contains_key(msg_id@),
    {
        self.find(msg_id).is_some()
    }

    /// Looks up the action awaiting a reply under `msg_id`, leaving the
    /// entry in place.
    pub fn get_msg(&self, msg_id: &str) -> (r: Option<A>)
        requires
            self.wf(),
        ensures
            match r {
                Some(a) => self.pending().contains_key(msg_id@) && self.pending()[msg_id@] == a,
                None => !self.pending().contains_key(msg_id@),
            },
    {
        proof {
            lemma_entries_map(self.msgs@);
        }
        match self.find(msg_id) {
            Some(i) => Some(self.msgs[i].1),
            None => None,
        }
    }

    /// Takes the action awaiting a reply under `msg_id` out of the table,
    /// if it is there.
    pub fn take_msg(&mut self, msg_id: &str) -> (r: Option<A>)
        requires
            old(self).wf(),
        ensures
            final(self).wf(),
            final(self).spec_transaction_id() == old(self).spec_transaction_id(),
            final(self).spec_next_id() == old(self).spec_next_id(),
            match r {
                Some(a) => old(self).pending().contains_key(msg_id@)
                    && old(self).pending()[msg_id@] == a
                    && final(self).pending() == old(self).pending().remove(msg_id@),
                None => !old(self).pending().contains_key(msg_id@)
                    && *final(self) == *old(self),
            },
    {
        proof {
            lemma_entries_map(self.msgs@);
        }
        match self.find(msg_id) {
            Some(i) => {
                proof {
                    lemma_entries_map_remove(self.msgs@, i as int);
                }
                let (_, a) = self.msgs.remove(i);
                Some(a)
            }
            None => None,
        }
    }

    /// Whether at least `margin` more fallback message ids can be issued.
    pub fn headroom(&self, margin: u64) -> (r: bool)
        ensures
            r == (self.spec_next_id() + margin < u64::MAX),
    {
        self.next_id < u64::MAX - margin
    }

    /// The transaction id assigned by the CSMS, if any arrived yet.
    pub fn get_transaction_id(&self) -> (r: Option<i32>)
        ensures
            r == self.spec_transaction_id(),
    {
        self.transaction_id
    }

    /// Stores the transaction id taken from a StartTransaction response.
    pub fn transaction_id(&mut self, transaction_id: i32)
        requires
            old(self).wf(),
        ensures
            final(self).wf(),
            final(self).pending() == old(self).pending(),
            final(self).spec_next_id() == old(self).spec_next_id(),
            final(self).spec_transaction_id() == Some(transaction_id),
    {
        self.transaction_id = Some(transaction_id);
    }
}

/// Two Calls recorded in turn always carry different ids while the first is
/// still pending: the second id was fresh for a table that already held the
/// first.
pub proof fn lemma_correlation_uniqueness<A>(
    pending: Map<Seq<char>, A>,
    id1: Seq<char>,
    a1: A,
    id2: Seq<char>,
)
    requires
        !pending.insert(id1, a1).contains_key(id2),
    ensures
        id1 != id2,
{
}

} // verus!
