//! The decisions of a run around the checks themselves: which URLs are
//! checkable, which of them are due, and when the store is written out.
use vstd::prelude::*;
use crate::store::{listed, listed_exec, lookup, needs_check, Results};
use crate::text::{chars_of, occurs_at_exec, starts_with};

verus! {

/// Only URLs with this prefix (`http` and `https`) are checked.
pub const NETWORK_SCHEME: &'static str = "http";

/// The store is written out once this many microseconds passed since the last write,
pub const FLUSH_INTERVAL: i64 = 5_000_000;

/// or once more than this many outcomes wait unwritten.
pub const FLUSH_BATCH: u64 = 20;

/// No URL appears twice.
pub open spec fn distinct(urls: Seq<String>) -> bool {
    forall|i: int, j: int| 0 <= i < j < urls.len() ==> urls[i]@ != urls[j]@
}

/// Appending `x` lists exactly `x` besides what was listed.
pub proof fn lemma_listed_push(s: Seq<String>, x: String)
    ensures
        forall|v: Seq<char>| #[trigger] listed(s.push(x), v) <==> (listed(s, v) || v == x@),
{
    assert forall|v: Seq<char>| #[trigger] listed(s.push(x), v) <==> (listed(s, v) || v == x@) by {
        if listed(s.push(x), v) && v != x@ {
            let j = choose|j: int| 0 <= j < s.push(x).len() && #[trigger] s.push(x)[j]@ == v;
            assert(s[j]@ == v);
        }
        if v == x@ {
            assert(s.push(x)[s.len() as int]@ == v);
        }
        if listed(s, v) {
            let j = choose|j: int| 0 <= j < s.len() && #[trigger] s[j]@ == v;
            assert(s.push(x)[j]@ == v);
        }
    }
}

/// The checkable URLs among those a document refers to, each once, in the
/// order of their first appearance.
pub fn active_urls(found: &Vec<String>) -> (r: Vec<String>)
    ensures
        distinct(r@),
        forall|u: Seq<char>| listed(r@, u) <==> (listed(found@, u) && starts_with(u, NETWORK_SCHEME@)),
{
    let mut r: Vec<String> = Vec::new();
    let mut i: usize = 0;
    while i < found.len()
        invariant
            i <= found@.len(),
            distinct(r@),
            forall|u: Seq<char>| listed(r@, u) <==> (listed(found@.take(i as int), u) && starts_with(u, NETWORK_SCHEME@)),
        decreases found.len() - i,
    {
        let u = &found[i];
        let ghost r0 = r@;
        assert(found@.take(i + 1) =~= found@.take(i as int).push(*u));
        proof { lemma_listed_push(found@.take(i as int), *u); }
        if occurs_at_exec(&chars_of(u.as_str()), 0, NETWORK_SCHEME) && !listed_exec(&r, u) {
            r.push(u.clone());
            proof {
                assert(r@ =~= r0.push(*u));
                lemma_listed_push(r0, *u);
                assert forall|a: int, b: int| 0 <= a < b < r@.len() implies r@[a]@ != r@[b]@ by {
                    if b == r0.len() {
                        assert(r@[a]@ == r0[a]@);
                    } else {
                        assert(r@[a]@ == r0[a]@ && r@[b]@ == r0[b]@);
                    }
                }
            }
        }
        i = i + 1;
    }
    assert(found@.take(found@.len() as int) =~= found@);
    r
}

/// Whether the store is to be written out now, `elapsed` microseconds after
/// the last write and with `unflushed` outcomes recorded since.
pub fn should_flush(elapsed: i64, unflushed: u64) -> (r: bool)
    ensures
        r == (elapsed > FLUSH_INTERVAL || unflushed > FLUSH_BATCH),
{
    elapsed > FLUSH_INTERVAL || unflushed > FLUSH_BATCH
}

impl Results {
    /// The URLs of `active` that are due for a check at `now`, in order.
    pub fn due(&self, active: &Vec<String>, now: i64) -> (r: Vec<String>)
        requires
            self.wf(),
        ensures
            forall|u: Seq<char>| listed(r@, u) <==> (listed(active@, u) && needs_check(lookup(self@, u), now)),
            distinct(active@) ==> distinct(r@),
    {
        let mut r: Vec<String> = Vec::new();
        let ghost picked: Seq<int> = Seq::empty();
        let mut i: usize = 0;
        while i < active.len()
            invariant
                self.wf(),
                i <= active@.len(),
                picked.len() == r@.len(),
                forall|j: int| 0 <= j < picked.len() ==> 0 <= #[trigger] picked[j] < i && r@[j]@ == active@[picked[j]]@,
                forall|a: int, b: int| 0 <= a < b < picked.len() ==> picked[a] < picked[b],
                forall|u: Seq<char>| listed(r@, u) <==> (listed(active@.take(i as int), u) && needs_check(lookup(self@, u), now)),
            decreases active.len() - i,
        {
            let u = &active[i];
            let ghost r0 = r@;
            assert(active@.take(i + 1) =~= active@.take(i as int).push(*u));
            proof { lemma_listed_push(active@.take(i as int), *u); }
            if self.should_check(u, now) {
                r.push(u.clone());
                proof {
                    picked = picked.push(i as int);
                    assert(r@ =~= r0.push(*u));
                    lemma_listed_push(r0, *u);
                }
            }
            i = i + 1;
        }
        assert(active@.take(active@.len() as int) =~= active@);
        proof {
            if distinct(active@) {
                assert forall|a: int, b: int| 0 <= a < b < r@.len() implies r@[a]@ != r@[b]@ by {
                    assert(picked[a] < picked[b]);
                }
            }
        }
        r
    }
}

} // verus!
