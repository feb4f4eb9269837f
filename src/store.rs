//! The durable record of each link's health: when to check a link again, how
//! an outcome is recorded, which links are dropped, and which failures are
//! reported and which are forgiven for a while.
use vstd::prelude::*;
use crate::error::{result_view, CheckerError, ErrorView};

verus! {

/// Microseconds in a day; timestamps are microseconds since the Unix epoch.
pub const DAY: i64 = 86_400_000_000;

/// A link that worked less than this long ago is not checked again.
pub const MIN_BETWEEN_CHECKS: i64 = 259_200_000_000;

/// A link may fail for this long after it last worked before it is reported.
pub const MAX_ALLOWED_FAILED: i64 = 604_800_000_000;

/// Whether the last check of a link succeeded.
#[derive(Debug, Clone, PartialEq, Eq)]
pub enum Working {
    Yes,
    No(CheckerError),
}

pub enum WorkingView {
    Yes,
    No(ErrorView),
}

impl View for Working {
    type V = WorkingView;

    open spec fn view(&self) -> WorkingView {
        match self {
            Working::Yes => WorkingView::Yes,
            Working::No(e) => WorkingView::No(e@),
        }
    }
}

/// The health record of one link.
#[derive(Debug, Clone, PartialEq, Eq)]
pub struct Link {
    /// When a check of the link last succeeded, if one ever did.
    pub last_working: Option<i64>,
    /// When the link was last checked.
    pub updated_at: i64,
    /// The outcome of that check.
    pub working: Working,
}

pub struct LinkView {
    pub last_working: Option<i64>,
    pub updated_at: i64,
    pub working: WorkingView,
}

impl View for Link {
    type V = LinkView;

    open spec fn view(&self) -> LinkView {
        LinkView {
            last_working: self.last_working,
            updated_at: self.updated_at,
            working: self.working@,
        }
    }
}

/// The map that a list of entries with distinct URLs stands for.
pub open spec fn map_of(es: Seq<(String, Link)>) -> Map<Seq<char>, LinkView>
    decreases es.len(),
{
    if es.len() == 0 {
        Map::empty()
    } else {
        map_of(es.drop_last()).insert(es.last().0@, es.last().1@)
    }
}

/// No two entries share a URL.
pub open spec fn distinct_keys(es: Seq<(String, Link)>) -> bool {
    forall|i: int, j: int| 0 <= i < j < es.len() ==> es[i].0@ != es[j].0@
}

/// Whether `url` is among `urls`.
pub open spec fn listed(urls: Seq<String>, url: Seq<char>) -> bool {
    exists|i: int| 0 <= i < urls.len() && urls[i]@ == url
}

/// The URLs of `urls`, as a set.
pub open spec fn url_set(urls: Seq<String>) -> Set<Seq<char>> {
    Set::new(|u: Seq<char>| listed(urls, u))
}

/// Whether a link with record `l` (if any) is to be checked at `now`: it is
/// not, only when its last check succeeded less than three days ago.
pub open spec fn needs_check(l: Option<LinkView>, now: i64) -> bool {
    match l {
        Some(link) => !(link.working is Yes && now - link.updated_at < MIN_BETWEEN_CHECKS),
        None => true,
    }
}

/// The record after an outcome at `now`; a failure keeps when the link last worked.
pub open spec fn recorded(l: Option<LinkView>, result: Result<(), ErrorView>, now: i64) -> LinkView {
    match result {
        Ok(()) => LinkView { last_working: Some(now), updated_at: now, working: WorkingView::Yes },
        Err(e) => LinkView {
            last_working: match l {
                Some(link) => link.last_working,
                None => None,
            },
            updated_at: now,
            working: WorkingView::No(e),
        },
    }
}

/// How the final report treats a link.
#[derive(Debug, Clone, Copy, PartialEq, Eq, Structural)]
pub enum Verdict {
    /// The link works.
    Fine,
    /// The link fails, but worked recently enough to wait.
    Warning,
    /// The link fails and is reported.
    Failure,
}

/// Moved or missing: these statuses get no grace period.
pub open spec fn is_structural(e: ErrorView) -> bool {
    match e {
        ErrorView::HttpError { status, .. } => status == 301 || status == 302 || status == 404,
        _ => false,
    }
}

/// The verdict on a link with record `l` at `now`.
pub open spec fn verdict_of(l: LinkView, now: i64) -> Verdict {
    match l.working {
        WorkingView::Yes => Verdict::Fine,
        WorkingView::No(e) => if is_structural(e) {
            Verdict::Failure
        } else {
            match l.last_working {
                Some(t) => if now - t > MAX_ALLOWED_FAILED {
                    Verdict::Failure
                } else {
                    Verdict::Warning
                },
                None => Verdict::Failure,
            }
        },
    }
}

/// The record of `url` in `m`, if there is one.
pub open spec fn lookup(m: Map<Seq<char>, LinkView>, url: Seq<char>) -> Option<LinkView> {
    if m.contains_key(url) {
        Some(m[url])
    } else {
        None
    }
}

/// Every URL of the map is held by an entry.
pub proof fn lemma_map_of_has(es: Seq<(String, Link)>, k: Seq<char>)
    requires
        map_of(es).contains_key(k),
    ensures
        exists|i: int| 0 <= i < es.len() && es[i].0@ == k,
    decreases es.len(),
{
    if es.len() > 0 && es.last().0@ != k {
        lemma_map_of_has(es.drop_last(), k);
        let i = choose|i: int| 0 <= i < es.drop_last().len() && es.drop_last()[i].0@ == k;
        assert(es[i].0@ == k);
    }
}

/// The entries that `map_of` collects hold their URLs' records.
pub proof fn lemma_map_of_index(es: Seq<(String, Link)>, i: int)
    requires
        distinct_keys(es),
        0 <= i < es.len(),
    ensures
        map_of(es).contains_key(es[i].0@),
        map_of(es)[es[i].0@] == es[i].1@,
    decreases es.len(),
{
    if i < es.len() - 1 {
        lemma_map_of_index(es.drop_last(), i);
    }
}

/// A URL that no entry holds is not in the map.
pub proof fn lemma_map_of_absent(es: Seq<(String, Link)>, k: Seq<char>)
    requires
        forall|i: int| 0 <= i < es.len() ==> es[i].0@ != k,
    ensures
        !map_of(es).contains_key(k),
    decreases es.len(),
{
    if es.len() > 0 {
        lemma_map_of_absent(es.drop_last(), k);
    }
}

/// Replacing the record of an entry replaces it in the map.
pub proof fn lemma_map_of_update(es: Seq<(String, Link)>, i: int, e: (String, Link))
    requires
        distinct_keys(es),
        0 <= i < es.len(),
        e.0@ == es[i].0@,
    ensures
        map_of(es.update(i, e)) == map_of(es).insert(e.0@, e.1@),
    decreases es.len(),
{
    let es2 = es.update(i, e);
    if i == es.len() - 1 {
        assert(es2.drop_last() =~= es.drop_last());
        lemma_map_of_absent(es.drop_last(), e.0@);
        assert(map_of(es2) =~= map_of(es).insert(e.0@, e.1@));
    } else {
        assert(es2.drop_last() =~= es.drop_last().update(i, e));
        lemma_map_of_update(es.drop_last(), i, e);
        assert(map_of(es2) =~= map_of(es).insert(e.0@, e.1@));
    }
}

/// The health records of all links, by URL.
pub struct Results {
    entries: Vec<(String, Link)>,
}

impl View for Results {
    type V = Map<Seq<char>, LinkView>;

    closed spec fn view(&self) -> Map<Seq<char>, LinkView> {
        map_of(self.entries@)
    }
}

impl Results {
    /// No two entries share a URL.
    pub closed spec fn wf(&self) -> bool {
        distinct_keys(self.entries@)
    }

    /// A store with no records.
    pub fn new() -> (r: Results)
        ensures
            r.wf(),
            r@ == Map::<Seq<char>, LinkView>::empty(),
    {
        Results { entries: Vec::new() }
    }

    fn position(&self, url: &String) -> (r: Option<usize>)
        requires
            self.wf(),
        ensures
            r matches Some(i) ==> i < self.entries@.len() && self.entries@[i as int].0@ == url@,
            r is None ==> !self@.contains_key(url@),
            r is None ==> forall|j: int| 0 <= j < self.entries@.len() ==> self.entries@[j].0@ != url@,
    {
        let mut i: usize = 0;
        while i < self.entries.len()
            invariant
                i <= self.entries@.len(),
                forall|j: int| 0 <= j < i ==> self.entries@[j].0@ != url@,
            decreases self.entries.len() - i,
        {
            if self.entries[i].0 == *url {
                return Some(i);
            }
            i = i + 1;
        }
        proof { lemma_map_of_absent(self.entries@, url@); }
        None
    }

    /// The record of `url`, if there is one.
    pub fn get(&self, url: &String) -> (r: Option<&Link>)
        requires
            self.wf(),
        ensures
            r matches Some(l) ==> self@.contains_key(url@) && self@[url@] == l@,
            r is None ==> !self@.contains_key(url@),
    {
        match self.position(url) {
            Some(i) => {
                proof { lemma_map_of_index(self.entries@, i as int); }
                Some(&self.entries[i].1)
            },
            None => None,
        }
    }

    /// Sets the record of `url` to `link`.
    pub fn set(&mut self, url: String, link: Link)
        requires
            old(self).wf(),
        ensures
            final(self).wf(),
            final(self)@ == old(self)@.insert(url@, link@),
    {
        match self.position(&url) {
            Some(i) => {
                proof { lemma_map_of_update(self.entries@, i as int, (url, link)); }
                self.entries[i] = (url, link);
            },
            None => {
                let ghost es = self.entries@;
                self.entries.push((url, link));
                assert(self.entries@.drop_last() =~= es);
            },
        }
    }

    /// Whether `url` is to be checked at `now`: unless its last check
    /// succeeded less than three days before.
    pub fn should_check(&self, url: &String, now: i64) -> (r: bool)
        requires
            self.wf(),
        ensures
            r == needs_check(lookup(self@, url@), now),
    {
        match self.get(url) {
            Some(link) => match link.working {
                Working::Yes => (now as i128) - (link.updated_at as i128) >= MIN_BETWEEN_CHECKS as i128,
                Working::No(_) => true,
            },
            None => true,
        }
    }

    /// Records the outcome of a check of `url` made at `now`.
    pub fn record(&mut self, url: String, result: Result<(), CheckerError>, now: i64)
        requires
            old(self).wf(),
        ensures
            final(self).wf(),
            final(self)@ == old(self)@.insert(url@, recorded(lookup(old(self)@, url@), result_view(result), now)),
    {
        let link = match result {
            Ok(()) => Link { last_working: Some(now), updated_at: now, working: Working::Yes },
            Err(e) => {
                let last_working = match self.get(&url) {
                    Some(l) => l.last_working,
                    None => None,
                };
                Link { last_working, updated_at: now, working: Working::No(e) }
            },
        };
        self.set(url, link);
    }

    /// The URLs that hold a record, each once.
    pub fn urls(&self) -> (r: Vec<String>)
        requires
            self.wf(),
        ensures
            forall|j: int| 0 <= j < r@.len() ==> self@.contains_key(#[trigger] r@[j]@),
            forall|k: Seq<char>| self@.contains_key(k) ==> listed(r@, k),
            forall|i: int, j: int| 0 <= i < j < r@.len() ==> r@[i]@ != r@[j]@,
    {
        let mut r: Vec<String> = Vec::new();
        let mut i: usize = 0;
        while i < self.entries.len()
            invariant
                self.wf(),
                i <= self.entries@.len(),
                r@.len() == i,
                forall|j: int| 0 <= j < i ==> r@[j]@ == #[trigger] self.entries@[j].0@,
            decreases self.entries.len() - i,
        {
            r.push(self.entries[i].0.clone());
            i = i + 1;
        }
        proof {
            assert forall|j: int| 0 <= j < r@.len() implies self@.contains_key(#[trigger] r@[j]@) by {
                lemma_map_of_index(self.entries@, j);
            }
            assert forall|k: Seq<char>| self@.contains_key(k) implies listed(r@, k) by {
                lemma_map_of_has(self.entries@, k);
                let j = choose|j: int| 0 <= j < self.entries@.len() && self.entries@[j].0@ == k;
                assert(r@[j]@ == k);
            }
            assert forall|i: int, j: int| 0 <= i < j < r@.len() implies r@[i]@ != r@[j]@ by {
                assert(r@[i]@ == self.entries@[i].0@);
                assert(r@[j]@ == self.entries@[j].0@);
            }
        }
        r
    }

    /// Whether no link is reported at `now`: the run passes.
    pub fn passes(&self, now: i64) -> (r: bool)
        requires
            self.wf(),
        ensures
            r == forall|k: Seq<char>| self@.contains_key(k) ==> verdict_of(#[trigger] self@[k], now)
                != Verdict::Failure,
    {
        let mut i: usize = 0;
        while i < self.entries.len()
            invariant
                self.wf(),
                i <= self.entries@.len(),
                forall|j: int| 0 <= j < i ==> verdict_of(#[trigger] self.entries@[j].1@, now) != Verdict::Failure,
            decreases self.entries.len() - i,
        {
            if classify(&self.entries[i].1, now) == Verdict::Failure {
                proof { lemma_map_of_index(self.entries@, i as int); }
                return false;
            }
            i = i + 1;
        }
        proof {
            assert forall|k: Seq<char>| self@.contains_key(k) implies verdict_of(#[trigger] self@[k], now)
                != Verdict::Failure by {
                lemma_map_of_has(self.entries@, k);
                let j = choose|j: int| 0 <= j < self.entries@.len() && self.entries@[j].0@ == k;
                lemma_map_of_index(self.entries@, j);
            }
        }
        true
    }

    /// Drops the record of every URL that `active` does not hold.
    pub fn prune(&mut self, active: &Vec<String>)
        requires
            old(self).wf(),
        ensures
            final(self).wf(),
            final(self)@ == old(self)@.restrict(url_set(active@)),
    {
        let ghost es = self.entries@;
        let ghost a = url_set(active@);
        let mut kept: Vec<(String, Link)> = Vec::new();
        let mut old_entries: Vec<(String, Link)> = Vec::new();
        std::mem::swap(&mut old_entries, &mut self.entries);
        assert(old_entries@ == es);
        while old_entries.len() > 0
            invariant
                distinct_keys(es),
                a == url_set(active@),
                es.len() >= old_entries@.len(),
                old_entries@ == es.take(old_entries@.len() as int),
                distinct_keys(kept@),
                map_of(es).restrict(a) == map_of(old_entries@).restrict(a).union_prefer_right(map_of(kept@)),
                forall|j: int| 0 <= j < kept@.len() ==> !map_of(old_entries@).contains_key(#[trigger] kept@[j].0@),
            decreases old_entries.len(),
        {
            let ghost before = old_entries@;
            let e = old_entries.pop().unwrap();
            assert(old_entries@ == before.drop_last());
            assert(map_of(before) == map_of(old_entries@).insert(e.0@, e.1@));
            assert(old_entries@ =~= es.take(old_entries@.len() as int));
            proof {
                assert forall|j: int| 0 <= j < old_entries@.len() implies old_entries@[j].0@ != e.0@ by {
                    assert(es[j].0@ != es[old_entries@.len() as int].0@);
                }
                lemma_map_of_absent(old_entries@, e.0@);
            }
            if listed_exec(active, &e.0) {
                let ghost k0 = kept@;
                proof {
                    assert forall|j: int| 0 <= j < k0.len() implies k0[j].0@ != e.0@ by {
                        assert(!map_of(before).contains_key(k0[j].0@));
                    }
                }
                proof { lemma_map_of_absent(k0, e.0@); }
                kept.push(e);
                assert(kept@.drop_last() =~= k0);
                assert(map_of(kept@) == map_of(k0).insert(e.0@, e.1@));
                assert(map_of(es).restrict(a) =~= map_of(old_entries@).restrict(a).union_prefer_right(map_of(kept@)));
            } else {
                assert(!a.contains(e.0@));
                assert(map_of(es).restrict(a) =~= map_of(old_entries@).restrict(a).union_prefer_right(map_of(kept@)));
            }
        }
        assert(map_of(old_entries@).restrict(a) =~= Map::empty());
        assert(map_of(es).restrict(a) =~= map_of(kept@));
        self.entries = kept;
    }
}

/// The verdict on `link` at `now`.
pub fn classify(link: &Link, now: i64) -> (r: Verdict)
    ensures
        r == verdict_of(link@, now),
{
    match &link.working {
        Working::Yes => Verdict::Fine,
        Working::No(e) => {
            let structural = match e {
                CheckerError::HttpError { status, .. } => *status == 301 || *status == 302 || *status
                    == 404,
                _ => false,
            };
            if structural {
                Verdict::Failure
            } else {
                match link.last_working {
                    Some(t) => if (now as i128) - (t as i128) > MAX_ALLOWED_FAILED as i128 {
                        Verdict::Failure
                    } else {
                        Verdict::Warning
                    },
                    None => Verdict::Failure,
                }
            }
        },
    }
}

/// Whether `url` is among `urls`.
pub fn listed_exec(urls: &Vec<String>, url: &String) -> (r: bool)
    ensures
        r == listed(urls@, url@),
{
    let mut i: usize = 0;
    while i < urls.len()
        invariant
            i <= urls@.len(),
            forall|j: int| 0 <= j < i ==> urls@[j]@ != url@,
        decreases urls.len() - i,
    {
        if urls[i] == *url {
            return true;
        }
        i = i + 1;
    }
    false
}

} // verus!
