//! The build cache as mathematics: what it holds, what every request makes
//! of it, and why it stays well-formed.

use vstd::prelude::*;
use crate::error::ErrorView;

verus! {

/// A `BuildKey` as plain values.
pub struct BuildKeyView {
    pub project_dir: Seq<char>,
    pub features: Seq<char>,
    pub image: Seq<char>,
}

/// A `BuildResult` as plain values.
pub enum BuildResultView {
    Artifact(Seq<char>),
    Image(Seq<char>),
}

/// How a build ended, as plain values.
pub type OutcomeView = Result<BuildResultView, ErrorView>;

/// A `GuardState` as plain values.
pub enum GuardStateView {
    Absent,
    InProgress,
    Ready(BuildResultView),
    Failed(ErrorView),
}

/// The state of a key whose build ended with `outcome`.
pub open spec fn resolved_state(outcome: OutcomeView) -> GuardStateView {
    match outcome {
        Ok(result) => GuardStateView::Ready(result),
        Err(error) => GuardStateView::Failed(error),
    }
}

/// A `Ticket` as plain values.
pub enum TicketView {
    Build,
    Wait,
    Done(OutcomeView),
}

/// A key whose build has ended, with the outcome.
pub struct ResolvedView {
    pub key: BuildKeyView,
    pub outcome: OutcomeView,
}

/// The cache as plain values: the keys being built, and the builds that
/// have ended, least recently used first.
pub struct CacheView {
    pub pending: Seq<BuildKeyView>,
    pub resolved: Seq<ResolvedView>,
    pub capacity: nat,
}

impl CacheView {
    /// The keys of the builds that have ended, least recently used first.
    pub open spec fn resolved_keys(self) -> Seq<BuildKeyView> {
        Seq::new(self.resolved.len(), |i: int| self.resolved[i].key)
    }

    /// No key stands twice, none is both in flight and ended, and the ended
    /// builds fit the capacity, which is at least one.
    pub open spec fn wf(self) -> bool {
        &&& self.capacity >= 1
        &&& self.resolved.len() <= self.capacity
        &&& self.pending.no_duplicates()
        &&& self.resolved_keys().no_duplicates()
        &&& self.pending.disjoint(self.resolved_keys())
    }

    /// Whether a build for `key` is in flight.
    pub open spec fn in_flight(self, key: BuildKeyView) -> bool {
        self.pending.contains(key)
    }

    /// Whether the outcome of the build for `key` is held.
    pub open spec fn settled(self, key: BuildKeyView) -> bool {
        self.resolved_keys().contains(key)
    }

    /// Where the outcome for `key` stands among the ended builds.
    pub open spec fn slot(self, key: BuildKeyView) -> int {
        self.resolved_keys().index_of(key)
    }

    /// The state of `key`.
    pub open spec fn state_of(self, key: BuildKeyView) -> GuardStateView {
        if self.in_flight(key) {
            GuardStateView::InProgress
        } else if self.settled(key) {
            resolved_state(self.resolved[self.slot(key)].outcome)
        } else {
            GuardStateView::Absent
        }
    }

    /// What a caller that asks for `key` is told.
    pub open spec fn ticket(self, key: BuildKeyView) -> TicketView {
        if self.in_flight(key) {
            TicketView::Wait
        } else if self.settled(key) {
            TicketView::Done(self.resolved[self.slot(key)].outcome)
        } else {
            TicketView::Build
        }
    }

    /// The cache after a caller has asked for `key`: an absent key is now in
    /// flight, an ended build is now the most recently used, and a key in
    /// flight changes nothing.
    pub open spec fn begin(self, key: BuildKeyView) -> CacheView {
        if self.in_flight(key) {
            self
        } else if self.settled(key) {
            let i: int = self.slot(key);
            CacheView { resolved: self.resolved.remove(i).push(self.resolved[i]), ..self }
        } else {
            CacheView { pending: self.pending.push(key), ..self }
        }
    }

    /// The ended builds once room has been made for one more: if they fill
    /// the capacity, the least recently used is gone.
    pub open spec fn with_room(self) -> Seq<ResolvedView> {
        if self.resolved.len() >= self.capacity {
            self.resolved.drop_first()
        } else {
            self.resolved
        }
    }

    /// The cache after the build for `key` has been reported to end with
    /// `outcome`. Only a build in flight can end; any other report changes
    /// nothing.
    pub open spec fn complete(self, key: BuildKeyView, outcome: OutcomeView) -> CacheView {
        if self.in_flight(key) {
            CacheView {
                pending: self.pending.remove(self.pending.index_of(key)),
                resolved: self.with_room().push(ResolvedView { key, outcome }),
                capacity: self.capacity,
            }
        } else {
            self
        }
    }

    /// What becomes of the cache, and what the caller gets, when `key` is
    /// asked for by a caller that builds on the spot where it is told to,
    /// and whose build would end with `built`. A build that has ended is
    /// answered from the cache and `built` plays no part. A key in flight
    /// cannot be waited for by the one who holds the cache: it is answered
    /// as unavailable.
    pub open spec fn served(self, key: BuildKeyView, built: OutcomeView) -> (
        CacheView,
        OutcomeView,
    ) {
        match self.ticket(key) {
            TicketView::Done(outcome) => (self.begin(key), outcome),
            TicketView::Wait => (self, Err(ErrorView::CacheUnavailable)),
            TicketView::Build => (self.begin(key).complete(key, built), built),
        }
    }
}

/// Whether a caller that has waited for `waited` has reached the bound
/// `limit`, both counted in the same unit of time. Without a bound no wait
/// is too long.
pub open spec fn overdue(limit: Option<u64>, waited: u64) -> bool {
    match limit {
        Some(bound) => waited >= bound,
        None => false,
    }
}

/// How much longer a caller that has waited for `waited` may wait under
/// the bound `limit`: nothing once the bound is reached, and no end without
/// a bound.
pub open spec fn time_left(limit: Option<u64>, waited: u64) -> Option<u64> {
    match limit {
        Some(bound) => Some(if waited >= bound { 0u64 } else { (bound - waited) as u64 }),
        None => None,
    }
}

/// What a caller is told that has waited for `waited` under the bound
/// `limit`: the ticket, unless it says wait and the bound is reached. Then
/// the cache is unavailable, which is an error of its own and no outcome of
/// any build.
pub open spec fn timed(ticket: TicketView, limit: Option<u64>, waited: u64) -> Result<
    TicketView,
    ErrorView,
> {
    if ticket is Wait && overdue(limit, waited) {
        Err(ErrorView::CacheUnavailable)
    } else {
        Ok(ticket)
    }
}

/// In a sequence without repeats, an element stands where it is found.
pub proof fn lemma_index_of_unique<A>(s: Seq<A>, i: int)
    requires
        s.no_duplicates(),
        0 <= i < s.len(),
    ensures
        s.contains(s[i]),
        s.index_of(s[i]) == i,
{
}

/// Taking an element out of a sequence without repeats leaves no repeats,
/// and leaves every other element in.
pub proof fn lemma_remove_unique<A>(s: Seq<A>, i: int)
    requires
        s.no_duplicates(),
        0 <= i < s.len(),
    ensures
        s.remove(i).no_duplicates(),
        s.remove(i).len() == s.len() - 1,
        !s.remove(i).contains(s[i]),
        forall|x: A| x != s[i] ==> (#[trigger] s.remove(i).contains(x) <==> s.contains(x)),
{
    let t = s.remove(i);
    assert forall|x: A| x != s[i] implies (#[trigger] t.contains(x) <==> s.contains(x)) by {
        if s.contains(x) {
            let a0: int = choose|a: int| 0 <= a < s.len() && s[a] == x;
            let a: int = if a0 < i { a0 } else { a0 - 1 };
            assert(t[a] == x);
        }
    }
}

/// Adding an element that a sequence without repeats does not hold leaves
/// no repeats.
pub proof fn lemma_push_unique<A>(s: Seq<A>, x: A)
    requires
        s.no_duplicates(),
        !s.contains(x),
    ensures
        s.push(x).no_duplicates(),
        forall|y: A| #[trigger] s.push(x).contains(y) <==> (y == x || s.contains(y)),
{
    let t = s.push(x);
    assert forall|y: A| #[trigger] t.contains(y) <==> (y == x || s.contains(y)) by {
        if s.contains(y) {
            let a: int = choose|a: int| 0 <= a < s.len() && s[a] == y;
            assert(t[a] == y);
        }
        if y == x {
            assert(t[s.len() as int] == x);
        }
    }
}

impl CacheView {
    /// The keys of ended builds follow the builds when one is taken out.
    pub proof fn lemma_keys_remove(self, i: int)
        requires
            0 <= i < self.resolved.len(),
        ensures
            (CacheView { resolved: self.resolved.remove(i), ..self }).resolved_keys()
                == self.resolved_keys().remove(i),
    {
    }

    /// The keys of ended builds follow the builds when one is added.
    pub proof fn lemma_keys_push(self, r: ResolvedView)
        ensures
            (CacheView { resolved: self.resolved.push(r), ..self }).resolved_keys()
                == self.resolved_keys().push(r.key),
    {
    }

    /// Asking for a key keeps the cache well-formed.
    pub proof fn lemma_begin_wf(self, key: BuildKeyView)
        requires
            self.wf(),
        ensures
            self.begin(key).wf(),
    {
        if !self.in_flight(key) && self.settled(key) {
            let i: int = self.slot(key);
            let taken = CacheView { resolved: self.resolved.remove(i), ..self };
            self.lemma_keys_remove(i);
            taken.lemma_keys_push(self.resolved[i]);
        }
    }

    /// Making room keeps the keys apart and leaves space for one build.
    pub proof fn lemma_with_room(self)
        requires
            self.wf(),
        ensures
            self.with_room().len() < self.capacity,
            (CacheView { resolved: self.with_room(), ..self }).wf(),
            forall|k: BuildKeyView|
                (#[trigger] (CacheView { resolved: self.with_room(), ..self }).settled(k))
                    ==> self.settled(k),
    {
        if self.resolved.len() >= self.capacity {
            self.lemma_keys_remove(0);
        }
    }

    /// Reporting the end of a build keeps the cache well-formed.
    pub proof fn lemma_complete_wf(self, key: BuildKeyView, outcome: OutcomeView)
        requires
            self.wf(),
        ensures
            self.complete(key, outcome).wf(),
    {
        if self.in_flight(key) {
            let roomy = CacheView { resolved: self.with_room(), ..self };
            self.lemma_with_room();
            roomy.lemma_keys_push(ResolvedView { key, outcome });
        }
    }

    /// Once a caller has asked for a key that no build had ended for, the
    /// key is in flight.
    pub proof fn lemma_begin_in_flight(self, key: BuildKeyView)
        requires
            !self.settled(key),
        ensures
            self.begin(key).in_flight(key),
    {
        if !self.in_flight(key) {
            assert(self.begin(key).pending[self.pending.len() as int] == key);
        }
    }

    /// The build that stands at `j` among the ended builds is found there
    /// by its key, and the key's state is the build's outcome.
    pub proof fn lemma_state_at(self, j: int)
        requires
            self.wf(),
            0 <= j < self.resolved.len(),
        ensures
            self.settled(self.resolved[j].key),
            self.slot(self.resolved[j].key) == j,
            !self.in_flight(self.resolved[j].key),
            self.state_of(self.resolved[j].key) == resolved_state(self.resolved[j].outcome),
            self.ticket(self.resolved[j].key) == TicketView::Done(self.resolved[j].outcome),
    {
        lemma_index_of_unique(self.resolved_keys(), j);
    }

    /// After a caller has asked for `key`, the key is in flight if it was
    /// absent, and stands where it stood otherwise.
    pub proof fn lemma_begin_state(self, key: BuildKeyView)
        requires
            self.wf(),
        ensures
            self.begin(key).state_of(key) == if self.state_of(key) is Absent {
                GuardStateView::InProgress
            } else {
                self.state_of(key)
            },
    {
        let after = self.begin(key);
        self.lemma_begin_wf(key);
        if self.in_flight(key) {
        } else if self.settled(key) {
            after.lemma_state_at(after.resolved.len() - 1);
        } else {
            self.lemma_begin_in_flight(key);
        }
    }

    /// Asking for one key leaves the state of every other key as it was.
    pub proof fn lemma_begin_other(self, key: BuildKeyView, other: BuildKeyView)
        requires
            self.wf(),
            other != key,
        ensures
            self.begin(key).state_of(other) == self.state_of(other),
            self.begin(key).ticket(other) == self.ticket(other),
    {
        if self.in_flight(key) {
        } else if self.settled(key) {
            let i: int = self.slot(key);
            let keys = self.resolved_keys();
            let taken = CacheView { resolved: self.resolved.remove(i), ..self };
            self.lemma_keys_remove(i);
            taken.lemma_keys_push(self.resolved[i]);
            lemma_remove_unique(keys, i);
            lemma_push_unique(keys.remove(i), keys[i]);
        } else {
            lemma_push_unique(self.pending, key);
        }
    }

    /// Once the end of a build in flight has been reported, the state of
    /// its key is the reported outcome.
    pub proof fn lemma_complete_state(self, key: BuildKeyView, outcome: OutcomeView)
        requires
            self.wf(),
            self.in_flight(key),
        ensures
            self.complete(key, outcome).state_of(key) == resolved_state(outcome),
            self.complete(key, outcome).ticket(key) == TicketView::Done(outcome),
    {
        let after = self.complete(key, outcome);
        self.lemma_complete_wf(key, outcome);
        after.lemma_state_at(after.resolved.len() - 1);
    }

    /// Reporting the end of one build never touches a build in flight for
    /// another key, and never brings in a key that was absent. The outcome
    /// held for another key stays as it is, unless it was the least
    /// recently used of a full cache: then it has made room.
    pub proof fn lemma_complete_other(
        self,
        key: BuildKeyView,
        outcome: OutcomeView,
        other: BuildKeyView,
    )
        requires
            self.wf(),
            other != key,
        ensures
            self.complete(key, outcome).in_flight(other) == self.in_flight(other),
            self.complete(key, outcome).settled(other) ==> self.settled(other),
            self.complete(key, outcome).state_of(other) == self.state_of(other) || (
            self.in_flight(key) && !self.in_flight(other) && self.resolved.len() >= self.capacity
                && self.resolved[0].key == other && self.complete(key, outcome).state_of(other)
                is Absent),
    {
        let after = self.complete(key, outcome);
        if self.in_flight(key) {
            let i: int = self.pending.index_of(key);
            lemma_remove_unique(self.pending, i);
            let roomy = CacheView { resolved: self.with_room(), ..self };
            self.lemma_with_room();
            roomy.lemma_keys_push(ResolvedView { key, outcome });
            lemma_push_unique(roomy.resolved_keys(), key);
            assert(after.settled(other) == roomy.settled(other));
            if self.resolved.len() >= self.capacity {
                self.lemma_keys_remove(0);
                lemma_remove_unique(self.resolved_keys(), 0);
            }
        }
    }
}

} // verus!
