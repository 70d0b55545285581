//! The build cache: every distinct build runs at most once, however many
//! callers ask for it, and callers for different builds never wait for one
//! another.
//!
//! The cache is a state machine. A caller asks for a key with `begin` and is
//! told to build, to wait, or what the build gave. Whoever was told to build
//! reports with `complete`. The cache itself never blocks and never runs a
//! build; sharing it between threads is the work of whoever owns it.

use vstd::prelude::*;
use crate::error::Error;
use crate::model::{
    lemma_index_of_unique, overdue, resolved_state, time_left, timed, BuildKeyView,
    BuildResultView, CacheView, GuardStateView, OutcomeView, ResolvedView, TicketView,
};
use crate::text::{underscored, with_underscores};

verus! {

/// What identifies a build: the project's source directory, the feature
/// selector in its normal form, and the builder image.
#[derive(Debug)]
pub struct BuildKey {
    project_dir: String,
    features: String,
    image: String,
}

impl View for BuildKey {
    type V = BuildKeyView;

    closed spec fn view(&self) -> BuildKeyView {
        BuildKeyView {
            project_dir: self.project_dir@,
            features: self.features@,
            image: self.image@,
        }
    }
}

impl BuildKey {
    /// The key of the build of `project_dir` with `features` in `image`.
    /// Selectors that differ only in spaces against underscores give the
    /// same key.
    pub fn new(project_dir: &str, features: &str, image: &str) -> (r: BuildKey)
        ensures
            r@ == (BuildKeyView {
                project_dir: project_dir@,
                features: underscored(features@),
                image: image@,
            }),
    {
        BuildKey {
            project_dir: project_dir.to_owned(),
            features: with_underscores(features),
            image: image.to_owned(),
        }
    }

    /// The project's source directory.
    pub fn project_dir(&self) -> (r: &str)
        ensures
            r@ == self@.project_dir,
    {
        self.project_dir.as_str()
    }

    /// The feature selector, in its normal form.
    pub fn features(&self) -> (r: &str)
        ensures
            r@ == self@.features,
    {
        self.features.as_str()
    }

    /// The builder image.
    pub fn image(&self) -> (r: &str)
        ensures
            r@ == self@.image,
    {
        self.image.as_str()
    }

    /// Whether the two keys name the same build: all three parts match.
    pub fn same(&self, other: &BuildKey) -> (r: bool)
        ensures
            r == (self@ == other@),
    {
        self.project_dir == other.project_dir && self.features == other.features && self.image
            == other.image
    }

    /// A copy that names the same build.
    pub fn duplicate(&self) -> (r: BuildKey)
        ensures
            r@ == self@,
    {
        BuildKey {
            project_dir: self.project_dir.clone(),
            features: self.features.clone(),
            image: self.image.clone(),
        }
    }
}

impl PartialEq for BuildKey {
    /// Two keys are equal if and only if they name the same build.
    fn eq(&self, other: &BuildKey) -> (r: bool) {
        self.same(other)
    }
}

impl Eq for BuildKey {}

impl vstd::std_specs::cmp::PartialEqSpecImpl for BuildKey {
    open spec fn obeys_eq_spec() -> bool {
        true
    }

    open spec fn eq_spec(&self, other: &BuildKey) -> bool {
        self@ == other@
    }
}

/// What a build produced.
#[derive(Clone, Debug, PartialEq, Eq)]
pub enum BuildResult {
    /// The path of a compiled artifact.
    Artifact(String),
    /// The identifier of a built image.
    Image(String),
}

impl View for BuildResult {
    type V = BuildResultView;

    open spec fn view(&self) -> BuildResultView {
        match *self {
            BuildResult::Artifact(path) => BuildResultView::Artifact(path@),
            BuildResult::Image(id) => BuildResultView::Image(id@),
        }
    }
}

impl BuildResult {
    /// A copy that holds the same text.
    pub fn duplicate(&self) -> (r: BuildResult)
        ensures
            r@ == self@,
    {
        match self {
            BuildResult::Artifact(path) => BuildResult::Artifact(path.clone()),
            BuildResult::Image(id) => BuildResult::Image(id.clone()),
        }
    }
}

/// How a build ended, as plain values.
pub open spec fn outcome_view(outcome: Result<BuildResult, Error>) -> OutcomeView {
    match outcome {
        Ok(result) => Ok(result@),
        Err(error) => Err(error@),
    }
}

/// A copy of the outcome of a build.
pub fn copy_outcome(outcome: &Result<BuildResult, Error>) -> (r: Result<BuildResult, Error>)
    ensures
        outcome_view(r) == outcome_view(*outcome),
{
    match outcome {
        Ok(result) => Ok(result.duplicate()),
        Err(error) => Err(error.duplicate()),
    }
}

/// Where a key stands in the cache.
#[derive(Clone, Debug, PartialEq, Eq)]
pub enum GuardState {
    /// Nobody has asked for the key, or its outcome has been evicted.
    Absent,
    /// One caller is building; the others wait.
    InProgress,
    /// The build succeeded. This does not change any more.
    Ready(BuildResult),
    /// The build failed. This does not change any more.
    Failed(Error),
}

impl View for GuardState {
    type V = GuardStateView;

    open spec fn view(&self) -> GuardStateView {
        match *self {
            GuardState::Absent => GuardStateView::Absent,
            GuardState::InProgress => GuardStateView::InProgress,
            GuardState::Ready(result) => GuardStateView::Ready(result@),
            GuardState::Failed(error) => GuardStateView::Failed(error@),
        }
    }
}

/// What the cache answers to a caller that asks for a key.
#[derive(Debug, PartialEq, Eq)]
pub enum Ticket {
    /// The caller is the one to run the build, and must report its outcome.
    Build,
    /// Another caller is building; ask again when it has reported.
    Wait,
    /// The build has ended, and this is its outcome.
    Done(Result<BuildResult, Error>),
}

impl View for Ticket {
    type V = TicketView;

    open spec fn view(&self) -> TicketView {
        match *self {
            Ticket::Build => TicketView::Build,
            Ticket::Wait => TicketView::Wait,
            Ticket::Done(outcome) => TicketView::Done(outcome_view(outcome)),
        }
    }
}

/// How much longer a caller that has waited for `waited` may wait under
/// the bound `limit`. The wait is over exactly when nothing is left.
pub fn patience(limit: Option<u64>, waited: u64) -> (r: Option<u64>)
    ensures
        r == time_left(limit, waited),
        overdue(limit, waited) <==> r == Some(0u64),
{
    match limit {
        Some(bound) => Some(if waited >= bound { 0 } else { bound - waited }),
        None => None,
    }
}

/// A build that has ended, as the cache holds it.
#[derive(Debug)]
struct Resolved {
    key: BuildKey,
    outcome: Result<BuildResult, Error>,
}

/// The keyed build cache.
#[derive(Debug)]
pub struct BuildCache {
    pending: Vec<BuildKey>,
    resolved: Vec<Resolved>,
    capacity: usize,
}

/// The keys in `keys` as plain values.
spec fn key_views(keys: Seq<BuildKey>) -> Seq<BuildKeyView> {
    Seq::new(keys.len(), |i: int| keys[i]@)
}

/// The ended builds in `builds` as plain values.
spec fn resolved_views(builds: Seq<Resolved>) -> Seq<ResolvedView> {
    Seq::new(
        builds.len(),
        |i: int| ResolvedView { key: builds[i].key@, outcome: outcome_view(builds[i].outcome) },
    )
}

impl View for BuildCache {
    type V = CacheView;

    closed spec fn view(&self) -> CacheView {
        CacheView {
            pending: key_views(self.pending@),
            resolved: resolved_views(self.resolved@),
            capacity: self.capacity as nat,
        }
    }
}

impl BuildCache {
    #[verifier::type_invariant]
    spec fn sound(self) -> bool {
        self@.wf()
    }

    /// Where `key` stands among the keys in flight, if it does.
    fn pending_slot(&self, key: &BuildKey) -> (r: Option<usize>)
        ensures
            r is Some <==> self@.in_flight(key@),
            r matches Some(i) ==> i < self.pending.len() && i == self@.pending.index_of(key@),
    {
        let mut i: usize = 0;
        while i < self.pending.len()
            invariant
                i <= self.pending.len(),
                forall|j: int| 0 <= j < i ==> self@.pending[j] != key@,
            decreases self.pending.len() - i,
        {
            if self.pending[i].same(key) {
                proof {
                    use_type_invariant(self);
                    lemma_index_of_unique(self@.pending, i as int);
                }
                return Some(i);
            }
            i = i + 1;
        }
        None
    }

    /// Where the build for `key` stands among the ended builds, if it does.
    fn resolved_slot(&self, key: &BuildKey) -> (r: Option<usize>)
        ensures
            r is Some <==> self@.settled(key@),
            r matches Some(i) ==> i < self.resolved.len() && i == self@.slot(key@),
    {
        let mut i: usize = 0;
        while i < self.resolved.len()
            invariant
                i <= self.resolved.len(),
                forall|j: int| 0 <= j < i ==> self@.resolved_keys()[j] != key@,
            decreases self.resolved.len() - i,
        {
            if self.resolved[i].key.same(key) {
                proof {
                    use_type_invariant(self);
                    lemma_index_of_unique(self@.resolved_keys(), i as int);
                }
                return Some(i);
            }
            i = i + 1;
        }
        None
    }

    /// An empty cache that holds the outcomes of at most `capacity` builds.
    /// There is no cache that holds none.
    pub fn new(capacity: usize) -> (r: Option<BuildCache>)
        ensures
            r is Some <==> capacity >= 1,
            r matches Some(cache) ==> cache@ == (CacheView {
                pending: Seq::empty(),
                resolved: Seq::empty(),
                capacity: capacity as nat,
            }) && cache@.wf(),
    {
        if capacity == 0 {
            None
        } else {
            let cache = BuildCache { pending: Vec::new(), resolved: Vec::new(), capacity };
            assert(cache@.pending =~= Seq::empty());
            assert(cache@.resolved =~= Seq::empty());
            Some(cache)
        }
    }

    /// The number of ended builds that the cache holds at most.
    pub fn capacity(&self) -> (r: usize)
        ensures
            r == self@.capacity,
            self@.wf(),
    {
        proof {
            use_type_invariant(self);
        }
        self.capacity
    }

    /// The state of `key`.
    pub fn state(&self, key: &BuildKey) -> (r: GuardState)
        ensures
            r@ == self@.state_of(key@),
    {
        if self.pending_slot(key).is_some() {
            return GuardState::InProgress;
        }
        match self.resolved_slot(key) {
            Some(i) => match &self.resolved[i].outcome {
                Ok(result) => GuardState::Ready(result.duplicate()),
                Err(error) => GuardState::Failed(error.duplicate()),
            },
            None => GuardState::Absent,
        }
    }

    /// Asks for `key`. An absent key is now in flight, and the caller is
    /// told to build. For a key in flight the caller is told to wait. For a
    /// build that has ended the caller gets the outcome, and the build is
    /// now the most recently used.
    pub fn begin(&mut self, key: &BuildKey) -> (r: Ticket)
        ensures
            r@ == old(self)@.ticket(key@),
            final(self)@ == old(self)@.begin(key@),
            final(self)@.wf(),
            final(self)@.state_of(key@) == if old(self)@.state_of(key@) is Absent {
                GuardStateView::InProgress
            } else {
                old(self)@.state_of(key@)
            },
    {
        proof {
            use_type_invariant(&*self);
            self@.lemma_begin_wf(key@);
            self@.lemma_begin_state(key@);
        }
        if self.pending_slot(key).is_some() {
            return Ticket::Wait;
        }
        match self.resolved_slot(key) {
            Some(i) => {
                let outcome = copy_outcome(&self.resolved[i].outcome);
                let ghost before = self.resolved@;
                let mut resolved: Vec<Resolved> = Vec::new();
                core::mem::swap(&mut self.resolved, &mut resolved);
                let build = resolved.remove(i);
                resolved.push(build);
                assert(resolved_views(resolved@) =~= resolved_views(before).remove(i as int).push(
                    resolved_views(before)[i as int],
                ));
                self.resolved = resolved;
                Ticket::Done(outcome)
            },
            None => {
                let ghost before = self.pending@;
                let mut pending: Vec<BuildKey> = Vec::new();
                core::mem::swap(&mut self.pending, &mut pending);
                pending.push(key.duplicate());
                assert(key_views(pending@) =~= key_views(before).push(key@));
                self.pending = pending;
                Ticket::Build
            },
        }
    }

    /// Reports that the build for `key` ended with `outcome`. If the build
    /// was in flight, the outcome is recorded for good, after the least
    /// recently used outcome has made room where the cache is full; a build
    /// in flight is never given up to make room. Any other report changes
    /// nothing. The result says whether the outcome was recorded.
    pub fn complete(&mut self, key: &BuildKey, outcome: Result<BuildResult, Error>) -> (r: bool)
        ensures
            r == old(self)@.in_flight(key@),
            final(self)@ == old(self)@.complete(key@, outcome_view(outcome)),
            final(self)@.wf(),
            r ==> final(self)@.state_of(key@) == resolved_state(outcome_view(outcome)),
    {
        proof {
            use_type_invariant(&*self);
            self@.lemma_complete_wf(key@, outcome_view(outcome));
            if self@.in_flight(key@) {
                self@.lemma_complete_state(key@, outcome_view(outcome));
            }
        }
        match self.pending_slot(key) {
            Some(i) => {
                let ghost pending_before = self.pending@;
                let ghost resolved_before = self.resolved@;
                let mut pending: Vec<BuildKey> = Vec::new();
                let mut resolved: Vec<Resolved> = Vec::new();
                core::mem::swap(&mut self.pending, &mut pending);
                core::mem::swap(&mut self.resolved, &mut resolved);
                let _ = pending.remove(i);
                assert(key_views(pending@) =~= key_views(pending_before).remove(i as int));
                if resolved.len() >= self.capacity {
                    let _ = resolved.remove(0);
                    assert(resolved_views(resolved@) =~= resolved_views(
                        resolved_before,
                    ).drop_first());
                }
                let ghost roomy = resolved@;
                resolved.push(Resolved { key: key.duplicate(), outcome });
                assert(resolved_views(resolved@) =~= resolved_views(roomy).push(
                    ResolvedView { key: key@, outcome: outcome_view(outcome) },
                ));
                self.resolved = resolved;
                self.pending = pending;
                true
            },
            None => false,
        }
    }

    /// Asks for `key` as `begin` does, on behalf of a caller that has
    /// already waited for `waited` and will not wait longer than `limit`:
    /// where `begin` would say wait and the bound is reached, the caller
    /// gets `CacheUnavailable` instead. No other error comes from here; how
    /// a build ended is part of the ticket.
    pub fn request(&mut self, key: &BuildKey, waited: u64, limit: Option<u64>) -> (r: Result<
        Ticket,
        Error,
    >)
        ensures
            final(self)@ == old(self)@.begin(key@),
            final(self)@.wf(),
            match timed(old(self)@.ticket(key@), limit, waited) {
                Ok(ticket) => r matches Ok(t) && t@ == ticket,
                Err(error) => r matches Err(e) && e@ == error,
            },
    {
        let ticket = self.begin(key);
        match ticket {
            Ticket::Wait => {
                let late = match limit {
                    Some(bound) => waited >= bound,
                    None => false,
                };
                if late {
                    Err(Error::CacheUnavailable)
                } else {
                    Ok(Ticket::Wait)
                }
            },
            other => Ok(other),
        }
    }

    /// The outcome of the build for `key`, built with `build_fn` if the
    /// cache does not hold it. `build_fn` runs only if the key is absent,
    /// and then its outcome, success or failure, is recorded for good. A
    /// key that another caller is building is answered as unavailable.
    pub fn get_or_build<F: FnOnce() -> Result<BuildResult, Error>>(
        &mut self,
        key: &BuildKey,
        build_fn: F,
    ) -> (r: Result<BuildResult, Error>)
        requires
            build_fn.requires(()),
        ensures
            final(self)@.wf(),
            match old(self)@.ticket(key@) {
                TicketView::Build => exists|built: Result<BuildResult, Error>|
                    build_fn.ensures((), built) && (final(self)@, outcome_view(r))
                        == old(self)@.served(key@, #[trigger] outcome_view(built)),
                _ => forall|built: OutcomeView|
                    (final(self)@, outcome_view(r)) == #[trigger] old(self)@.served(key@, built),
            },
    {
        match self.begin(key) {
            Ticket::Done(outcome) => outcome,
            Ticket::Wait => Err(Error::CacheUnavailable),
            Ticket::Build => {
                let built = build_fn();
                let kept = copy_outcome(&built);
                let _ = self.complete(key, kept);
                built
            },
        }
    }
}

} // verus!
