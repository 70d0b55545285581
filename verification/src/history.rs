//! Histories of requests against the build cache, and what holds of every
//! one of them.

use vstd::prelude::*;
use crate::model::{BuildKeyView, CacheView, OutcomeView, TicketView};

verus! {

/// One thing that happens to a cache.
pub enum Event {
    /// A caller asks for a key.
    Ask(BuildKeyView),
    /// A builder reports how the build for a key ended.
    Report(BuildKeyView, OutcomeView),
}

impl Event {
    /// The key that the event is about.
    pub open spec fn key(self) -> BuildKeyView {
        match self {
            Event::Ask(key) => key,
            Event::Report(key, _) => key,
        }
    }

    /// Whether the event reports the end of the build for `key`.
    pub open spec fn reports(self, key: BuildKeyView) -> bool {
        self is Report && self.key() == key
    }
}

/// The cache after `event`.
pub open spec fn step(cache: CacheView, event: Event) -> CacheView {
    match event {
        Event::Ask(key) => cache.begin(key),
        Event::Report(key, outcome) => cache.complete(key, outcome),
    }
}

/// The cache after every event of `history`, in order.
pub open spec fn run(cache: CacheView, history: Seq<Event>) -> CacheView
    decreases history.len(),
{
    if history.len() == 0 {
        cache
    } else {
        step(run(cache, history.drop_last()), history.last())
    }
}

/// How many callers of `history` were told to build `key`.
pub open spec fn builds(cache: CacheView, history: Seq<Event>, key: BuildKeyView) -> nat
    decreases history.len(),
{
    if history.len() == 0 {
        0
    } else {
        let before = run(cache, history.drop_last());
        let told: nat = if history.last() == Event::Ask(key) && before.ticket(key) is Build {
            1
        } else {
            0
        };
        builds(cache, history.drop_last(), key) + told
    }
}

/// Whether some caller of `history` asks for `key`.
pub open spec fn asked(history: Seq<Event>, key: BuildKeyView) -> bool {
    exists|i: int| 0 <= i < history.len() && history[i] == Event::Ask(key)
}

/// Whether no event of `history` reports the end of the build for `key`.
pub open spec fn unreported(history: Seq<Event>, key: BuildKeyView) -> bool {
    forall|i: int| 0 <= i < history.len() ==> !(#[trigger] history[i]).reports(key)
}

/// Every history leaves the cache well-formed.
pub proof fn lemma_run_wf(cache: CacheView, history: Seq<Event>)
    requires
        cache.wf(),
    ensures
        run(cache, history).wf(),
    decreases history.len(),
{
    if history.len() > 0 {
        let before = run(cache, history.drop_last());
        lemma_run_wf(cache, history.drop_last());
        match history.last() {
            Event::Ask(key) => before.lemma_begin_wf(key),
            Event::Report(key, outcome) => before.lemma_complete_wf(key, outcome),
        }
    }
}

/// However many callers ask for the same key while its build has not been
/// reported to end, and whatever happens to other keys meanwhile, at most
/// one of them is told to build. If the key was absent at the start and
/// anybody asks for it, exactly one is; if its build was already in flight,
/// none is. The build is then still in flight at the end.
pub proof fn law_single_flight(cache: CacheView, history: Seq<Event>, key: BuildKeyView)
    requires
        cache.wf(),
        unreported(history, key),
    ensures
        builds(cache, history, key) <= 1,
        builds(cache, history, key) == 1 ==> run(cache, history).in_flight(key),
        cache.in_flight(key) ==> builds(cache, history, key) == 0 && run(cache, history).in_flight(
            key,
        ),
        cache.ticket(key) is Build && asked(history, key) ==> builds(cache, history, key) == 1,
        cache.ticket(key) is Build && !asked(history, key) ==> run(cache, history).ticket(key)
            is Build,
    decreases history.len(),
{
    if history.len() > 0 {
        let prefix = history.drop_last();
        let event = history.last();
        let before = run(cache, prefix);
        law_single_flight(cache, prefix, key);
        lemma_run_wf(cache, prefix);
        if asked(history, key) && event != Event::Ask(key) {
            let i: int = choose|i: int|
                0 <= i < history.len() && history[i] == Event::Ask(key);
            assert(prefix[i] == Event::Ask(key));
        }
        if event == Event::Ask(key) {
            before.lemma_begin_state(key);
        } else {
            match event {
                Event::Ask(other) => {
                    before.lemma_begin_other(other, key);
                },
                Event::Report(other, outcome) => {
                    before.lemma_complete_other(other, outcome, key);
                },
            }
        }
    }
}

/// How many times the outcome held for `key` is given up in the course of
/// `history`, so that the next caller would be told to build.
pub open spec fn evictions(cache: CacheView, history: Seq<Event>, key: BuildKeyView) -> nat
    decreases history.len(),
{
    if history.len() == 0 {
        0
    } else {
        let before = run(cache, history.drop_last());
        let lost: nat = if before.settled(key) && run(cache, history).ticket(key) is Build {
            1
        } else {
            0
        };
        evictions(cache, history.drop_last(), key) + lost
    }
}

/// Whether the cache knows of `key`: its build is in flight or has ended.
pub open spec fn known(cache: CacheView, key: BuildKeyView) -> bool {
    !(cache.ticket(key) is Build)
}

/// Over any history at all, a key is built once, and once more only each
/// time its outcome has been given up to make room: every caller told to
/// build found the key unknown, and a known key becomes unknown by
/// eviction alone.
pub proof fn law_rebuilt_only_after_eviction(
    cache: CacheView,
    history: Seq<Event>,
    key: BuildKeyView,
)
    requires
        cache.wf(),
    ensures
        builds(cache, history, key) + (if known(cache, key) {
            1nat
        } else {
            0nat
        }) == evictions(cache, history, key) + (if known(run(cache, history), key) {
            1nat
        } else {
            0nat
        }),
        builds(cache, history, key) <= 1 + evictions(cache, history, key),
    decreases history.len(),
{
    if history.len() > 0 {
        let prefix = history.drop_last();
        let before = run(cache, prefix);
        law_rebuilt_only_after_eviction(cache, prefix, key);
        lemma_run_wf(cache, prefix);
        match history.last() {
            Event::Ask(asked) => {
                if asked == key {
                    before.lemma_begin_state(key);
                } else {
                    before.lemma_begin_other(asked, key);
                }
            },
            Event::Report(reported, outcome) => {
                if reported == key {
                    if before.in_flight(key) {
                        before.lemma_complete_state(key, outcome);
                    }
                } else {
                    before.lemma_complete_other(reported, outcome, key);
                }
            },
        }
    }
}

/// Asking twice in a row for the same key gives the same outcome both
/// times, and the second answer owes nothing to a second build: whatever
/// `second` a build would give then plays no part.
pub proof fn law_repeat_request(
    cache: CacheView,
    key: BuildKeyView,
    first: OutcomeView,
    second: OutcomeView,
)
    requires
        cache.wf(),
    ensures
        cache.served(key, first).0.wf(),
        cache.served(key, first).0.served(key, second).1 == cache.served(key, first).1,
        !(cache.served(key, first).0.ticket(key) is Build),
{
    cache.lemma_begin_wf(key);
    cache.lemma_begin_state(key);
    if cache.ticket(key) is Build {
        cache.begin(key).lemma_complete_wf(key, first);
        cache.begin(key).lemma_complete_state(key, first);
    }
}

/// What happens to one key never makes the callers of another wait, and
/// never ends or gives up a build in flight for another: after any event
/// about a different key, `key` is in flight if and only if it was, and a
/// caller that would have been told to build it still is.
pub proof fn law_keys_do_not_block(cache: CacheView, event: Event, key: BuildKeyView)
    requires
        cache.wf(),
        event.key() != key,
    ensures
        step(cache, event).in_flight(key) == cache.in_flight(key),
        step(cache, event).ticket(key) is Wait <==> cache.ticket(key) is Wait,
        cache.ticket(key) is Build ==> step(cache, event).ticket(key) is Build,
{
    match event {
        Event::Ask(other) => {
            cache.lemma_begin_other(other, key);
        },
        Event::Report(other, outcome) => {
            cache.lemma_complete_other(other, outcome, key);
        },
    }
}

/// The cache after callers have asked for `keys`, in order.
pub open spec fn asked_for(cache: CacheView, keys: Seq<BuildKeyView>) -> CacheView
    decreases keys.len(),
{
    if keys.len() == 0 {
        cache
    } else {
        asked_for(cache, keys.drop_last()).begin(keys.last())
    }
}

/// Once the end of a build in flight has been reported, every caller that
/// asks for its key gets the reported outcome, success or failure alike,
/// however many callers ask and whatever keys the others ask for: asking
/// never gives up an outcome.
pub proof fn law_callers_share_outcome(
    cache: CacheView,
    key: BuildKeyView,
    outcome: OutcomeView,
    keys: Seq<BuildKeyView>,
)
    requires
        cache.wf(),
        cache.in_flight(key),
    ensures
        asked_for(cache.complete(key, outcome), keys).wf(),
        asked_for(cache.complete(key, outcome), keys).ticket(key) == TicketView::Done(outcome),
    decreases keys.len(),
{
    let reported = cache.complete(key, outcome);
    if keys.len() == 0 {
        cache.lemma_complete_wf(key, outcome);
        cache.lemma_complete_state(key, outcome);
    } else {
        law_callers_share_outcome(cache, key, outcome, keys.drop_last());
        let before = asked_for(reported, keys.drop_last());
        before.lemma_begin_wf(keys.last());
        if keys.last() == key {
            before.lemma_begin_state(key);
        } else {
            before.lemma_begin_other(keys.last(), key);
        }
    }
}

} // verus!
