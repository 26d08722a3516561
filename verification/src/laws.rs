//! What holds of every request, stated over the model that the contracts of
//! `on_request`, `on_fetched` and `commit` speak of.

use vstd::prelude::*;
use crate::cache::{fresh_at, EntryView, CACHE_DURATION};
use crate::orchestrator::{decide, settle, slot_after, CompletionView, StepView};
use crate::reply::{failure_reply, payload_reply, ReplyView, STATUS_INTERNAL_SERVER_ERROR};
use crate::upstream::{failure_text, FetchErrorView};

verus! {

/// One request from arrival to reply: the slot it leaves, the reply it
/// gives, and how often it called the upstream.
pub struct Handled {
    pub slot: Option<EntryView>,
    pub reply: ReplyView,
    pub fetches: nat,
}

/// A request that arrives at `now` and finds `slot`. Where it fetches, the
/// upstream comes back with `outcome` at `fetched_at`; where it does not,
/// these two play no part.
pub open spec fn handle(
    slot: Option<EntryView>,
    now: nat,
    outcome: Result<Seq<char>, FetchErrorView>,
    fetched_at: nat,
) -> Handled {
    match decide(slot, now) {
        StepView::Serve(reply) => Handled { slot, reply, fetches: 0 },
        StepView::Fetch => {
            let done = settle(outcome, fetched_at);
            Handled { slot: slot_after(slot, done), reply: done.reply, fetches: 1 }
        },
    }
}

/// The slot once the completions in `done` have been carried out on it, one
/// after the other, first to last.
pub open spec fn slot_after_all(slot: Option<EntryView>, done: Seq<CompletionView>) -> Option<
    EntryView,
>
    decreases done.len(),
{
    if done.len() == 0 {
        slot
    } else {
        slot_after(slot_after_all(slot, done.drop_last()), done.last())
    }
}

/// The completions of fetches that all succeeded: the `i`-th came back with
/// `bodies[i]` at `stamps[i]`.
pub open spec fn completions(bodies: Seq<Seq<char>>, stamps: Seq<nat>) -> Seq<CompletionView> {
    Seq::new(bodies.len(), |i: int| settle(Ok(bodies[i]), stamps[i]))
}

/// An entry is fresh up to, and not at, `CACHE_DURATION` seconds after its
/// capture: one second before that it is fresh, at that second and one
/// second later it is stale.
pub proof fn law_freshness_window(entry: EntryView, now: nat)
    ensures
        fresh_at(entry, now) <==> now < entry.captured_at + CACHE_DURATION,
        now == entry.captured_at + CACHE_DURATION - 1 ==> fresh_at(entry, now),
        now == entry.captured_at + CACHE_DURATION ==> !fresh_at(entry, now),
        now == entry.captured_at + CACHE_DURATION + 1 ==> !fresh_at(entry, now),
{
}

/// A request that finds a fresh entry is answered with that entry's payload,
/// whole and unchanged, and with status 200. The upstream is not called and
/// the slot stays as it was, whatever the upstream would have said.
pub proof fn law_fresh_entry_is_served(
    entry: EntryView,
    now: nat,
    outcome: Result<Seq<char>, FetchErrorView>,
    fetched_at: nat,
)
    requires
        fresh_at(entry, now),
    ensures
        decide(Some(entry), now) == StepView::Serve(payload_reply(entry.data)),
        handle(Some(entry), now, outcome, fetched_at) == (Handled {
            slot: Some(entry),
            reply: payload_reply(entry.data),
            fetches: 0,
        }),
{
}

/// A request that finds a stale entry calls the upstream exactly once and
/// never serves the stale payload. Where the fetch succeeds, the reply is
/// the new body, and the slot then holds that body with the time of its
/// capture. On a clock that does not run backwards that time is not before
/// the request.
pub proof fn law_stale_entry_is_refetched(
    entry: EntryView,
    now: nat,
    body: Seq<char>,
    fetched_at: nat,
)
    requires
        !fresh_at(entry, now),
    ensures
        decide(Some(entry), now) == StepView::Fetch,
        handle(Some(entry), now, Ok(body), fetched_at) == (Handled {
            slot: Some(EntryView { data: body, captured_at: fetched_at }),
            reply: payload_reply(body),
            fetches: 1,
        }),
        now <= fetched_at ==> handle(Some(entry), now, Ok(body), fetched_at).slot->0.captured_at
            >= now,
{
}

/// A failed fetch changes nothing in the slot, whether it held an entry or
/// none. The reply has status 500 and a body that is not empty: the phrase
/// that tells the failure apart, then the cause. The stale payload is not
/// served in its place.
pub proof fn law_failed_fetch_keeps_slot(
    slot: Option<EntryView>,
    now: nat,
    error: FetchErrorView,
    fetched_at: nat,
)
    requires
        decide(slot, now) == StepView::Fetch,
    ensures
        slot_after(slot, settle(Err(error), fetched_at)) == slot,
        handle(slot, now, Err(error), fetched_at) == (Handled {
            slot,
            reply: failure_reply(failure_text(error)),
            fetches: 1,
        }),
        handle(slot, now, Err(error), fetched_at).reply.status == STATUS_INTERNAL_SERVER_ERROR,
        handle(slot, now, Err(error), fetched_at).reply.body.len() > 0,
{
    reveal_strlit("Error fetching data: ");
    reveal_strlit("Error reading response: ");
}

/// A request that finds the slot empty calls the upstream exactly once, at
/// whatever time it arrives.
pub proof fn law_empty_slot_fetches(
    now: nat,
    outcome: Result<Seq<char>, FetchErrorView>,
    fetched_at: nat,
)
    ensures
        decide(None, now) == StepView::Fetch,
        handle(None, now, outcome, fetched_at).fetches == 1,
{
}

/// Whatever completions are carried out on a slot, in whatever order, the
/// slot ends as it began or with the whole entry of one of them: nothing
/// else ever comes to stand in it. A slot that holds an entry is never
/// empty again.
pub proof fn law_slot_holds_whole_entry(slot: Option<EntryView>, done: Seq<CompletionView>)
    ensures
        slot_after_all(slot, done) == slot || exists|k: int|
            0 <= k < done.len() && #[trigger] done[k].store is Some && slot_after_all(slot, done)
                == done[k].store,
        slot is Some ==> slot_after_all(slot, done) is Some,
    decreases done.len(),
{
    if done.len() > 0 {
        let before = done.drop_last();
        law_slot_holds_whole_entry(slot, before);
        let last = done.len() - 1;
        if done[last].store is Some {
            assert(slot_after_all(slot, done) == done[last].store);
        } else if slot_after_all(slot, before) != slot {
            let k = choose|k: int|
                0 <= k < before.len() && #[trigger] before[k].store is Some && slot_after_all(
                    slot,
                    before,
                ) == before[k].store;
            assert(done[k] == before[k]);
        }
    }
}

/// Any number of requests that arrive while the slot is empty all fetch,
/// and where all their fetches succeed each is answered with the body of
/// its own fetch. Their completions reach the slot one at a time, in an
/// order that nothing fixes; the slot ends with the body and the capture
/// time of one and the same fetch, the one that was carried out last.
pub proof fn law_refreshes_on_empty_slot(
    arrivals: Seq<nat>,
    bodies: Seq<Seq<char>>,
    stamps: Seq<nat>,
)
    requires
        0 < bodies.len(),
        bodies.len() == stamps.len(),
        bodies.len() == arrivals.len(),
    ensures
        forall|i: int|
            0 <= i < arrivals.len() ==> decide(None, #[trigger] arrivals[i]) == StepView::Fetch,
        forall|i: int|
            0 <= i < bodies.len() ==> (#[trigger] completions(bodies, stamps)[i]).reply
                == payload_reply(bodies[i]),
        slot_after_all(None, completions(bodies, stamps)) == Some(
            EntryView { data: bodies.last(), captured_at: stamps.last() },
        ),
{
}

} // verus!
