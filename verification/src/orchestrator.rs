//! The refresh decisions. A request is served in at most two steps, with the
//! upstream fetch, which this library does not perform, between them:
//! `on_request` looks at the slot and either answers or asks for a fetch;
//! `on_fetched` takes what the fetch came back with and says what to store
//! and what to answer. No lock needs to be held while the fetch is under way.

use vstd::prelude::*;
use crate::cache::{fresh_at, held_view, CacheEntry, CacheSlot, EntryView};
use crate::reply::{failure_reply, payload_reply, Reply, ReplyView};
use crate::upstream::{failure_text, outcome_view, FetchError, FetchErrorView};

verus! {

/// What to do for a request that has just arrived.
#[derive(Clone, Debug, PartialEq, Eq)]
pub enum Step {
    /// Answer with this reply. The upstream is not called.
    Serve(Reply),
    /// Fetch from the upstream once, then hand the outcome to `on_fetched`.
    Fetch,
}

/// What a `Step` stands for.
pub enum StepView {
    Serve(ReplyView),
    Fetch,
}

impl View for Step {
    type V = StepView;

    open spec fn view(&self) -> StepView {
        match self {
            Step::Serve(reply) => StepView::Serve(reply@),
            Step::Fetch => StepView::Fetch,
        }
    }
}

/// How a request that fetched ends: the entry to put into the slot, if any,
/// and the reply.
#[derive(Clone, Debug, PartialEq, Eq)]
pub struct Completion {
    pub store: Option<CacheEntry>,
    pub reply: Reply,
}

/// What a `Completion` stands for.
pub struct CompletionView {
    pub store: Option<EntryView>,
    pub reply: ReplyView,
}

impl View for Completion {
    type V = CompletionView;

    open spec fn view(&self) -> CompletionView {
        CompletionView { store: held_view(self.store), reply: self.reply@ }
    }
}

/// The step for a request that finds `slot` at `now`: a fresh entry is
/// served as it is; an empty slot or a stale entry asks for a fetch.
pub open spec fn decide(slot: Option<EntryView>, now: nat) -> StepView {
    match slot {
        Some(entry) => if fresh_at(entry, now) {
            StepView::Serve(payload_reply(entry.data))
        } else {
            StepView::Fetch
        },
        None => StepView::Fetch,
    }
}

/// The completion for a fetch that came back with `outcome` at `now`: a body
/// is stored, stamped `now`, and handed out; a failure stores nothing and is
/// reported.
pub open spec fn settle(outcome: Result<Seq<char>, FetchErrorView>, now: nat) -> CompletionView {
    match outcome {
        Ok(body) => CompletionView {
            store: Some(EntryView { data: body, captured_at: now }),
            reply: payload_reply(body),
        },
        Err(error) => CompletionView { store: None, reply: failure_reply(failure_text(error)) },
    }
}

/// The slot once `done` has been carried out on it: what `done` stores
/// takes the place of what was held; where it stores nothing the slot stays.
pub open spec fn slot_after(slot: Option<EntryView>, done: CompletionView) -> Option<EntryView> {
    match done.store {
        Some(entry) => Some(entry),
        None => slot,
    }
}

/// Decides what to do for a request that arrives at `now`. Only reads the
/// slot.
pub fn on_request(slot: &CacheSlot, now: u64) -> (step: Step)
    ensures
        step@ == decide(slot@, now as nat),
{
    match slot.peek() {
        Some(entry) => {
            if entry.is_fresh(now) {
                Step::Serve(Reply::ok(entry.data.clone()))
            } else {
                Step::Fetch
            }
        },
        None => Step::Fetch,
    }
}

/// Decides how a request ends whose fetch came back with `outcome` at `now`.
pub fn on_fetched(outcome: Result<String, FetchError>, now: u64) -> (done: Completion)
    ensures
        done@ == settle(outcome_view(outcome), now as nat),
{
    match outcome {
        Ok(body) => {
            let entry = CacheEntry { data: body.clone(), captured_at: now };
            Completion { store: Some(entry), reply: Reply::ok(body) }
        },
        Err(error) => Completion {
            store: None,
            reply: Reply::internal_server_error(error.message()),
        },
    }
}

/// Carries `done` out on the slot and gives its reply. The caller holds the
/// slot exclusively for the length of this call.
pub fn commit(slot: &mut CacheSlot, done: Completion) -> (reply: Reply)
    ensures
        final(slot)@ == slot_after(old(slot)@, done@),
        reply@ == done@.reply,
{
    let Completion { store, reply } = done;
    match store {
        Some(entry) => {
            slot.write(entry);
        },
        None => {},
    }
    reply
}

} // verus!
