use proxy_cache::cache::{CacheEntry, CacheSlot, CACHE_DURATION};
use proxy_cache::orchestrator::{commit, on_fetched, on_request, Completion, Step};
use proxy_cache::reply::Reply;
use proxy_cache::upstream::FetchError;

const TEXT: &str = "text/plain; charset=utf-8";

/// An upstream that answers from a script and counts how often it is asked.
struct Upstream {
    answers: Vec<Result<String, FetchError>>,
    calls: usize,
}

impl Upstream {
    fn new(answers: Vec<Result<String, FetchError>>) -> Upstream {
        Upstream { answers, calls: 0 }
    }

    fn fetch(&mut self) -> Result<String, FetchError> {
        let answer = self.answers[self.calls].clone();
        self.calls += 1;
        answer
    }
}

/// One request, start to end: the fetch takes no time.
fn request(slot: &mut CacheSlot, upstream: &mut Upstream, now: u64) -> Reply {
    match on_request(slot, now) {
        Step::Serve(reply) => reply,
        Step::Fetch => {
            let outcome = upstream.fetch();
            commit(slot, on_fetched(outcome, now))
        }
    }
}

fn entry(data: &str, captured_at: u64) -> CacheEntry {
    CacheEntry { data: data.to_string(), captured_at }
}

fn slot_with(data: &str, captured_at: u64) -> CacheSlot {
    let mut slot = CacheSlot::new();
    slot.write(entry(data, captured_at));
    slot
}

fn body(text: &str) -> Result<String, FetchError> {
    Ok(text.to_string())
}

fn ok(payload: &str) -> Reply {
    Reply { status: 200, content_type: TEXT, body: payload.to_string() }
}

fn failed(message: &str) -> Reply {
    Reply { status: 500, content_type: TEXT, body: message.to_string() }
}

#[test]
fn fresh_hit_makes_no_upstream_call() {
    let captured = 5_000;
    let mut slot = slot_with("held payload", captured);
    let mut upstream = Upstream::new(vec![body("never asked for")]);
    let reply = request(&mut slot, &mut upstream, captured + CACHE_DURATION - 1);
    assert_eq!(reply, ok("held payload"));
    assert_eq!(upstream.calls, 0);
    assert_eq!(slot.read(), Some(entry("held payload", captured)));
}

#[test]
fn fresh_hit_is_decided_without_a_fetch_step() {
    let slot = slot_with("held payload", 5_000);
    let step = on_request(&slot, 5_000 + CACHE_DURATION - 1);
    assert_eq!(step, Step::Serve(ok("held payload")));
}

#[test]
fn stale_entry_triggers_one_refetch() {
    let captured = 5_000;
    let arrival = captured + CACHE_DURATION + 1;
    let mut slot = slot_with("old", captured);
    let mut upstream = Upstream::new(vec![body("new")]);
    assert_eq!(on_request(&slot, arrival), Step::Fetch);
    let reply = request(&mut slot, &mut upstream, arrival);
    assert_eq!(upstream.calls, 1);
    assert_eq!(reply, ok("new"));
    let held = slot.read().unwrap();
    assert_eq!(held.data, "new");
    assert!(held.captured_at >= arrival);
}

#[test]
fn refetched_entry_is_stamped_with_the_time_of_capture() {
    let mut slot = slot_with("old", 0);
    assert_eq!(on_request(&slot, 601), Step::Fetch);
    let reply = commit(&mut slot, on_fetched(body("new"), 604));
    assert_eq!(reply.body, "new");
    assert_eq!(slot.read(), Some(entry("new", 604)));
}

#[test]
fn entry_is_stale_at_the_very_second_of_expiry() {
    let slot = slot_with("old", 5_000);
    assert_eq!(on_request(&slot, 5_000 + CACHE_DURATION), Step::Fetch);
}

#[test]
fn transport_failure_keeps_the_old_entry() {
    let captured = 5_000;
    let mut slot = slot_with("old", captured);
    let mut upstream =
        Upstream::new(vec![Err(FetchError::Transport("connection refused".to_string()))]);
    let reply = request(&mut slot, &mut upstream, captured + CACHE_DURATION + 1);
    assert_eq!(upstream.calls, 1);
    assert_eq!(reply.status, 500);
    assert_eq!(reply.body, "Error fetching data: connection refused");
    assert_eq!(slot.read(), Some(entry("old", captured)));
}

#[test]
fn body_read_failure_keeps_the_old_entry() {
    let captured = 5_000;
    let mut slot = slot_with("old", captured);
    let mut upstream =
        Upstream::new(vec![Err(FetchError::BodyRead("error decoding body".to_string()))]);
    let reply = request(&mut slot, &mut upstream, captured + CACHE_DURATION + 1);
    assert_eq!(upstream.calls, 1);
    assert_eq!(reply.status, 500);
    assert_eq!(reply.body, "Error reading response: error decoding body");
    assert_eq!(slot.read(), Some(entry("old", captured)));
}

#[test]
fn failed_fetch_does_not_serve_the_stale_payload() {
    let mut slot = slot_with("old", 0);
    let mut upstream = Upstream::new(vec![Err(FetchError::Transport("timed out".to_string()))]);
    let reply = request(&mut slot, &mut upstream, 601);
    assert_ne!(reply.body, "old");
    assert_ne!(reply.status, 200);
}

#[test]
fn failed_fetch_is_tried_again_by_the_next_request() {
    let mut slot = slot_with("old", 0);
    let mut upstream = Upstream::new(vec![
        Err(FetchError::Transport("timed out".to_string())),
        body("new"),
    ]);
    assert_eq!(request(&mut slot, &mut upstream, 601).status, 500);
    assert_eq!(upstream.calls, 1);
    let reply = request(&mut slot, &mut upstream, 602);
    assert_eq!(upstream.calls, 2);
    assert_eq!(reply, ok("new"));
    assert_eq!(slot.read(), Some(entry("new", 602)));
}

#[test]
fn failed_fetch_on_an_empty_slot_leaves_it_empty() {
    let mut slot = CacheSlot::new();
    let mut upstream = Upstream::new(vec![Err(FetchError::BodyRead("cut off".to_string()))]);
    let reply = request(&mut slot, &mut upstream, 10);
    assert_eq!(reply, failed("Error reading response: cut off"));
    assert_eq!(slot.read(), None);
}

#[test]
fn empty_slot_fetches_once_at_any_time() {
    for now in [0, 1, 599, 600, 601, 1_000_000, u64::MAX] {
        let mut slot = CacheSlot::new();
        assert_eq!(on_request(&slot, now), Step::Fetch);
        let mut upstream = Upstream::new(vec![body("first")]);
        let reply = request(&mut slot, &mut upstream, now);
        assert_eq!(upstream.calls, 1);
        assert_eq!(reply, ok("first"));
        assert_eq!(slot.read(), Some(entry("first", now)));
    }
}

#[test]
fn requests_that_all_find_the_slot_empty_each_succeed() {
    let mut slot = CacheSlot::new();
    let bodies = ["a", "b", "c", "d", "e"];
    // All arrive before any fetch has come back.
    for arrival in 0..bodies.len() {
        assert_eq!(on_request(&slot, arrival as u64), Step::Fetch);
    }
    // The fetches come back in another order than the requests arrived in.
    let order = [3, 0, 4, 1, 2];
    let mut seen = Vec::new();
    for (turn, &who) in order.iter().enumerate() {
        let stamp = 10 + turn as u64;
        let reply = commit(&mut slot, on_fetched(body(bodies[who]), stamp));
        assert_eq!(reply, ok(bodies[who]));
        let held = slot.read().unwrap();
        assert_eq!(held, entry(bodies[who], stamp));
        seen.push(held);
    }
    let last = slot.read().unwrap();
    assert_eq!(last, entry("c", 14));
    assert!(seen.contains(&last));
}

#[test]
fn late_failure_does_not_undo_an_earlier_refresh() {
    let mut slot = CacheSlot::new();
    assert_eq!(on_request(&slot, 0), Step::Fetch);
    assert_eq!(on_request(&slot, 0), Step::Fetch);
    assert_eq!(commit(&mut slot, on_fetched(body("a"), 1)).status, 200);
    let late = on_fetched(Err(FetchError::Transport("reset".to_string())), 2);
    assert_eq!(commit(&mut slot, late).status, 500);
    assert_eq!(slot.read(), Some(entry("a", 1)));
}

#[test]
fn scenario_with_ttl_of_600_seconds() {
    assert_eq!(CACHE_DURATION, 600);
    let mut slot = CacheSlot::new();
    let mut upstream = Upstream::new(vec![body("A"), body("B")]);

    let reply = request(&mut slot, &mut upstream, 0);
    assert_eq!(upstream.calls, 1);
    assert_eq!(reply.body, "A");
    assert_eq!(slot.read().unwrap().captured_at, 0);

    let reply = request(&mut slot, &mut upstream, 500);
    assert_eq!(reply.body, "A");
    assert_eq!(reply.status, 200);
    assert_eq!(upstream.calls, 1);

    let reply = request(&mut slot, &mut upstream, 700);
    assert_eq!(upstream.calls, 2);
    assert_eq!(reply.body, "B");
    assert_eq!(reply.status, 200);
    assert_eq!(slot.read().unwrap().captured_at, 700);
    assert_eq!(slot.read().unwrap().data, "B");
}

#[test]
fn completion_of_a_success_stores_and_hands_out_the_body() {
    let done = on_fetched(body("payload"), 77);
    assert_eq!(
        done,
        Completion {
            store: Some(entry("payload", 77)),
            reply: ok("payload"),
        }
    );
}

#[test]
fn completion_of_a_failure_stores_nothing() {
    let done = on_fetched(Err(FetchError::Transport("dns".to_string())), 77);
    assert_eq!(
        done,
        Completion {
            store: None,
            reply: failed("Error fetching data: dns"),
        }
    );
}

#[test]
fn empty_body_is_a_payload_like_any_other() {
    let mut slot = CacheSlot::new();
    let reply = commit(&mut slot, on_fetched(body(""), 3));
    assert_eq!(reply, ok(""));
    assert_eq!(slot.read(), Some(entry("", 3)));
    assert_eq!(on_request(&slot, 4), Step::Serve(ok("")));
}

#[test]
fn every_reply_is_plain_text() {
    let mut slot = CacheSlot::new();
    let fetched = commit(&mut slot, on_fetched(body("payload"), 0));
    assert_eq!(fetched.content_type, "text/plain; charset=utf-8");
    match on_request(&slot, 1) {
        Step::Serve(served) => assert_eq!(served.content_type, "text/plain; charset=utf-8"),
        Step::Fetch => panic!("a fresh entry was not served"),
    }
    let down = on_fetched(Err(FetchError::Transport("down".to_string())), 2);
    assert_eq!(down.reply.content_type, "text/plain; charset=utf-8");
}

#[test]
fn on_request_does_not_change_the_slot() {
    let slot = slot_with("held", 100);
    let before = slot.read();
    let _ = on_request(&slot, 200);
    let _ = on_request(&slot, 2_000);
    assert_eq!(slot.read(), before);
}
