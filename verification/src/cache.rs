//! The cache slot: at most one captured payload, and the freshness rule.

use vstd::prelude::*;

verus! {

/// Seconds for which a captured payload may be served.
pub const CACHE_DURATION: u64 = 600;

/// One captured upstream payload and the second, on a monotonic clock, at
/// which it was captured.
#[derive(Clone, Debug, PartialEq, Eq)]
pub struct CacheEntry {
    pub data: String,
    pub captured_at: u64,
}

/// What a `CacheEntry` stands for.
pub struct EntryView {
    pub data: Seq<char>,
    pub captured_at: nat,
}

impl View for CacheEntry {
    type V = EntryView;

    open spec fn view(&self) -> EntryView {
        EntryView { data: self.data@, captured_at: self.captured_at as nat }
    }
}

/// An entry is fresh while its age is below `CACHE_DURATION`. The age is
/// `now - captured_at` over the integers, so an entry captured after `now`
/// is fresh as well.
pub open spec fn fresh_at(entry: EntryView, now: nat) -> bool {
    now - entry.captured_at < CACHE_DURATION
}

/// The view of an entry that may be absent.
pub open spec fn held_view(held: Option<CacheEntry>) -> Option<EntryView> {
    match held {
        Some(entry) => Some(entry@),
        None => None,
    }
}

impl CacheEntry {
    /// Whether this entry may still be served at `now`.
    pub fn is_fresh(&self, now: u64) -> (fresh: bool)
        ensures
            fresh == fresh_at(self@, now as nat),
    {
        now < self.captured_at || now - self.captured_at < CACHE_DURATION
    }
}

/// Holds zero or one entry. It starts empty, and the only change it knows is
/// the replacement of whatever it holds by a whole new entry.
#[derive(Debug)]
pub struct CacheSlot {
    entry: Option<CacheEntry>,
}

impl View for CacheSlot {
    type V = Option<EntryView>;

    closed spec fn view(&self) -> Option<EntryView> {
        held_view(self.entry)
    }
}

impl CacheSlot {
    /// An empty slot.
    pub fn new() -> (slot: CacheSlot)
        ensures
            slot@ is None,
    {
        CacheSlot { entry: None }
    }

    /// The entry held, borrowed.
    pub fn peek(&self) -> (held: Option<&CacheEntry>)
        ensures
            match held {
                Some(entry) => self@ == Some(entry@),
                None => self@ is None,
            },
    {
        self.entry.as_ref()
    }

    /// A copy of the entry held. The slot is left as it is.
    pub fn read(&self) -> (held: Option<CacheEntry>)
        ensures
            held_view(held) == self@,
    {
        match &self.entry {
            Some(entry) => Some(
                CacheEntry { data: entry.data.clone(), captured_at: entry.captured_at },
            ),
            None => None,
        }
    }

    /// Replaces whatever is held by `entry`.
    pub fn write(&mut self, entry: CacheEntry)
        ensures
            final(self)@ == Some(entry@),
    {
        self.entry = Some(entry);
    }
}

} // verus!
