//! What is known of each queued track, kept beside the queue: a track read
//! from a cached file carries no metadata of its own.
use vstd::prelude::*;
use std::collections::HashMap;
use crate::queue_text::TrackInfo;

verus! {

broadcast use vstd::std_specs::hash::group_hash_axioms;

/// Metadata of a queued track.
pub struct TrackMeta {
    pub title: Option<String>,
    pub source_url: Option<String>,
    pub duration_secs: Option<u64>,
}

fn copy_text(t: &Option<String>) -> (r: Option<String>)
    ensures
        r == *t,
{
    match t {
        Some(s) => Some(s.clone()),
        None => None,
    }
}

/// Metadata by track identifier.
pub struct TrackTable {
    entries: HashMap<u128, TrackMeta>,
}

impl View for TrackTable {
    type V = Map<u128, TrackMeta>;

    closed spec fn view(&self) -> Map<u128, TrackMeta> {
        self.entries@
    }
}

impl TrackTable {
    pub fn new() -> (r: TrackTable)
        ensures
            r@ == Map::<u128, TrackMeta>::empty(),
    {
        TrackTable { entries: HashMap::new() }
    }

    /// Attaches `meta` to track `id`, replacing what was attached before.
    pub fn attach(&mut self, id: u128, meta: TrackMeta)
        ensures
            final(self)@ == old(self)@.insert(id, meta),
    {
        self.entries.insert(id, meta);
    }

    /// Forgets track `id`.
    pub fn detach(&mut self, id: u128)
        ensures
            final(self)@ == old(self)@.remove(id),
    {
        self.entries.remove(&id);
    }

    /// The title attached to track `id`.
    pub fn title(&self, id: u128) -> (r: Option<String>)
        ensures
            r == (if self@.contains_key(id) { self@[id].title } else { None::<String> }),
    {
        match self.entries.get(&id) {
            Some(m) => copy_text(&m.title),
            None => None,
        }
    }

    /// What the queue text shows of track `id`: its title and duration, both
    /// unknown when nothing is attached.
    pub fn info(&self, id: u128) -> (r: TrackInfo)
        ensures
            self@.contains_key(id) ==> r.title == self@[id].title && r.duration_secs == self@[id].duration_secs,
            !self@.contains_key(id) ==> r.title is None && r.duration_secs is None,
    {
        match self.entries.get(&id) {
            Some(m) => TrackInfo { title: copy_text(&m.title), duration_secs: m.duration_secs },
            None => TrackInfo { title: None, duration_secs: None },
        }
    }
}

} // verus!
