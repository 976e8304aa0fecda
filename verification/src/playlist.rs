use vstd::prelude::*;
use std::collections::VecDeque;
use crate::track::Track;

verus! {

/// The per-guild queue: pending tracks in first-in, first-out order, and a
/// single slot for the track being played. While the player is not in its
/// ended state the current slot is populated; once it ends with the queue
/// empty, the slot is cleared.
#[derive(Debug)]
pub struct Playlist {
    pub tracks: VecDeque<Track>,
    pub current: Option<Track>,
}

impl Playlist {
    /// An empty queue with nothing playing.
    pub fn new() -> (r: Self)
        ensures
            r.tracks@ =~= Seq::<Track>::empty(),
            r.current is None,
    {
        Playlist { tracks: VecDeque::new(), current: None }
    }

    /// Appends a pending track at the tail of the queue.
    pub fn add(&mut self, track: Track)
        ensures
            final(self).tracks@ == old(self).tracks@.push(track),
            final(self).current == old(self).current,
    {
        self.tracks.push_back(track);
    }

    /// The pending track at `index`, if the queue is that long. The current
    /// slot is not part of the pending queue and has no index.
    pub fn get(&self, index: usize) -> (r: Option<&Track>)
        ensures
            r == (if index < self.tracks@.len() {
                Some(&self.tracks@[index as int])
            } else {
                None::<&Track>
            }),
    {
        if index < self.tracks.len() {
            Some(&self.tracks[index])
        } else {
            None
        }
    }
}

} // verus!
