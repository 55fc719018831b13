//! The frame sink: for each remote participant the most recent decoded
//! frame, held until the host takes it.

use vstd::prelude::*;
use std::collections::HashMap;

verus! {

broadcast use vstd::std_specs::hash::group_hash_axioms;

/// What the sink holds after a frame arrived for `id`: that frame under `id`,
/// whatever was there before, and every other entry unchanged.
pub open spec fn after_push<F>(frames: Map<u32, F>, id: u32, frame: F) -> Map<u32, F> {
    frames.insert(id, frame)
}

/// What a reader gets for `id`: the frame held for it, if any.
pub open spec fn taken<F>(frames: Map<u32, F>, id: u32) -> Option<F> {
    if frames.contains_key(id) {
        Some(frames[id])
    } else {
        None
    }
}

/// What the sink holds after a reader asked for `id`: nothing under `id`, and
/// every other entry unchanged.
pub open spec fn after_pop<F>(frames: Map<u32, F>, id: u32) -> Map<u32, F> {
    frames.remove(id)
}

/// The last frame written for an identifier is the one that is read: of two
/// frames pushed for the same identifier a reader gets the second, and after
/// that read nothing is left for the identifier.
pub proof fn lemma_last_write_wins<F>(frames: Map<u32, F>, id: u32, first: F, second: F)
    ensures
        taken(after_push(after_push(frames, id, first), id, second), id) == Some(second),
        taken(after_pop(after_push(after_push(frames, id, first), id, second), id), id)
            == None::<F>,
        after_push(after_push(frames, id, first), id, second) == after_push(frames, id, second),
{
    assert(frames.insert(id, first).insert(id, second) =~= frames.insert(id, second));
}

/// A frame is read at most once per write: after a read, a second read for
/// the same identifier finds nothing.
pub proof fn lemma_read_removes<F>(frames: Map<u32, F>, id: u32)
    ensures
        taken(after_pop(frames, id), id) == None::<F>,
        forall|other: u32| other != id ==> taken(after_pop(frames, id), other) == taken(frames, other),
{
}

/// A frame for one identifier does not disturb what is held for another.
pub proof fn lemma_push_keeps_others<F>(frames: Map<u32, F>, id: u32, frame: F, other: u32)
    requires
        other != id,
    ensures
        taken(after_push(frames, id, frame), other) == taken(frames, other),
{
}

/// A single-slot mailbox per demultiplexing identifier.
pub struct LastFramesVideoSink<F> {
    last_frame_by_track_id: HashMap<u32, F>,
}

impl<F> View for LastFramesVideoSink<F> {
    type V = Map<u32, F>;

    closed spec fn view(&self) -> Map<u32, F> {
        self.last_frame_by_track_id@
    }
}

impl<F> LastFramesVideoSink<F> {
    /// A sink that holds no frame.
    pub fn new() -> (sink: Self)
        ensures
            sink@ == Map::<u32, F>::empty(),
    {
        LastFramesVideoSink { last_frame_by_track_id: HashMap::new() }
    }

    /// Stores a frame for `track_id`, over any frame not yet read for it.
    pub fn on_video_frame(&mut self, track_id: u32, frame: F)
        ensures
            final(self)@ == after_push(old(self)@, track_id, frame),
    {
        self.last_frame_by_track_id.insert(track_id, frame);
    }

    /// Removes and returns the frame held for `track_id`, if there is one.
    pub fn pop(&mut self, track_id: u32) -> (frame: Option<F>)
        ensures
            frame == taken(old(self)@, track_id),
            final(self)@ == after_pop(old(self)@, track_id),
    {
        self.last_frame_by_track_id.remove(&track_id)
    }

    /// Drops every frame held.
    pub fn clear(&mut self)
        ensures
            final(self)@ == Map::<u32, F>::empty(),
    {
        self.last_frame_by_track_id.clear();
    }

    /// Whether a frame is held for `track_id`.
    pub fn has_frame(&self, track_id: u32) -> (held: bool)
        ensures
            held == self@.contains_key(track_id),
    {
        self.last_frame_by_track_id.contains_key(&track_id)
    }

    /// The number of identifiers for which a frame is held.
    pub fn len(&self) -> (count: usize)
        ensures
            count == self@.len(),
    {
        self.last_frame_by_track_id.len()
    }
}

} // verus!
