//! What the bot shows of a track, and how it arranges the play queue.

use std::collections::VecDeque;
use vstd::prelude::*;

verus! {

/// A duration of `secs` whole seconds as whole minutes and the seconds left.
pub fn split_duration(secs: u64) -> (r: (u64, u64))
    ensures
        r.0 == secs / 60,
        r.1 == secs % 60,
        r.0 * 60 + r.1 == secs,
        r.1 < 60,
{
    (secs / 60, secs % 60)
}

/// What the bot reads of a track's metadata.
#[derive(Debug)]
pub struct TrackMetadata {
    pub track: Option<String>,
    pub title: Option<String>,
    pub artist: Option<String>,
    pub channel: Option<String>,
}

/// The first of `first` and `second` that is present, else `default`.
pub open spec fn first_present(
    first: Option<String>,
    second: Option<String>,
    default: Seq<char>,
) -> Seq<char> {
    match first {
        Some(s) => s@,
        None => match second {
            Some(s) => s@,
            None => default,
        },
    }
}

/// The title shown for a track: its track name, else its title, else
/// `Unknown Title`.
pub open spec fn title_of(m: TrackMetadata) -> Seq<char> {
    first_present(m.track, m.title, "Unknown Title"@)
}

/// The artist shown for a track: its artist, else its channel, else
/// `Unknown Artist`.
pub open spec fn artist_of(m: TrackMetadata) -> Seq<char> {
    first_present(m.artist, m.channel, "Unknown Artist"@)
}

/// The title shown for a track.
pub fn get_title(m: &TrackMetadata) -> (r: &str)
    ensures
        r@ == title_of(*m),
{
    match &m.track {
        Some(t) => t.as_str(),
        None => match &m.title {
            Some(t) => t.as_str(),
            None => "Unknown Title",
        },
    }
}

/// The artist shown for a track.
pub fn get_artist(m: &TrackMetadata) -> (r: &str)
    ensures
        r@ == artist_of(*m),
{
    match &m.artist {
        Some(a) => a.as_str(),
        None => match &m.channel {
            Some(c) => c.as_str(),
            None => "Unknown Artist",
        },
    }
}

/// How a track is named to users: `{title} by {artist}`.
pub fn _get_song(m: &TrackMetadata) -> (r: String)
    ensures
        r@ == title_of(*m) + " by "@ + artist_of(*m),
{
    let mut song = String::from_str(get_title(m));
    song.append(" by ");
    song.append(get_artist(m));
    song
}

/// `s`, or `d` where `s` is empty.
pub fn string_or_default<'a>(s: &'a str, d: &'a str) -> (r: &'a str)
    ensures
        r@ == if s@.len() == 0 {
            d@
        } else {
            s@
        },
{
    if s.is_empty() {
        d
    } else {
        s
    }
}

/// Where a newly requested track joins the queue.
#[derive(Debug)]
pub enum EnqueueAt {
    /// Right after the track that is playing.
    Front,
    /// At the end.
    Back,
}

/// The queue once its last track has been moved right behind the first one.
pub open spec fn last_moved_to_second<T>(q: Seq<T>) -> Seq<T> {
    if q.len() <= 1 {
        q
    } else {
        seq![q[0], q.last()] + q.subrange(1, q.len() - 1)
    }
}

/// The queue after a track has been enqueued (at the back) with `at`.
pub open spec fn arranged<T>(q: Seq<T>, at: EnqueueAt) -> Seq<T> {
    match at {
        EnqueueAt::Front => last_moved_to_second(q),
        EnqueueAt::Back => q,
    }
}

/// Arranges the queue once a track has been appended to it: for `Front`, the
/// new (last) track moves right behind the one that is playing, so that it
/// plays next; for `Back` it stays at the end.
pub fn arrange_after_enqueue<T>(q: &mut VecDeque<T>, at: &EnqueueAt)
    ensures
        final(q)@ == arranged(old(q)@, *at),
{
    match at {
        EnqueueAt::Front => {
            let ghost start = q@;
            match q.pop_back() {
                Some(track) => {
                    q.push_front(track);
                    if q.len() > 1 {
                        // Exchange the first two: the new track goes behind the playing one.
                        let first = q.pop_front();
                        let second = q.pop_front();
                        match (first, second) {
                            (Some(new_track), Some(playing)) => {
                                q.push_front(new_track);
                                q.push_front(playing);
                            },
                            _ => {},
                        }
                        assert(q@ =~= last_moved_to_second(start));
                    } else {
                        assert(q@ =~= start);
                    }
                },
                None => {},
            }
        },
        EnqueueAt::Back => {},
    }
}

/// A track enqueued at the front plays next: it ends right behind the track
/// that is playing, or first where the queue was empty, and the other tracks
/// keep their order.
pub proof fn lemma_front_enqueue_plays_next<T>(q: Seq<T>, track: T)
    ensures
        arranged(q.push(track), EnqueueAt::Front) == if q.len() == 0 {
            seq![track]
        } else {
            q.insert(1, track)
        },
{
    if q.len() == 0 {
        assert(q.push(track) =~= seq![track]);
    } else {
        assert(arranged(q.push(track), EnqueueAt::Front) =~= q.insert(1, track));
    }
}

/// A track enqueued at the back stays last, behind all the others.
pub proof fn lemma_back_enqueue_plays_last<T>(q: Seq<T>, track: T)
    ensures
        arranged(q.push(track), EnqueueAt::Back) == q.push(track),
{
}

/// The positions to remove, one after the other, to clear a queue of
/// `queue_length` tracks but the one that is playing: from the last down to 1.
pub fn clear_removal_indices(queue_length: usize) -> (r: Vec<usize>)
    ensures
        r@.len() == if queue_length > 0 {
            queue_length - 1
        } else {
            0
        },
        forall|k: int| 0 <= k < r@.len() ==> #[trigger] r@[k] == queue_length - 1 - k,
{
    let mut r: Vec<usize> = Vec::new();
    if queue_length > 0 {
        let mut i: usize = queue_length - 1;
        while i >= 1
            invariant
                i < queue_length,
                r@.len() == queue_length - 1 - i,
                forall|k: int| 0 <= k < r@.len() ==> #[trigger] r@[k] == queue_length - 1 - k,
            decreases i,
        {
            r.push(i);
            i = i - 1;
        }
    }
    r
}

/// The queue once the tracks at `indices` have been removed, one after the
/// other.
pub open spec fn remove_each<T>(q: Seq<T>, indices: Seq<usize>) -> Seq<T>
    decreases indices.len(),
{
    if indices.len() == 0 {
        q
    } else {
        remove_each(q.remove(indices[0] as int), indices.drop_first())
    }
}

/// Clearing a queue keeps exactly the track that is playing: each removal
/// hits a track that is there, and once all are done only the first remains.
pub proof fn lemma_clear_keeps_playing_track<T>(q: Seq<T>, indices: Seq<usize>)
    requires
        q.len() >= 1,
        indices.len() == q.len() - 1,
        forall|k: int| 0 <= k < indices.len() ==> #[trigger] indices[k] == q.len() - 1 - k,
    ensures
        forall|k: int| 0 <= k < indices.len() ==> 1 <= #[trigger] indices[k] < q.len() - k,
        remove_each(q, indices) == seq![q[0]],
    decreases q.len(),
{
    if q.len() == 1 {
        assert(q =~= seq![q[0]]);
    } else {
        let rest = q.remove(indices[0] as int);
        assert(rest =~= q.drop_last());
        let tail = indices.drop_first();
        assert forall|k: int| 0 <= k < tail.len() implies #[trigger] tail[k] == rest.len() - 1 - k by {
            assert(tail[k] == indices[k + 1]);
        }
        lemma_clear_keeps_playing_track(rest, tail);
        assert(rest[0] == q[0]);
    }
}

} // verus!
