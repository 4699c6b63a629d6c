//! The per-guild queue: an ordered list of tracks, the index of the current
//! one, and the handle of the audio that is sounding.
//!
//! The queue never touches the voice transport itself. Every operation that
//! changes what is playing answers with a [`Transition`], which tells the
//! driver what to do with the audio; the driver reports the new handle back
//! through [`Queue::set_current_track`].

use std::time::Duration;
use vstd::prelude::*;

verus! {

/// Why a queue operation was refused.
#[derive(Clone, Copy, Debug, PartialEq, Eq)]
pub enum QueueError {
    /// The index does not name a track of the queue.
    IndexError,
}

/// What the playback driver has to do after a queue operation.
#[derive(Clone, Copy, Debug, PartialEq, Eq)]
pub enum Transition {
    /// The current track was not affected: leave the audio alone.
    Keep,
    /// Stop the current audio; there is nothing to start.
    Stop,
    /// Stop the current audio, then start the track at `index` from its
    /// beginning. `notify` is the text channel that gets the "now playing"
    /// notice, if one is configured.
    Restart { index: usize, notify: Option<u64> },
}

/// What to ask of the audio that is sounding.
#[derive(Clone, Copy, Debug, PartialEq, Eq)]
pub enum Control {
    /// Suspend it.
    Pause,
    /// Let it go on.
    Resume,
}

/// What the driver learnt when it asked for the state of the current audio.
#[derive(Clone, Copy, Debug, PartialEq, Eq)]
pub enum Probe {
    /// The audio is sounding or paused.
    Playing,
    /// The audio has come to its end, was stopped or broke off.
    Done,
    /// The driver could not tell.
    Failed,
}

/// The mathematical content of a queue: its tracks in order and the index of
/// the current one.
pub struct Playlist<T> {
    pub songs: Seq<T>,
    pub pos: nat,
}

impl<T> Playlist<T> {
    /// The position names a track whenever there is one, and rests at zero
    /// while the queue is empty.
    pub open spec fn wf(self) -> bool {
        if self.songs.len() == 0 {
            self.pos == 0
        } else {
            self.pos < self.songs.len()
        }
    }

    /// The playlist with `track` appended.
    pub open spec fn push(self, track: T) -> Self {
        Playlist { songs: self.songs.push(track), pos: self.pos }
    }

    /// The playlist with `track` placed before `index`. At or past the end
    /// this is an append. Otherwise everything from `index` on moves up by
    /// one, the current track included if it stood there.
    pub open spec fn insert(self, track: T, index: nat) -> Self {
        if index >= self.songs.len() {
            self.push(track)
        } else {
            Playlist {
                songs: self.songs.insert(index as int, track),
                pos: if index <= self.pos {
                    self.pos + 1
                } else {
                    self.pos
                },
            }
        }
    }

    /// The position after the track at `index` has left a playlist that holds
    /// it: one less if the track stood before the current one, clamped into
    /// the shorter list if it was the current one, unchanged otherwise.
    pub open spec fn pos_after_remove(self, index: nat) -> nat {
        if index < self.pos {
            (self.pos - 1) as nat
        } else if index > self.pos || self.pos + 1 < self.songs.len() {
            self.pos
        } else if self.songs.len() >= 2 {
            (self.songs.len() - 2) as nat
        } else {
            0
        }
    }

    /// The playlist without the track at `index`.
    pub open spec fn remove(self, index: nat) -> Self
        recommends
            index < self.songs.len(),
    {
        Playlist { songs: self.songs.remove(index as int), pos: self.pos_after_remove(index) }
    }

    /// The playlist with the position moved to `index`.
    pub open spec fn goto(self, index: nat) -> Self
        recommends
            index < self.songs.len(),
    {
        Playlist { songs: self.songs, pos: index }
    }

    /// What removing the track at `index` means for the audio: nothing unless
    /// it is the current track; then a stop, followed by a start of the track
    /// that takes its place if any is left.
    pub open spec fn remove_transition(self, index: nat, notify: Option<u64>) -> Transition
        recommends
            index < self.songs.len(),
    {
        if index != self.pos {
            Transition::Keep
        } else if self.songs.len() <= 1 {
            Transition::Stop
        } else {
            Transition::Restart { index: self.pos_after_remove(index) as usize, notify }
        }
    }
}

/// One change to the contents of a playlist.
pub enum Edit<T> {
    /// Append the track.
    Push(T),
    /// Place the track before the index.
    Insert(T, nat),
    /// Take out the track at the index; an index that names no track changes
    /// nothing.
    Remove(nat),
}

impl<T> Playlist<T> {
    /// The playlist after one edit.
    pub open spec fn apply(self, edit: Edit<T>) -> Self {
        match edit {
            Edit::Push(track) => self.push(track),
            Edit::Insert(track, index) => self.insert(track, index),
            Edit::Remove(index) => if index < self.songs.len() {
                self.remove(index)
            } else {
                self
            },
        }
    }

    /// The playlist after the edits, first to last.
    pub open spec fn apply_all(self, edits: Seq<Edit<T>>) -> Self
        decreases edits.len(),
    {
        if edits.len() == 0 {
            self
        } else {
            self.apply(edits[0]).apply_all(edits.skip(1))
        }
    }

    /// Whatever is appended, inserted or removed, in whatever order, the
    /// position names a track as long as the playlist holds one.
    pub proof fn position_stays_valid(self, edits: Seq<Edit<T>>)
        requires
            self.wf(),
        ensures
            self.apply_all(edits).wf(),
            self.apply_all(edits).songs.len() > 0 ==> 0 <= self.apply_all(edits).pos
                < self.apply_all(edits).songs.len(),
        decreases edits.len(),
    {
        if edits.len() > 0 {
            self.apply(edits[0]).position_stays_valid(edits.skip(1));
        }
    }

    /// Inserting a track and at once removing what stands at the same index
    /// gives back the tracks and the position as they were. On a playlist
    /// that held a track already the audio is left alone throughout.
    pub proof fn insert_then_remove_restores(self, track: T, index: nat, notify: Option<u64>)
        requires
            self.wf(),
            index <= self.songs.len(),
        ensures
            index < self.insert(track, index).songs.len(),
            self.insert(track, index).remove(index) == self,
            self.songs.len() > 0 ==> self.insert(track, index).remove_transition(index, notify)
                == Transition::Keep,
    {
        let mid = self.insert(track, index);
        assert(mid.remove(index).songs =~= self.songs);
    }

    /// Removing the only track, which is then the current one, empties the
    /// playlist, and the audio is stopped with nothing started after it.
    pub proof fn removing_sole_track_stops(self, notify: Option<u64>)
        requires
            self.wf(),
            self.songs.len() == 1,
        ensures
            self.remove(self.pos).songs.len() == 0,
            self.remove(self.pos).wf(),
            self.remove_transition(self.pos, notify) == Transition::Stop,
    {
    }

    /// Going to the position that is current already changes neither the
    /// tracks nor the position.
    pub proof fn goto_current_keeps_contents(self)
        requires
            self.wf(),
        ensures
            self.goto(self.pos) == self,
    {
    }
}

/// One guild's queue. `T` is the track reference, `H` the handle of sounding
/// audio; the queue stores and orders them and never looks inside.
#[derive(Clone)]
pub struct Queue<T, H> {
    current_track: Option<H>,
    current_track_len: Option<Duration>,
    songs: Vec<T>,
    pos: usize,
    text_channel: Option<u64>,
}

impl<T, H> View for Queue<T, H> {
    type V = Playlist<T>;

    closed spec fn view(&self) -> Playlist<T> {
        Playlist { songs: self.songs@, pos: self.pos as nat }
    }
}

impl<T, H> Queue<T, H> {
    /// The queue's invariant: its position is valid for its tracks. Every
    /// constructor establishes it and every operation keeps it.
    pub open spec fn wf(&self) -> bool {
        self@.wf()
    }

    /// The handle of the audio that was last started, if it is still valid.
    pub closed spec fn handle(&self) -> Option<H> {
        self.current_track
    }

    /// The length of the track that was last started, where it is known.
    pub closed spec fn handle_len(&self) -> Option<Duration> {
        self.current_track_len
    }

    /// The text channel that gets the "now playing" notices.
    pub closed spec fn channel(&self) -> Option<u64> {
        self.text_channel
    }

    /// An empty queue. `track` and `track_len` describe audio that is already
    /// sounding, if any; `text_channel` is where notices go.
    pub fn new(track: Option<H>, track_len: Option<Duration>, text_channel: Option<u64>) -> (q:
        Self)
        ensures
            q.wf(),
            q@.songs == Seq::<T>::empty(),
            q@.pos == 0,
            q.handle() == track,
            q.handle_len() == track_len,
            q.channel() == text_channel,
    {
        Queue {
            current_track: track,
            current_track_len: track_len,
            songs: Vec::new(),
            pos: 0,
            text_channel,
        }
    }

    /// The number of tracks.
    pub fn len(&self) -> (n: usize)
        ensures
            n == self@.songs.len(),
    {
        self.songs.len()
    }

    /// The index of the current track; zero while the queue is empty.
    pub fn pos(&self) -> (p: usize)
        ensures
            p == self@.pos,
    {
        self.pos
    }

    /// The tracks in queue order.
    pub fn tracks(&self) -> (v: &Vec<T>)
        ensures
            v@ == self@.songs,
    {
        &self.songs
    }

    /// The current track, if the queue holds any.
    pub fn current(&self) -> (t: Option<&T>)
        ensures
            self@.pos >= self@.songs.len() ==> t.is_none(),
            self@.pos < self@.songs.len() ==> t == Some(&self@.songs[self@.pos as int]),
    {
        if self.pos >= self.songs.len() {
            None
        } else {
            Some(&self.songs[self.pos])
        }
    }

    /// The handle of the audio that was last started, while it still stands
    /// for the current track.
    pub fn current_track(&self) -> (h: Option<&H>)
        ensures
            match self.handle() {
                Some(cur) => h == Some(&cur),
                None => h.is_none(),
            },
    {
        self.current_track.as_ref()
    }

    /// The length of the audio that was last started, where it is known.
    pub fn current_track_len(&self) -> (d: Option<Duration>)
        ensures
            d == self.handle_len(),
    {
        self.current_track_len
    }

    /// The text channel that gets the notices.
    pub fn text_channel(&self) -> (c: Option<u64>)
        ensures
            c == self.channel(),
    {
        self.text_channel
    }

    /// Appends `track`. Playback is not touched.
    pub fn push(&mut self, track: T)
        ensures
            final(self)@ == old(self)@.push(track),
            old(self).wf() ==> final(self).wf(),
            final(self).handle() == old(self).handle(),
            final(self).handle_len() == old(self).handle_len(),
            final(self).channel() == old(self).channel(),
    {
        self.songs.push(track);
    }

    /// Places `track` before `index`, or at the end if `index` is not below
    /// the length. The position follows the current track, so playback goes
    /// on undisturbed.
    pub fn insert(&mut self, track: T, index: usize)
        requires
            old(self).wf(),
        ensures
            final(self)@ == old(self)@.insert(track, index as nat),
            final(self).wf(),
            final(self).handle() == old(self).handle(),
            final(self).handle_len() == old(self).handle_len(),
            final(self).channel() == old(self).channel(),
    {
        if index >= self.songs.len() {
            self.songs.push(track);
        } else {
            self.songs.insert(index, track);
            if index <= self.pos {
                self.pos = self.pos + 1;
            }
        }
    }

    /// Takes the track at `index` out of the queue.
    ///
    /// An index that names no track is refused and nothing changes. A track
    /// before the current one pulls the position down with it. If the current
    /// track itself leaves, its audio handle is dropped and the answer tells
    /// the driver to stop, and to start the track that took its place unless
    /// the queue is now empty.
    pub fn remove(&mut self, index: usize) -> (r: Result<Transition, QueueError>)
        requires
            old(self).wf(),
        ensures
            index >= old(self)@.songs.len() ==> r == Err::<Transition, QueueError>(
                QueueError::IndexError,
            ) && *final(self) == *old(self),
            index < old(self)@.songs.len() ==> r == Ok::<Transition, QueueError>(
                old(self)@.remove_transition(index as nat, old(self).channel()),
            ) && final(self)@ == old(self)@.remove(index as nat),
            final(self).wf(),
            index < old(self)@.songs.len() && index == old(self)@.pos ==> final(self).handle().is_none()
                && final(self).handle_len().is_none(),
            !(index < old(self)@.songs.len() && index == old(self)@.pos) ==> final(self).handle()
                == old(self).handle() && final(self).handle_len() == old(self).handle_len(),
            final(self).channel() == old(self).channel(),
    {
        let len: usize = self.songs.len();
        if index >= len {
            return Err(QueueError::IndexError);
        }
        let was_current: bool = index == self.pos;
        let _gone = self.songs.remove(index);
        if index < self.pos {
            self.pos = self.pos - 1;
        } else if was_current && self.pos + 1 >= len {
            self.pos = if len >= 2 {
                len - 2
            } else {
                0
            };
        }
        if !was_current {
            Ok(Transition::Keep)
        } else {
            self.current_track = None;
            self.current_track_len = None;
            if len <= 1 {
                Ok(Transition::Stop)
            } else {
                Ok(Transition::Restart { index: self.pos, notify: self.text_channel })
            }
        }
    }

    /// Moves the position to `index` and has the track there started from its
    /// beginning, also when it is the current track already.
    ///
    /// An index that names no track is refused and nothing changes.
    pub fn goto(&mut self, index: usize) -> (r: Result<Transition, QueueError>)
        requires
            old(self).wf(),
        ensures
            index >= old(self)@.songs.len() ==> r == Err::<Transition, QueueError>(
                QueueError::IndexError,
            ) && *final(self) == *old(self),
            index < old(self)@.songs.len() ==> r == Ok::<Transition, QueueError>(
                Transition::Restart { index, notify: old(self).channel() },
            ) && final(self)@ == old(self)@.goto(index as nat) && final(self).handle().is_none()
                && final(self).handle_len().is_none(),
            final(self).wf(),
            final(self).channel() == old(self).channel(),
    {
        if index >= self.songs.len() {
            return Err(QueueError::IndexError);
        }
        self.pos = index;
        Ok(self.play())
    }

    /// Has the current track started from its beginning: the old audio handle
    /// is dropped and the driver is told to stop and start anew.
    pub fn play(&mut self) -> (t: Transition)
        requires
            old(self).wf(),
            old(self)@.songs.len() > 0,
        ensures
            final(self).wf(),
            t == (Transition::Restart { index: old(self)@.pos as usize, notify: old(self).channel() }),
            final(self)@ == old(self)@,
            final(self).handle().is_none(),
            final(self).handle_len().is_none(),
            final(self).channel() == old(self).channel(),
    {
        self.current_track = None;
        self.current_track_len = None;
        Transition::Restart { index: self.pos, notify: self.text_channel }
    }

    /// Records the audio that the driver has started for the current track.
    pub fn set_current_track(&mut self, handle: H, track_len: Option<Duration>)
        ensures
            final(self)@ == old(self)@,
            final(self).handle() == Some(handle),
            final(self).handle_len() == track_len,
            final(self).channel() == old(self).channel(),
    {
        self.current_track = Some(handle);
        self.current_track_len = track_len;
    }

    /// Drops the audio handle after the driver has stopped the audio.
    pub fn stop(&mut self)
        ensures
            final(self)@ == old(self)@,
            final(self).handle().is_none(),
            final(self).handle_len().is_none(),
            final(self).channel() == old(self).channel(),
    {
        self.current_track = None;
        self.current_track_len = None;
    }

    /// What to ask of the driver to suspend the current audio: nothing when
    /// no audio is current.
    pub fn pause(&self) -> (c: Option<Control>)
        ensures
            c == if self.handle().is_some() {
                Some(Control::Pause)
            } else {
                None
            },
    {
        if self.current_track.is_some() {
            Some(Control::Pause)
        } else {
            None
        }
    }

    /// What to ask of the driver to let the current audio go on: nothing
    /// when no audio is current.
    pub fn unpause(&self) -> (c: Option<Control>)
        ensures
            c == if self.handle().is_some() {
                Some(Control::Resume)
            } else {
                None
            },
    {
        if self.current_track.is_some() {
            Some(Control::Resume)
        } else {
            None
        }
    }

    /// Whether a driver that answered `probe` has finished the current
    /// track.
    pub open spec fn track_over(&self, probe: Probe) -> bool {
        self.handle().is_some() && probe == Probe::Done
    }

    /// Whether the current track has finished, given what the driver
    /// answered about its audio. Without current audio nothing has finished,
    /// and an answer that failed shows nothing.
    pub fn current_track_over(&self, probe: Probe) -> (over: bool)
        ensures
            over == self.track_over(probe),
    {
        if self.current_track.is_some() {
            match probe {
                Probe::Done => true,
                Probe::Playing => false,
                Probe::Failed => false,
            }
        } else {
            false
        }
    }

    /// The position to move to when a finished track is followed by
    /// another: the next one. A track that finishes at the end of the queue
    /// is followed by nothing.
    pub open spec fn successor(&self, probe: Probe) -> Option<usize> {
        if self.track_over(probe) && self@.pos + 1 < self@.songs.len() {
            Some((self@.pos + 1) as usize)
        } else {
            None
        }
    }

    /// Moves on to the next track if the current one has finished and is not
    /// the last; otherwise the queue stays as it is and the audio is left
    /// alone.
    pub fn advance(&mut self, probe: Probe) -> (t: Transition)
        requires
            old(self).wf(),
        ensures
            final(self).wf(),
            final(self).channel() == old(self).channel(),
            match old(self).successor(probe) {
                Some(next) => {
                    &&& t == (Transition::Restart { index: next, notify: old(self).channel() })
                    &&& final(self)@ == old(self)@.goto(next as nat)
                    &&& final(self).handle().is_none()
                    &&& final(self).handle_len().is_none()
                },
                None => t == Transition::Keep && *final(self) == *old(self),
            },
    {
        let len: usize = self.songs.len();
        let over: bool = self.current_track_over(probe);
        if over && self.pos + 1 < len {
            self.pos = self.pos + 1;
            self.play()
        } else {
            Transition::Keep
        }
    }
}

} // verus!
