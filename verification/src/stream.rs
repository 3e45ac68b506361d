//! The logical state machine of a directory stream.
//!
//! A stream is, logically, a finite list of entries and a cursor: a read
//! yields the entry under the cursor and advances it, a read past the end
//! yields nothing and moves nothing, `tell` observes the cursor and `seek`
//! restores it. [`DirCursor`] is that machine made executable, with the
//! transition functions spelled out as specs and the stream laws proved of
//! them: exhaustion is stable (reading past the end again yields nothing
//! again), and seeking to what `tell` returned is a no-op, so the next read
//! returns what it would have returned anyway.

use vstd::prelude::*;

use crate::dirent::{Dirent, DirentView};

verus! {

/// Ghost state of a stream cursor: the entries in stream order, and the
/// position of the next read.
pub struct CursorView {
    pub entries: Seq<DirentView>,
    pub pos: int,
}

/// The cursor always sits on an entry or one past the last.
pub open spec fn cursor_wf(s: CursorView) -> bool {
    0 <= s.pos <= s.entries.len()
}

/// What a read in state `s` yields: the entry under the cursor, or nothing
/// once every entry has been consumed.
pub open spec fn read_of(s: CursorView) -> Option<DirentView> {
    if s.pos < s.entries.len() {
        Some(s.entries[s.pos])
    } else {
        None
    }
}

/// The state after a read: the cursor has moved past the entry it yielded,
/// and stays put at the end of the stream.
pub open spec fn advanced(s: CursorView) -> CursorView {
    if s.pos < s.entries.len() {
        CursorView { entries: s.entries, pos: s.pos + 1 }
    } else {
        s
    }
}

/// The state after seeking to `pos`: only the cursor moves.
pub open spec fn sought(s: CursorView, pos: int) -> CursorView {
    CursorView { entries: s.entries, pos }
}

/// Exhaustion is stable: a state that yields nothing is unchanged by the
/// read, and so yields nothing again, however often the read is repeated.
pub proof fn lemma_exhaustion_stable(s: CursorView)
    requires
        cursor_wf(s),
        read_of(s) is None,
    ensures
        advanced(s) == s,
        read_of(advanced(s)) is None,
{
}

/// Seeking to the told position is a no-op: after `seek(tell())` the state
/// is exactly what it was, so the next read yields what a read would have
/// yielded without the round trip.
pub proof fn lemma_seek_tell_roundtrip(s: CursorView)
    requires
        cursor_wf(s),
    ensures
        sought(s, s.pos) == s,
        read_of(sought(s, s.pos)) == read_of(s),
{
    assert(sought(s, s.pos) =~= s);
}

/// A directory stream's logical state machine, executable: the in-memory
/// counterpart the native stream is held to. Reads yield the entries in
/// order and then nothing; `tell` and `seek` move the cursor and touch no
/// entry.
pub struct DirCursor {
    entries: Vec<Dirent>,
    pos: usize,
}

impl View for DirCursor {
    type V = CursorView;

    closed spec fn view(&self) -> CursorView {
        CursorView {
            entries: self.entries@.map_values(|entry: Dirent| entry@),
            pos: self.pos as int,
        }
    }
}

impl DirCursor {
    /// A cursor over the given entries, positioned before the first.
    pub fn new(entries: Vec<Dirent>) -> (cursor: DirCursor)
        ensures
            cursor@.entries == entries@.map_values(|entry: Dirent| entry@),
            cursor@.pos == 0,
            cursor_wf(cursor@),
    {
        DirCursor { entries, pos: 0 }
    }

    /// Read the next entry: the one under the cursor, advancing past it, or
    /// nothing once the stream is exhausted. The in-memory stream has no
    /// failing reads; only the native one can fail.
    pub fn read(&mut self) -> (entry: Option<Dirent>)
        requires
            cursor_wf(old(self)@),
        ensures
            final(self)@ == advanced(old(self)@),
            cursor_wf(final(self)@),
            (entry matches Some(e) ==> read_of(old(self)@) == Some(e@)),
            (entry is None ==> read_of(old(self)@) is None),
    {
        if self.pos < self.entries.len() {
            let entry = self.entries[self.pos].clone();
            self.pos = self.pos + 1;
            Some(entry)
        } else {
            proof {
                assert(final(self)@ =~= advanced(old(self)@));
            }
            None
        }
    }

    /// The cursor's position: an opaque token, meaningful only to `seek` on
    /// this same stream.
    pub fn tell(&self) -> (pos: usize)
        ensures
            pos == self@.pos,
    {
        self.pos
    }

    /// Restore a position previously obtained from `tell`. The native call
    /// has no documented failure mode, and neither has this one; a token
    /// from `tell` always satisfies the bound.
    pub fn seek(&mut self, pos: usize)
        requires
            pos <= old(self)@.entries.len(),
        ensures
            final(self)@ == sought(old(self)@, pos as int),
            cursor_wf(final(self)@),
    {
        self.pos = pos;
    }

    /// How many entries the stream holds in all, consumed or not.
    pub fn len(&self) -> (n: usize)
        ensures
            n == self@.entries.len(),
    {
        self.entries.len()
    }
}

} // verus!
