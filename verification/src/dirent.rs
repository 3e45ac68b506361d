//! Ownership and read protocol of a native directory stream.
//!
//! The native layer performs `opendir`, `fdopendir`, `readdir`, `dirfd` and
//! `closedir`; each call's raw outcome is handed to the functions here as a
//! plain event (a handle address or null, a raw record or null, the error
//! code found in the slot), and the verified code decides what the outcome
//! means: an owned [`Dir`], an owned [`Dirent`], end-of-stream, or a
//! structured [`OsError`].

use vstd::prelude::*;

use crate::error::{OsError, NO_ERRNO};

verus! {

/// Length of the name held by a raw, NUL-terminated record: the index of
/// the first zero byte, or the whole length when no zero byte occurs.
pub open spec fn name_len(raw: Seq<u8>) -> int
    decreases raw.len(),
{
    if raw.len() == 0 {
        0
    } else if raw[0] == 0 {
        0
    } else {
        1 + name_len(raw.subrange(1, raw.len() as int))
    }
}

/// The name a raw record carries: exactly the bytes before its first NUL.
pub open spec fn entry_name(raw: Seq<u8>) -> Seq<u8> {
    raw.take(name_len(raw))
}

/// `name_len` is pinned by its characterization: it is the position of the
/// first zero byte, or the record's length when there is none.
pub proof fn lemma_name_len_at_first_nul(raw: Seq<u8>, i: int)
    requires
        0 <= i <= raw.len(),
        forall|j: int| 0 <= j < i ==> raw[j] != 0,
        i < raw.len() ==> raw[i] == 0,
    ensures
        name_len(raw) == i,
    decreases raw.len(),
{
    if raw.len() == 0 {
    } else if raw[0] == 0 {
        assert(i == 0);
    } else {
        assert(i >= 1);
        let rest = raw.subrange(1, raw.len() as int);
        assert(forall|j: int| 0 <= j < i - 1 ==> rest[j] == raw[j + 1] && rest[j] != 0);
        assert(i - 1 < rest.len() ==> rest[i - 1] == 0);
        lemma_name_len_at_first_nul(rest, i - 1);
    }
}

/// One directory entry, owned: the entry's name without its NUL terminator,
/// and the inode number the OS reported for it. The native record a read
/// returns lives in a buffer the next operation on the stream may overwrite;
/// copying the name out removes that hazard entirely.
#[derive(Debug)]
pub struct Dirent {
    name: Vec<u8>,
    ino: u64,
}

/// Ghost projection of a [`Dirent`]: its name bytes and inode number.
pub struct DirentView {
    pub name: Seq<u8>,
    pub ino: u64,
}

impl View for Dirent {
    type V = DirentView;

    closed spec fn view(&self) -> DirentView {
        DirentView { name: self.name@, ino: self.ino }
    }
}

impl Dirent {
    /// A well-formed entry name carries no NUL byte: it is everything the
    /// record held before its terminator.
    pub open spec fn wf(self) -> bool {
        forall|j: int| 0 <= j < self@.name.len() ==> self@.name[j] != 0
    }

    /// Build an entry from the raw name record of a successful read and the
    /// inode it reported. The name keeps exactly the bytes before the first
    /// NUL; the terminator and whatever padding follows it are dropped.
    pub fn from_record(raw: &[u8], ino: u64) -> (entry: Dirent)
        ensures
            entry@.name == entry_name(raw@),
            entry@.ino == ino,
            entry.wf(),
    {
        let mut end: usize = 0;
        while end < raw.len() && raw[end] != 0
            invariant
                0 <= end <= raw@.len(),
                forall|j: int| 0 <= j < end ==> raw@[j] != 0,
            decreases raw@.len() - end,
        {
            end = end + 1;
        }
        proof {
            lemma_name_len_at_first_nul(raw@, end as int);
        }
        let mut name: Vec<u8> = Vec::new();
        let mut i: usize = 0;
        while i < end
            invariant
                0 <= i <= end <= raw@.len(),
                name@ == raw@.subrange(0, i as int),
            decreases end - i,
        {
            name.push(raw[i]);
            proof {
                assert(name@ =~= raw@.subrange(0, i + 1));
            }
            i = i + 1;
        }
        proof {
            assert(name@ =~= entry_name(raw@));
        }
        Dirent { name, ino }
    }

    /// The entry's raw name bytes, length-delimited, without the terminator.
    pub fn name(&self) -> (name: &Vec<u8>)
        ensures
            name@ == self@.name,
    {
        &self.name
    }

    /// The entry's inode number as the OS reported it; its bit width is the
    /// platform's, and carries no portable meaning beyond identity within
    /// one filesystem.
    pub fn ino(&self) -> (ino: u64)
        ensures
            ino == self@.ino,
    {
        self.ino
    }
}

impl Clone for Dirent {
    /// An entry clones to a spec-equal entry.
    fn clone(&self) -> (entry: Self)
        ensures
            entry@ == self@,
    {
        let name = self.name.clone();
        proof {
            assert(forall|j: int| 0 <= j < self.name@.len() ==> name@[j] == self.name@[j]);
            assert(name@ =~= self.name@);
        }
        Dirent { name, ino: self.ino }
    }
}

/// What one native open produced: the address of a non-null handle, or a
/// null return together with the error code captured right after the call.
pub enum OpenEvent {
    /// The native open returned this handle; the OS hands back only non-null
    /// handles on success.
    Handle { handle: usize },
    /// The native open returned null; `code` is the error it left in the
    /// slot, captured immediately so no later call can overwrite it.
    Null { code: i32 },
}

/// What one native read produced: a record, or a null return together with
/// the error code found in the slot right after the call. The caller must
/// clear the slot right before the call, so a nonzero code was written
/// during this very call and not left over from an earlier one.
pub enum ReadEvent {
    /// The read returned a record: its raw NUL-terminated name bytes and its
    /// inode number.
    Record { raw_name: Vec<u8>, ino: u64 },
    /// The read returned null; `code` is what the freshly cleared slot held
    /// right after the call.
    Null { code: i32 },
}

/// An owned, open directory stream. The stream is the sole owner of the
/// native handle whose address it holds: it is not copyable, and the handle
/// comes back out exactly once, through [`Dir::into_raw`], for the one
/// native close. A stream given up that way is gone; no operation can be
/// issued on it afterwards.
#[derive(Debug)]
pub struct Dir {
    handle: usize,
    origin_fd: Option<i32>,
}

/// Ghost projection of a [`Dir`]: the native handle address and, for a
/// stream opened from a descriptor, that descriptor.
pub struct DirView {
    pub handle: usize,
    pub origin_fd: Option<i32>,
}

impl View for Dir {
    type V = DirView;

    closed spec fn view(&self) -> DirView {
        DirView { handle: self.handle, origin_fd: self.origin_fd }
    }
}

impl Dir {
    /// An open stream always holds a non-null handle.
    pub open spec fn wf(self) -> bool {
        self@.handle != 0
    }

    /// Address of the native handle, for the layer that performs the native
    /// calls on this stream.
    pub fn raw_handle(&self) -> (handle: usize)
        ensures
            handle == self@.handle,
    {
        self.handle
    }

    /// Give up the stream and hand its handle back for the one native
    /// close. Consuming `self` is what makes closing twice, or reading after
    /// closing, impossible: there is no stream left to use.
    pub fn into_raw(self) -> (handle: usize)
        ensures
            handle == self@.handle,
    {
        self.handle
    }

    /// The descriptor this stream was opened from, if it was opened from
    /// one. Ownership of that descriptor passed to the stream when it was
    /// opened; the native close releases it.
    pub fn origin_descriptor(&self) -> (fd: Option<i32>)
        ensures
            fd == self@.origin_fd,
    {
        self.origin_fd
    }
}

/// Decide what an open-from-path outcome means: a handle becomes an owned
/// stream, a null return becomes an `OpenFailure` carrying the code the
/// failing call left behind.
pub fn open_outcome(ev: OpenEvent) -> (result: Result<Dir, OsError>)
    requires
        ev matches OpenEvent::Handle { handle } ==> handle != 0,
    ensures
        (ev matches OpenEvent::Handle { handle } ==>
            result matches Ok(dir) && dir@.handle == handle && dir@.origin_fd is None
                && dir.wf()),
        (ev matches OpenEvent::Null { code } ==>
            result == Err::<Dir, OsError>(OsError::OpenFailure(code))),
{
    match ev {
        OpenEvent::Handle { handle } => Ok(Dir { handle, origin_fd: None }),
        OpenEvent::Null { code } => Err(OsError::OpenFailure(code)),
    }
}

/// Decide what an open-from-descriptor outcome means, like [`open_outcome`];
/// on success the stream also records `fd`, the descriptor whose ownership
/// just passed to it.
pub fn fdopen_outcome(ev: OpenEvent, fd: i32) -> (result: Result<Dir, OsError>)
    requires
        ev matches OpenEvent::Handle { handle } ==> handle != 0,
    ensures
        (ev matches OpenEvent::Handle { handle } ==>
            result matches Ok(dir) && dir@.handle == handle && dir@.origin_fd == Some(fd)
                && dir.wf()),
        (ev matches OpenEvent::Null { code } ==>
            result == Err::<Dir, OsError>(OsError::OpenFailure(code))),
{
    match ev {
        OpenEvent::Handle { handle } => Ok(Dir { handle, origin_fd: Some(fd) }),
        OpenEvent::Null { code } => Err(OsError::OpenFailure(code)),
    }
}

/// Decide what a read outcome means. The OS signals exhaustion and failure
/// with the same null return; they are told apart by whether the error slot,
/// cleared right before the call, was written during it: untouched means
/// true end-of-stream, written means a read failure with that code.
pub fn read_outcome(ev: ReadEvent) -> (result: Result<Option<Dirent>, OsError>)
    ensures
        (ev matches ReadEvent::Record { raw_name, ino } ==>
            result matches Ok(Some(entry)) && entry@.name == entry_name(raw_name@)
                && entry@.ino == ino && entry.wf()),
        (ev matches ReadEvent::Null { code } ==> result == (if code == NO_ERRNO {
            Ok::<Option<Dirent>, OsError>(None)
        } else {
            Err::<Option<Dirent>, OsError>(OsError::ReadFailure(code))
        })),
{
    match ev {
        ReadEvent::Record { raw_name, ino } => Ok(Some(Dirent::from_record(
            raw_name.as_slice(),
            ino,
        ))),
        ReadEvent::Null { code } => {
            if code == NO_ERRNO {
                Ok(None)
            } else {
                Err(OsError::ReadFailure(code))
            }
        },
    }
}

/// Decide what a descriptor query on an open stream means: the OS returns a
/// non-negative descriptor, or `-1` with a code in the slot.
pub fn dirfd_outcome(res: i32, code: i32) -> (result: Result<i32, OsError>)
    ensures
        res == -1 ==> result == Err::<i32, OsError>(OsError::DescriptorFailure(code)),
        res != -1 ==> result == Ok::<i32, OsError>(res),
{
    if res == -1 {
        Err(OsError::DescriptorFailure(code))
    } else {
        Ok(res)
    }
}

} // verus!
