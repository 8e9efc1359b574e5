//! The front end that reads the service's database where it cannot be written.

use crate::text::ends_with;
use crate::text::same;
use crate::web::build_repo_index;
use crate::web::index_html;
use crate::web::ActiveEntry;
use crate::web::RepoEntry;
use vstd::prelude::*;

verus! {

/// A database that lies in memory.
pub struct InMemVfsHandle {
    pub bytes: Vec<u8>,
}

impl InMemVfsHandle {
    pub fn size(&self) -> (r: u64)
        ensures
            r == self.bytes@.len(),
    {
        self.bytes.len() as u64
    }

    /// Fills the buffer with the bytes from `offset` on.
    pub fn read_exact_at(&self, buf: &mut [u8], offset: u64)
        requires
            offset + old(buf)@.len() <= self.bytes@.len(),
        ensures
            final(buf)@ == self.bytes@.subrange(offset as int, offset + old(buf)@.len()),
    {
        let len: usize = buf.len();
        let size: usize = self.bytes.len();
        assert(offset <= size);
        let from: usize = offset as usize;
        let mut i: usize = 0;
        while i < len
            invariant
                i <= len,
                len == buf@.len(),
                len == old(buf)@.len(),
                from == offset,
                size == self.bytes@.len(),
                from + len <= size,
                forall|j: int| 0 <= j < i ==> buf@[j] == self.bytes@[from + j],
            decreases len - i,
        {
            buf[i] = self.bytes[from + i];
            i = i + 1;
        }
        assert(buf@ =~= self.bytes@.subrange(offset as int, offset + len));
    }

    /// Whether the bytes asked for are there.
    pub fn can_read(&self, len: usize, offset: u64) -> (r: bool)
        ensures
            r == (offset + len <= self.bytes@.len()),
    {
        offset as u128 + len as u128 <= self.bytes.len() as u128
    }
}

/// What can be asked of the database besides reading.
#[derive(Debug, Clone, Copy, PartialEq, Eq, Structural)]
pub enum VfsRequest {
    WriteAllAt,
    Sync,
    SetLen,
    Lock,
    Reserved,
    SetChunkSize,
    Delete,
    Exists,
}

/// What it is answered.
#[derive(Debug, Clone, Copy, PartialEq, Eq, Structural)]
pub enum VfsAnswer {
    Done,
    Yes,
    No,
    /// It cannot be done.
    Refused,
}

/// What is said of a request that is refused.
pub fn refusal() -> (r: &'static str)
    ensures
        r@ == "no can do"@,
{
    "no can do"
}

/// What a request is answered.
pub open spec fn vfs_reply(request: VfsRequest) -> VfsAnswer {
    match request {
        VfsRequest::WriteAllAt => VfsAnswer::Refused,
        VfsRequest::Sync => VfsAnswer::Done,
        VfsRequest::SetLen => VfsAnswer::Refused,
        VfsRequest::Lock => VfsAnswer::Yes,
        VfsRequest::Reserved => VfsAnswer::No,
        VfsRequest::SetChunkSize => VfsAnswer::Refused,
        VfsRequest::Delete => VfsAnswer::Refused,
        VfsRequest::Exists => VfsAnswer::No,
    }
}

/// Whatever would change the database is refused, and nothing else is.
pub proof fn the_database_cannot_be_changed(request: VfsRequest)
    ensures
        vfs_reply(request) == VfsAnswer::Refused <==> request == VfsRequest::WriteAllAt || request
            == VfsRequest::SetLen || request == VfsRequest::SetChunkSize || request
            == VfsRequest::Delete,
        vfs_reply(request) == VfsAnswer::Yes <==> request == VfsRequest::Lock,
        vfs_reply(request) == VfsAnswer::No <==> request == VfsRequest::Reserved || request
            == VfsRequest::Exists,
{
}

/// What a request is answered: nothing can be changed, every lock is granted, and no file but the
/// database exists.
pub fn vfs_answer(request: VfsRequest) -> (r: VfsAnswer)
    ensures
        r == vfs_reply(request),
{
    match request {
        VfsRequest::WriteAllAt => VfsAnswer::Refused,
        VfsRequest::Sync => VfsAnswer::Done,
        VfsRequest::SetLen => VfsAnswer::Refused,
        VfsRequest::Lock => VfsAnswer::Yes,
        VfsRequest::Reserved => VfsAnswer::No,
        VfsRequest::SetChunkSize => VfsAnswer::Refused,
        VfsRequest::Delete => VfsAnswer::Refused,
        VfsRequest::Exists => VfsAnswer::No,
    }
}

/// Whether a file can be opened: the database can, and what is said of every other is given.
pub fn vfs_open(main_db: bool) -> (r: Result<(), &'static str>)
    ensures
        match r {
            Ok(_) => main_db,
            Err(message) => !main_db && message@ == "no"@,
        },
{
    if main_db {
        Ok(())
    } else {
        Err("no")
    }
}

/// What is asked of a file to fill the rest of a buffer.
#[derive(Debug, Clone, Copy, PartialEq, Eq, Structural)]
pub enum FdStep {
    /// To read at the offset into what is left of the buffer, from the given byte of it on.
    Read { offset: u64, from: usize },
    Done,
    /// The file gave nothing more.
    Stopped,
    /// The file gave an error.
    Failed(i64),
}

/// What follows a read at `offset` into a buffer of `len` bytes, of which `filled` were there, that
/// gave `n` bytes, or an error where `n` is negative.
pub open spec fn fd_step(len: usize, filled: usize, offset: u64, n: i64) -> FdStep {
    if n == 0 {
        FdStep::Stopped
    } else if n < 0 {
        FdStep::Failed(n)
    } else if filled + n < len {
        FdStep::Read { offset: (offset + n) as u64, from: (filled + n) as usize }
    } else {
        FdStep::Done
    }
}

/// Every byte of the buffer is read from its own place in the file, however many reads it takes:
/// the reads go on where the one before ended. `reads` are the offset in the file and the number of
/// bytes that were there of each, and `got` how many bytes it gave.
pub proof fn reads_keep_their_place(len: usize, start: u64, reads: Seq<(u64, usize)>, got: Seq<i64>)
    requires
        reads.len() > 0,
        reads[0] == (start, 0usize),
        got.len() + 1 == reads.len(),
        forall|k: int|
            0 <= k < got.len() ==> {
                &&& reads[k].1 + (#[trigger] got[k]) <= len
                &&& reads[k].0 + got[k] <= u64::MAX
                &&& fd_step(len, reads[k].1, reads[k].0, got[k]) == (FdStep::Read {
                    offset: reads[k + 1].0,
                    from: reads[k + 1].1,
                })
            },
    ensures
        forall|k: int| 0 <= k < reads.len() ==> (#[trigger] reads[k]).0 == start + reads[k].1,
    decreases got.len(),
{
    if got.len() > 0 {
        let before = reads.drop_last();
        reads_keep_their_place(len, start, before, got.drop_last());
        let last = got.len() - 1;
        assert(before[last] == reads[last] && got[last] > 0);
        assert forall|k: int| 0 <= k < reads.len() implies (#[trigger] reads[k]).0 == start
            + reads[k].1 by {
            if k < before.len() {
                assert(before[k] == reads[k]);
            }
        }
    }
}

/// What is asked of a file next to fill a buffer of `len` bytes, of which `filled` are there, after
/// a read at `offset` that gave `n` bytes, or an error where `n` is negative.
pub fn fd_read_next(len: usize, filled: usize, offset: u64, n: i64) -> (r: FdStep)
    requires
        filled <= len,
        n <= len - filled,
        offset + n <= u64::MAX,
    ensures
        r == fd_step(len, filled, offset, n),
{
    if n == 0 {
        FdStep::Stopped
    } else if n < 0 {
        FdStep::Failed(n)
    } else {
        let total: usize = filled + n as usize;
        if total < len {
            FdStep::Read { offset: offset + n as u64, from: total }
        } else {
            FdStep::Done
        }
    }
}

/// Where the database is read from.
#[derive(Debug, Clone, Copy, PartialEq, Eq, Structural)]
pub enum VfsKind {
    Fd,
    InMem,
}

/// Where the database is read from, by the query of a request.
pub fn vfs_kind(query: Option<&str>) -> (r: VfsKind)
    ensures
        r == (if query is Some && "vfs=fd"@.is_suffix_of(query->0@) {
            VfsKind::Fd
        } else {
            VfsKind::InMem
        }),
{
    match query {
        Some(query) => if ends_with(query, "vfs=fd") {
            VfsKind::Fd
        } else {
            VfsKind::InMem
        },
        None => VfsKind::InMem,
    }
}

/// The answer to a request for a path: the page of all repositories at the root, and elsewhere next
/// to nothing.
pub fn handle_req(
    path: &str,
    repos: Option<&Vec<RepoEntry>>,
    active: &Vec<ActiveEntry>,
    now: u64,
) -> (r: Result<String, String>)
    requires
        repos matches Some(list) ==> forall|i: int|
            0 <= i < list@.len() ==> (#[trigger] list@[i]).showable(now),
        forall|i: int| 0 <= i < active@.len() ==> (#[trigger] active@[i]).entry.showable(now),
    ensures
        match r {
            Ok(page) => if path@ == "/"@ {
                repos is Some && page@ == index_html(repos->0@, active@, now)
            } else {
                page@ == "a"@
            },
            Err(e) => path@ == "/"@ && repos is None && e@ == "gonna feel that one tomorrow"@,
        },
{
    if same(path, "/") {
        build_repo_index(repos, active, now)
    } else {
        Ok("a".to_owned())
    }
}

} // verus!
