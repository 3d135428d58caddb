//! A ghost model of the two paths a fetch touches.
//!
//! The driver performs exactly these steps against the real filesystem:
//! create (truncate) the temporary sibling, write each accepted chunk to it
//! in order, and finally rename it onto the destination. This module models
//! those steps over the pair of paths and proves the commit discipline:
//! nothing but the final rename ever changes the destination, and what the
//! rename installs is exactly the concatenation of the written chunks.

use vstd::prelude::*;
use crate::fetch::{concat_chunks, Download};

verus! {

/// The contents of the two paths involved in one fetch: the destination and
/// its temporary sibling. `None` means the path does not exist.
pub struct DiskState {
    /// The destination path's content, if the path exists.
    pub dest: Option<Seq<u8>>,
    /// The temporary sibling's content, if the path exists.
    pub tmp: Option<Seq<u8>>,
}

/// Creating the temporary file: its content becomes empty (a leftover from
/// an interrupted attempt is silently truncated); the destination is not
/// touched.
pub open spec fn create_tmp(d: DiskState) -> DiskState {
    DiskState { dest: d.dest, tmp: Some(Seq::<u8>::empty()) }
}

/// Appending one chunk to the temporary file; the destination is not
/// touched.
pub open spec fn write_tmp(d: DiskState, chunk: Seq<u8>) -> DiskState {
    DiskState {
        dest: d.dest,
        tmp: match d.tmp {
            Some(content) => Some(content + chunk),
            None => Some(chunk),
        },
    }
}

/// Appending every chunk of a sequence to the temporary file, in order.
pub open spec fn write_tmp_all(d: DiskState, chunks: Seq<Seq<u8>>) -> DiskState
    decreases chunks.len(),
{
    if chunks.len() == 0 {
        d
    } else {
        write_tmp(write_tmp_all(d, chunks.drop_last()), chunks.last())
    }
}

/// The atomic rename: the single commit point. The destination takes the
/// temporary file's content in one indivisible step and the temporary path
/// ceases to exist.
pub open spec fn commit(d: DiskState) -> DiskState {
    DiskState { dest: d.tmp, tmp: None }
}

/// However many chunks have been written, the destination still holds
/// exactly what it held before the fetch began: a transfer interrupted at
/// any point before the rename leaves no partially written destination,
/// only a temporary artifact. (An interrupted transfer is the run on the
/// prefix of chunks that were delivered before the interruption.)
pub proof fn lemma_atomic_commit(d: DiskState, chunks: Seq<Seq<u8>>)
    ensures
        write_tmp_all(create_tmp(d), chunks).dest == d.dest,
    decreases chunks.len(),
{
    if chunks.len() > 0 {
        lemma_atomic_commit(d, chunks.drop_last());
    }
}

/// After the whole sequence of chunks has been written, the temporary file
/// holds exactly their concatenation.
pub proof fn lemma_tmp_holds_all_chunks(d: DiskState, chunks: Seq<Seq<u8>>)
    ensures
        write_tmp_all(create_tmp(d), chunks).tmp == Some(concat_chunks(chunks)),
    decreases chunks.len(),
{
    if chunks.len() == 0 {
        assert(concat_chunks(chunks) =~= Seq::<u8>::empty());
    } else {
        lemma_tmp_holds_all_chunks(d, chunks.drop_last());
    }
}

/// Byte fidelity: when a completed transfer is committed, the destination
/// holds exactly the bytes the transfer returned in memory — the rename
/// installs the concatenation of the written chunks, which a well-formed
/// [`Download`] accumulated byte for byte.
pub proof fn lemma_byte_fidelity(d: DiskState, download: Download)
    requires
        download.wf(),
    ensures
        commit(write_tmp_all(create_tmp(d), download.chunk_log())).dest == Some(download.bytes()),
{
    lemma_tmp_holds_all_chunks(d, download.chunk_log());
    download.lemma_bytes_are_chunks();
}

/// Idempotent caching, on the disk side: a committed fetch leaves the
/// destination present, holding the fetched bytes. A later load for the
/// same identifier therefore finds the cache file and plans no network
/// action (see the planner's contract), and the bytes it reads are the
/// bytes the fetch returned.
pub proof fn lemma_commit_populates_cache(d: DiskState, download: Download)
    requires
        download.wf(),
    ensures
        commit(write_tmp_all(create_tmp(d), download.chunk_log())).dest is Some,
        commit(write_tmp_all(create_tmp(d), download.chunk_log())).dest == Some(download.bytes()),
{
    lemma_byte_fidelity(d, download);
}

} // verus!
