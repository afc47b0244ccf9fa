//! Sending a file in chunks.

use vstd::prelude::*;
use crate::status::{Code, Status};
use crate::text;

verus! {

pub const DEFAULT_CHUNK_SIZE: u64 = 65_536;

pub const MAX_CHUNK_SIZE: u64 = 2_097_152;

/// The size of chunks: a client may ask for one, up to a limit.
pub fn choose_chunk_size(requested: u64) -> (r: Result<usize, Status>)
    ensures
        requested == 0 ==> (r matches Ok(size) && size == DEFAULT_CHUNK_SIZE),
        requested == 0 ==> (r matches Ok(size) && size == 65_536),
        (r is Ok) == (requested <= 2_097_152),
        0 < requested <= MAX_CHUNK_SIZE ==> (r matches Ok(size) && size == requested),
        requested > MAX_CHUNK_SIZE ==> (r matches Err(e) && e@ == (
            Code::InvalidArgument,
            "limit too large"@,
        )),
{
    if requested == 0 {
        return Ok(DEFAULT_CHUNK_SIZE as usize);
    }
    if requested > MAX_CHUNK_SIZE {
        return Err(Status::invalid_argument("limit too large"));
    }
    Ok(requested as usize)
}

/// A client that wants a certain content names its hash.
pub fn check_content_hash(if_match_hash: &str, content_hash: &str) -> (r: Result<(), Status>)
    ensures
        if_match_hash@.len() == 0 || if_match_hash@ == content_hash@ ==> r == Ok::<(), Status>(()),
        if_match_hash@.len() > 0 && if_match_hash@ != content_hash@ ==> (r matches Err(e) && e@ == (
            Code::FailedPrecondition,
            "hash mismatch"@,
        )),
{
    if !if_match_hash.is_empty() && !text::str_eq(if_match_hash, content_hash) {
        return Err(Status::failed_precondition("hash mismatch"));
    }
    Ok(())
}

/// A chunk of a file: where it stands, how long it is, and whether it is the last.
#[derive(Clone, Copy, PartialEq, Eq, Debug, Structural)]
pub struct AssetChunk {
    pub offset: u64,
    pub size: usize,
    pub eof: bool,
}

/// A file that is being sent.
#[derive(Clone, Copy, PartialEq, Eq, Debug, Structural)]
pub struct ChunkStream {
    pub start: u64,
    pub pos: u64,
    pub total_len: u64,
}

/// How the sending of a file begins.
#[derive(Clone, Copy, PartialEq, Eq, Debug, Structural)]
pub enum ChunkStart {
    /// There is nothing to send but the end.
    AtEnd(AssetChunk),
    /// The file is read from the offset on, in reads of the size.
    Read { stream: ChunkStream, chunk_size: usize },
}

/// Begins to send a file of the length from the offset on. The size of chunks counts
/// only where there is anything to send.
pub fn begin_chunks(offset: u64, total_len: u64, limit: u64) -> (r: Result<ChunkStart, Status>)
    ensures
        offset >= total_len ==> r == Ok::<ChunkStart, Status>(
            ChunkStart::AtEnd(AssetChunk { offset, size: 0, eof: true }),
        ),
        offset < total_len && limit > MAX_CHUNK_SIZE ==> (r matches Err(e) && e@ == (
            Code::InvalidArgument,
            "limit too large"@,
        )),
        offset < total_len && limit <= MAX_CHUNK_SIZE ==> (r matches Ok(
            ChunkStart::Read { stream, chunk_size },
        ) && stream == (ChunkStream { start: offset, pos: offset, total_len }) && chunk_size
            == if limit == 0 {
            DEFAULT_CHUNK_SIZE
        } else {
            limit
        }),
{
    if offset >= total_len {
        return Ok(ChunkStart::AtEnd(AssetChunk { offset, size: 0, eof: true }));
    }
    match choose_chunk_size(limit) {
        Ok(chunk_size) => Ok(
            ChunkStart::Read {
                stream: ChunkStream { start: offset, pos: offset, total_len },
                chunk_size,
            },
        ),
        Err(e) => Err(e),
    }
}

impl ChunkStream {
    /// The next chunk after a read of `n` bytes. A read of none is the end, wherever
    /// it comes; otherwise the chunk that reaches the length is the last.
    pub open spec fn chunk(self, n: usize) -> AssetChunk {
        AssetChunk {
            offset: self.pos,
            size: n,
            eof: n == 0 || self.pos + n >= self.total_len,
        }
    }

    pub fn on_read(&mut self, n: usize) -> (r: AssetChunk)
        requires
            old(self).pos + n <= u64::MAX,
        ensures
            r == old(self).chunk(n),
            *final(self) == (ChunkStream { pos: (old(self).pos + n) as u64, ..*old(self) }),
    {
        let end: u64 = self.pos + n as u64;
        let r = AssetChunk { offset: self.pos, size: n, eof: n == 0 || end >= self.total_len };
        self.pos = end;
        r
    }

    /// As `on_read`, for tracks: where a read of none comes after others, the stream
    /// ends without another chunk.
    pub fn on_track_read(&mut self, n: usize) -> (r: Option<AssetChunk>)
        requires
            old(self).pos + n <= u64::MAX,
        ensures
            r == if n == 0 && old(self).pos != old(self).start {
                None
            } else {
                Some(old(self).chunk(n))
            },
            *final(self) == (ChunkStream { pos: (old(self).pos + n) as u64, ..*old(self) }),
    {
        let is_silent = n == 0 && self.pos != self.start;
        let chunk = self.on_read(n);
        if is_silent {
            None
        } else {
            Some(chunk)
        }
    }
}

/// The sum of the sizes of the first `k` reads.
pub open spec fn bytes_before(sizes: Seq<usize>, k: int) -> nat
    decreases k,
{
    if k <= 0 {
        0
    } else {
        bytes_before(sizes, k - 1) + sizes[k - 1] as nat
    }
}

/// The stream before the `k`th of the reads.
pub open spec fn stream_at(s: ChunkStream, sizes: Seq<usize>, k: int) -> ChunkStream
    decreases k,
{
    if k <= 0 {
        s
    } else {
        let before = stream_at(s, sizes, k - 1);
        ChunkStream { pos: (before.pos + sizes[k - 1]) as u64, ..before }
    }
}

/// The chunks of a file lie side by side: each begins where the one before it ends,
/// the first at the start.
pub proof fn chunks_are_contiguous(s: ChunkStream, sizes: Seq<usize>, k: int)
    requires
        0 <= k < sizes.len(),
        s.pos + bytes_before(sizes, k + 1) <= u64::MAX,
    ensures
        stream_at(s, sizes, k).chunk(sizes[k]).offset == s.pos + bytes_before(sizes, k),
        k > 0 ==> stream_at(s, sizes, k).chunk(sizes[k]).offset == stream_at(
            s,
            sizes,
            k - 1,
        ).chunk(sizes[k - 1]).offset + sizes[k - 1],
    decreases k,
{
    if k > 0 {
        assert(bytes_before(sizes, k + 1) == bytes_before(sizes, k) + sizes[k]);
        chunks_are_contiguous(s, sizes, k - 1);
        assert(bytes_before(sizes, k) == bytes_before(sizes, k - 1) + sizes[k - 1]);
    }
}

/// Of reads that are not empty, exactly the one that reaches the length of the file
/// gives the last chunk.
pub proof fn last_chunk_reaches_the_end(s: ChunkStream, sizes: Seq<usize>, k: int)
    requires
        0 <= k < sizes.len(),
        sizes[k] > 0,
        s.pos + bytes_before(sizes, k + 1) <= u64::MAX,
    ensures
        stream_at(s, sizes, k).chunk(sizes[k]).eof <==> s.pos + bytes_before(sizes, k + 1)
            >= s.total_len,
{
    chunks_are_contiguous(s, sizes, k);
    lemma_stream_keeps_length(s, sizes, k);
    assert(bytes_before(sizes, k + 1) == bytes_before(sizes, k) + sizes[k]);
}

proof fn lemma_stream_keeps_length(s: ChunkStream, sizes: Seq<usize>, k: int)
    ensures
        stream_at(s, sizes, k).total_len == s.total_len,
    decreases k,
{
    if k > 0 {
        lemma_stream_keeps_length(s, sizes, k - 1);
    }
}

/// A chunk stands where the reading stood, is as long as what was read, and is the last where
/// nothing was read or the length of the file is reached.
pub proof fn chunk_is_what_was_read(s: ChunkStream, n: usize)
    ensures
        s.chunk(n).offset == s.pos,
        s.chunk(n).size == n,
        n == 0 ==> s.chunk(n).eof,
        n > 0 ==> s.chunk(n).eof == (s.pos + n >= s.total_len),
{
}

/// Reads add up, and the stream stands behind all of them; where it began and how long the
/// file is stays.
pub proof fn reads_move_the_stream_on(s: ChunkStream, sizes: Seq<usize>, k: int)
    requires
        0 <= k < sizes.len(),
        s.pos + bytes_before(sizes, k + 1) <= u64::MAX,
    ensures
        bytes_before(sizes, 0) == 0,
        bytes_before(sizes, k + 1) == bytes_before(sizes, k) + sizes[k],
        stream_at(s, sizes, k).pos == s.pos + bytes_before(sizes, k),
        stream_at(s, sizes, k).start == s.start,
        stream_at(s, sizes, k).total_len == s.total_len,
    decreases k,
{
    if k > 0 {
        reads_move_the_stream_on(s, sizes, k - 1);
    }
}

} // verus!
