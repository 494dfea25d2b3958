//! The archive's byte source and the byte-limited window over it.
//!
//! The source is an in-memory seekable buffer: a byte vector with a cursor.
//! A `Limiter` wraps the source into a bounded sub-stream that delivers the
//! window's bytes in order and then reports end-of-stream.

use vstd::prelude::*;

verus! {

/// A seekable in-memory byte source holding a whole archive.
pub struct ZipSource {
    /// The archive bytes.
    pub data: Vec<u8>,
    /// The read cursor, as a byte offset from the start of the data.
    pub pos: u64,
}

impl ZipSource {
    /// Wraps a byte buffer as a source with the cursor at the start.
    pub fn new(data: Vec<u8>) -> (r: ZipSource)
        ensures
            r.data@ == data@,
            r.pos == 0,
    {
        ZipSource { data, pos: 0 }
    }

    /// Gives the buffer back.
    pub fn into_vec(self) -> (r: Vec<u8>)
        ensures
            r@ == self.data@,
    {
        self.data
    }
}

/// A byte-limited window over the source: at most `count` bytes starting at
/// `start` are delivered, in order; after that, reads report end-of-stream.
/// No seeking is exposed.
pub struct Limiter {
    source: ZipSource,
    start: u64,
    count: u64,
    consumed: u64,
}

impl Limiter {
    /// The window is inside the data and the cursor tracks what was delivered.
    pub closed spec fn wf(self) -> bool {
        &&& self.start + self.count <= self.source.data@.len()
        &&& self.consumed <= self.count
        &&& self.source.pos == self.start + self.consumed
    }

    /// The whole archive held by the wrapped source.
    pub closed spec fn source_data(self) -> Seq<u8> {
        self.source.data@
    }

    /// The bytes of the window.
    pub closed spec fn window(self) -> Seq<u8> {
        self.source.data@.subrange(self.start as int, self.start + self.count)
    }

    /// How many bytes of the window were already delivered.
    pub closed spec fn delivered(self) -> int {
        self.consumed as int
    }

    /// Wraps the source, whose cursor stands at `cur_pos`, into a window of at
    /// most `limit` bytes; a window reaching past the end of the data is
    /// clamped to what the data holds.
    pub fn take(cur_pos: u64, source: ZipSource, limit: u64) -> (r: Limiter)
        requires
            cur_pos == source.pos,
        ensures
            r.wf(),
            r.source_data() == source.data@,
            r.delivered() == 0,
            r.window().len() <= limit,
            cur_pos + limit <= source.data@.len() ==> r.window() == source.data@.subrange(
                cur_pos as int,
                cur_pos + limit,
            ),
            cur_pos <= source.data@.len() ==> r.window() == source.data@.subrange(
                cur_pos as int,
                if cur_pos + limit <= source.data@.len() {
                    cur_pos + limit
                } else {
                    source.data@.len() as int
                },
            ),
            cur_pos > source.data@.len() ==> r.window() == Seq::<u8>::empty(),
    {
        let len: u64 = source.data.len() as u64;
        let start: u64 = if cur_pos <= len {
            cur_pos
        } else {
            len
        };
        let avail: u64 = len - start;
        let count: u64 = if limit <= avail {
            limit
        } else {
            avail
        };
        let mut source = source;
        source.pos = start;
        Limiter { source, start, count, consumed: 0 }
    }

    /// How many bytes of the window are still undelivered.
    pub fn remaining(&self) -> (r: u64)
        requires
            self.wf(),
        ensures
            r == self.window().len() - self.delivered(),
            0 <= self.delivered() <= self.window().len(),
    {
        self.count - self.consumed
    }

    /// Delivers the next chunk of the window: `max` bytes, or fewer at the
    /// window's end; an empty chunk means end-of-stream.
    pub fn read(&mut self, max: usize) -> (chunk: Vec<u8>)
        requires
            old(self).wf(),
        ensures
            final(self).wf(),
            final(self).source_data() == old(self).source_data(),
            final(self).window() == old(self).window(),
            0 <= old(self).delivered() <= old(self).window().len(),
            final(self).delivered() <= final(self).window().len(),
            ({
                let k = if max as int <= old(self).window().len() - old(self).delivered() {
                    max as int
                } else {
                    old(self).window().len() - old(self).delivered()
                };
                &&& chunk@ == old(self).window().subrange(
                    old(self).delivered(),
                    old(self).delivered() + k,
                )
                &&& final(self).delivered() == old(self).delivered() + k
            }),
    {
        let dl: usize = self.source.data.len();
        let left: u64 = self.count - self.consumed;
        let k: u64 = if (max as u64) <= left {
            max as u64
        } else {
            left
        };
        let mut chunk: Vec<u8> = Vec::new();
        assert(self.start + self.consumed + k <= dl);
        let base: usize = (self.start + self.consumed) as usize;
        let kk: usize = k as usize;
        let mut i: usize = 0;
        while i < kk
            invariant
                0 <= i <= kk,
                base + kk <= self.source.data@.len(),
                self.source.data@.len() <= usize::MAX,
                chunk@ == self.source.data@.subrange(base as int, base + i),
            decreases kk - i,
        {
            chunk.push(self.source.data[base + i]);
            i = i + 1;
            assert(chunk@ =~= self.source.data@.subrange(base as int, base + i));
        }
        self.consumed = self.consumed + k;
        self.source.pos = self.start + self.consumed;
        proof {
            assert(chunk@ =~= old(self).window().subrange(
                old(self).delivered(),
                old(self).delivered() + k,
            ));
            assert(self.window() =~= old(self).window());
        }
        chunk
    }

    /// Delivers the whole rest of the window at once.
    pub fn read_all(&mut self) -> (chunk: Vec<u8>)
        requires
            old(self).wf(),
        ensures
            final(self).wf(),
            final(self).source_data() == old(self).source_data(),
            final(self).window() == old(self).window(),
            0 <= old(self).delivered() <= old(self).window().len(),
            chunk@ == old(self).window().subrange(old(self).delivered(), old(self).window().len() as int),
            final(self).delivered() == final(self).window().len(),
    {
        let left: u64 = self.count - self.consumed;
        let mut out: Vec<u8> = Vec::new();
        let mut got = self.read(if left > 4096 { 4096 } else { left as usize });
        proof {
            assert(out@ + got@ =~= old(self).window().subrange(
                old(self).delivered(),
                self.delivered(),
            ));
        }
        while got.len() > 0
            invariant
                self.wf(),
                self.source_data() == old(self).source_data(),
                self.window() == old(self).window(),
                old(self).delivered() <= self.delivered() <= self.window().len(),
                out@ + got@ == old(self).window().subrange(old(self).delivered(), self.delivered()),
                got@.len() == 0 ==> self.delivered() == self.window().len(),
            decreases self.window().len() - self.delivered() + got@.len(),
        {
            let mut g = got;
            out.append(&mut g);
            got = self.read(4096);
            proof {
                assert(out@ + got@ =~= old(self).window().subrange(
                    old(self).delivered(),
                    self.delivered(),
                ));
            }
        }
        proof {
            assert(out@ =~= old(self).window().subrange(
                old(self).delivered(),
                self.window().len() as int,
            ));
        }
        out
    }

    /// Unwraps the window and gives the source back, its cursor wherever the
    /// last read left it.
    pub fn into_inner(self) -> (r: ZipSource)
        ensures
            r.data@ == self.source_data(),
    {
        self.source
    }
}

} // verus!
