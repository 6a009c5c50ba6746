use vstd::prelude::*;

use crate::entry::{read_result_from_raw, read_result_spec, UDF_BLOCKSIZE};
use crate::error::UdfError;

verus! {

/// The number of whole blocks that cover `len` bytes.
pub open spec fn blocks_for_spec(len: nat) -> nat {
    ((len + UDF_BLOCKSIZE - 1) / (UDF_BLOCKSIZE as int)) as nat
}

/// The number of whole blocks that cover `len` bytes.
pub fn blocks_for(len: usize) -> (r: usize)
    ensures
        r == blocks_for_spec(len as nat),
        r * UDF_BLOCKSIZE >= len,
        len > 0 ==> r >= 1,
{
    let r = len / UDF_BLOCKSIZE + if len % UDF_BLOCKSIZE == 0 { 0usize } else { 1usize };
    assert(r * UDF_BLOCKSIZE >= len) by (nonlinear_arith)
        requires
            r == len / 2048 + if len % 2048 == 0 { 0int } else { 1int },
    ;
    assert(r == (len + UDF_BLOCKSIZE - 1) / (UDF_BLOCKSIZE as int)) by (nonlinear_arith)
        requires
            r == len / 2048 + if len % 2048 == 0 { 0int } else { 1int },
    ;
    r
}

/// What one call of `UdfFile::read` asks for.
#[derive(Debug, Clone, Copy, PartialEq, Eq, Structural)]
pub enum ReadStep {
    /// This many bytes were appended to the output; `0` at the end of the file.
    Done(usize),
    /// Too few bytes are staged to fill the request: this many blocks must be
    /// read from the entry and handed to `UdfFile::supply` before the read is
    /// retried.
    NeedBlocks(usize),
}

/// A byte-stream reader over a regular file of known length, whose content
/// comes from a block reader that continues where it last stopped.
///
/// Bytes taken from the block reader but not yet handed out are staged, so a
/// block that covers two requests is read once, and bytes past the file's
/// length (the padding of its last block) are never taken in.
pub struct UdfFile {
    length: usize,
    idx: usize,
    staged: Vec<u8>,
    staged_pos: usize,
    fetched: usize,
    data: Ghost<Seq<u8>>,
    handed: Ghost<Seq<u8>>,
}

impl UdfFile {
    /// The file's length in bytes.
    pub closed spec fn len(&self) -> nat {
        self.length as nat
    }

    /// The number of bytes handed out so far.
    pub closed spec fn position(&self) -> nat {
        self.idx as nat
    }

    /// Every byte taken from the block reader so far, in order.
    pub closed spec fn content(&self) -> Seq<u8> {
        self.data@
    }

    /// The concatenation of every chunk that `read` has returned.
    pub closed spec fn handed_out(&self) -> Seq<u8> {
        self.handed@
    }

    pub closed spec fn wf(&self) -> bool {
        &&& self.idx <= self.fetched
        &&& self.fetched <= self.length
        &&& self.data@.len() == self.fetched
        &&& self.staged_pos <= self.staged@.len()
        &&& self.staged@.len() - self.staged_pos == self.fetched - self.idx
        &&& self.staged@.subrange(self.staged_pos as int, self.staged@.len() as int)
            == self.data@.subrange(self.idx as int, self.fetched as int)
        &&& self.handed@ == self.data@.take(self.idx as int)
    }

    /// A reader at the start of a file of `length` bytes.
    pub fn new(length: u32) -> (r: UdfFile)
        ensures
            r.wf(),
            r.len() == length,
            r.position() == 0,
            r.content() == Seq::<u8>::empty(),
            r.handed_out() == Seq::<u8>::empty(),
    {
        let r = UdfFile {
            length: length as usize,
            idx: 0,
            staged: Vec::new(),
            staged_pos: 0,
            fetched: 0,
            data: Ghost(Seq::empty()),
            handed: Ghost(Seq::empty()),
        };
        assert(r.data@.subrange(0, 0) =~= Seq::<u8>::empty());
        assert(r.staged@.subrange(0, 0) =~= Seq::<u8>::empty());
        assert(r.data@.take(0) =~= Seq::<u8>::empty());
        r
    }

    pub fn file_length(&self) -> (r: usize)
        ensures
            r == self.len(),
    {
        self.length
    }

    pub fn position_of(&self) -> (r: usize)
        ensures
            r == self.position(),
    {
        self.idx
    }

    /// Hands out up to `max` bytes, appending them to `out`.
    ///
    /// The request is clipped to the file's end. Where enough bytes are
    /// staged, exactly that many are handed out; otherwise the reader asks for
    /// the blocks that cover the shortfall and changes nothing.
    pub fn read(&mut self, max: usize, out: &mut Vec<u8>) -> (r: ReadStep)
        requires
            old(self).wf(),
        ensures
            final(self).wf(),
            final(self).len() == old(self).len(),
            final(self).content() == old(self).content(),
            max == 0 || old(self).position() == old(self).len() ==> r == ReadStep::Done(0),
            max > 0 && r == ReadStep::Done(0) ==> old(self).position() == old(self).len(),
            max > 0 && old(self).content().len() - old(self).position() >= vstd::math::min(
                max as int,
                old(self).len() - old(self).position(),
            ) ==> r == ReadStep::Done(
                vstd::math::min(max as int, old(self).len() - old(self).position()) as usize,
            ),
            max > 0 && old(self).content().len() - old(self).position() < vstd::math::min(
                max as int,
                old(self).len() - old(self).position(),
            ) ==> r == ReadStep::NeedBlocks(
                blocks_for_spec(
                    (vstd::math::min(max as int, old(self).len() - old(self).position()) - (old(self).content().len()
                        - old(self).position())) as nat,
                ) as usize,
            ),
            match r {
                ReadStep::Done(n) => {
                    &&& n <= max
                    &&& final(self).position() == old(self).position() + n
                    &&& final(self).position() <= final(self).len()
                    &&& final(out)@ == old(out)@ + old(self).content().subrange(
                        old(self).position() as int,
                        old(self).position() + n,
                    )
                    &&& final(self).handed_out() == old(self).handed_out() + old(self).content().subrange(
                        old(self).position() as int,
                        old(self).position() + n,
                    )
                },
                ReadStep::NeedBlocks(c) => {
                    &&& c >= 1
                    &&& *final(self) == *old(self)
                    &&& final(out)@ == old(out)@
                },
            },
    {
        if max == 0 || self.idx == self.length {
            assert(self.data@.subrange(self.idx as int, self.idx as int) =~= Seq::<u8>::empty());
            assert(out@ =~= out@ + Seq::<u8>::empty());
            assert(self.handed@ =~= self.handed@ + Seq::<u8>::empty());
            return ReadStep::Done(0);
        }
        let remaining = self.length - self.idx;
        let want = if max < remaining { max } else { remaining };
        let avail = self.fetched - self.idx;
        if avail < want {
            let c = blocks_for(want - avail);
            return ReadStep::NeedBlocks(c);
        }
        let n = want;
        let slen = self.staged.len();
        let ghost out0 = out@;
        let ghost self0 = *self;
        let mut i: usize = 0;
        while i < n
            invariant
                self0.wf(),
                *self == self0,
                0 <= i <= n,
                n <= avail,
                slen == self.staged@.len(),
                avail == self.fetched - self.idx,
                out@ == out0 + self.data@.subrange(self.idx as int, self.idx + i),
            decreases n - i,
        {
            proof {
                assert(self.staged@.subrange(self.staged_pos as int, self.staged@.len() as int)[i as int]
                    == self.data@.subrange(self.idx as int, self.fetched as int)[i as int]);
            }
            out.push(self.staged[self.staged_pos + i]);
            proof {
                assert(out@ =~= out0 + self.data@.subrange(self.idx as int, self.idx + i + 1));
            }
            i = i + 1;
        }
        let ghost chunk = self.data@.subrange(self.idx as int, self.idx + n);
        self.idx = self.idx + n;
        self.staged_pos = self.staged_pos + n;
        self.handed = Ghost(self.handed@ + chunk);
        proof {
            assert(self.handed@ =~= self.data@.take(self.idx as int));
            assert(self.staged@.subrange(self.staged_pos as int, self.staged@.len() as int) =~= self.data@.subrange(
                self.idx as int,
                self.fetched as int,
            )) by {
                assert(self0.staged@.subrange(self0.staged_pos as int, self0.staged@.len() as int)
                    == self0.data@.subrange(self0.idx as int, self0.fetched as int));
                assert forall|k: int| 0 <= k < self.staged@.len() - self.staged_pos implies
                    #[trigger] self.staged@.subrange(self.staged_pos as int, self.staged@.len() as int)[k]
                    == self.data@.subrange(self.idx as int, self.fetched as int)[k] by {
                    assert(self0.staged@.subrange(self0.staged_pos as int, self0.staged@.len() as int)[n + k]
                        == self0.data@.subrange(self0.idx as int, self0.fetched as int)[n + k]);
                }
            }
        }
        ReadStep::Done(n)
    }

    /// Takes in one block read: `raw` is what the block reader returned after
    /// filling `block`. A failed read, or one that returns no bytes while the
    /// file has more, changes nothing and is reported. Otherwise the bytes read,
    /// clipped to the file's end, are staged behind those still waiting, and
    /// their number is returned.
    pub fn supply(&mut self, block: &Vec<u8>, raw: i64) -> (r: Result<usize, UdfError>)
        requires
            old(self).wf(),
        ensures
            final(self).wf(),
            final(self).len() == old(self).len(),
            final(self).position() == old(self).position(),
            final(self).handed_out() == old(self).handed_out(),
            match read_result_spec(raw, block@.len() as usize) {
                Err(e) => r == Err::<usize, UdfError>(e) && *final(self) == *old(self),
                Ok(n) => {
                    let take = vstd::math::min(n as int, old(self).len() - old(self).content().len());
                    if take == 0 && old(self).content().len() < old(self).len() {
                        r == Err::<usize, UdfError>(UdfError::ShortRead) && *final(self) == *old(self)
                    } else {
                        &&& r == Ok::<usize, UdfError>(take as usize)
                        &&& final(self).content() == old(self).content() + block@.take(take)
                    }
                },
            },
    {
        let n = match read_result_from_raw(raw, block.len()) {
            Ok(n) => n,
            Err(e) => return Err(e),
        };
        let room = self.length - self.fetched;
        let take = if n < room { n } else { room };
        if take == 0 && self.fetched < self.length {
            return Err(UdfError::ShortRead);
        }
        let slen = self.staged.len();
        let mut next: Vec<u8> = Vec::new();
        let mut i: usize = self.staged_pos;
        while i < slen
            invariant
                self.staged_pos <= i <= slen,
                slen == self.staged@.len(),
                next@ == self.staged@.subrange(self.staged_pos as int, i as int),
            decreases slen - i,
        {
            next.push(self.staged[i]);
            proof {
                assert(next@ =~= self.staged@.subrange(self.staged_pos as int, i + 1));
            }
            i = i + 1;
        }
        let ghost kept = next@;
        let mut j: usize = 0;
        while j < take
            invariant
                0 <= j <= take,
                take <= n,
                n <= block@.len(),
                next@ == kept + block@.take(j as int),
            decreases take - j,
        {
            next.push(block[j]);
            proof {
                assert(next@ =~= kept + block@.take(j + 1));
            }
            j = j + 1;
        }
        let ghost data0 = self.data@;
        proof {
            assert(kept == data0.subrange(self.idx as int, self.fetched as int));
        }
        self.staged = next;
        self.staged_pos = 0;
        self.fetched = self.fetched + take;
        self.data = Ghost(data0 + block@.take(take as int));
        proof {
            assert(self.staged@.subrange(0, self.staged@.len() as int) =~= self.data@.subrange(
                self.idx as int,
                self.fetched as int,
            ));
            assert(self.data@.take(self.idx as int) =~= data0.take(self.idx as int));
        }
        Ok(take)
    }

    /// Whatever the sizes of the reads so far, the chunks they returned are,
    /// concatenated, the first `position()` bytes of the content, and neither
    /// the position nor the bytes taken in reach past the file's length.
    pub proof fn lemma_handed_out_is_prefix(&self)
        requires
            self.wf(),
        ensures
            self.handed_out() == self.content().take(self.position() as int),
            self.position() <= self.content().len(),
            self.content().len() <= self.len(),
    {
    }

    /// Reading to the end: once the position is the length (a read of a
    /// non-empty request returned 0), the chunks returned, whatever their
    /// sizes, are exactly `len()` bytes: all of the content, as one read of the
    /// whole length returns it.
    pub proof fn lemma_read_to_end(&self)
        requires
            self.wf(),
            self.position() == self.len(),
        ensures
            self.handed_out().len() == self.len(),
            self.handed_out() == self.content(),
            self.content().len() == self.len(),
    {
        assert(self.data@.take(self.idx as int) =~= self.data@);
    }

    /// Chunked reading matches one full-length read: two readers of the same
    /// file that have both read to the end, each in its own chunk sizes, have
    /// handed out the same bytes, given that the block reader gave both the
    /// same bytes.
    pub proof fn lemma_chunked_matches_whole(&self, other: &UdfFile)
        requires
            self.wf(),
            other.wf(),
            self.len() == other.len(),
            self.position() == self.len(),
            other.position() == other.len(),
            self.content() == other.content(),
        ensures
            self.handed_out() == other.handed_out(),
            self.handed_out().len() == self.len(),
    {
        self.lemma_read_to_end();
        other.lemma_read_to_end();
    }
}

} // verus!
