//! Content fingerprints: a seeded XXH64 digest over the buffers that a file is
//! read through.
//!
//! A file is read into one buffer of `CHUNK_SIZE` bytes, over and over. After
//! every read the whole buffer goes into the digest, also after the last read,
//! which brings nothing. Bytes of the buffer that a short read has left untouched
//! are digested again as they stand, so a fingerprint identifies a content only
//! together with its length: the store always compares both.

use std::hash::Hasher;
use twox_hash::XxHash64;
use vstd::bytes::*;
use vstd::prelude::*;
use vstd::slice::slice_subrange;

verus! {

/// Seed of every fingerprint. It is fixed, so that fingerprints stay comparable
/// between runs and between machines.
pub const SEED: u64 = 0x431C_71C5_AD99_39B4;

/// Size of the buffer that a file is read through, in bytes.
pub const CHUNK_SIZE: usize = 65536;

#[verifier::external_type_specification]
#[verifier::external_body]
pub struct ExXxHash64(XxHash64);

/// The XXH64 digest of `data` under `seed`.
pub uninterp spec fn xxh64(seed: u64, data: Seq<u8>) -> u64;

/// The seed that a hasher was made with.
pub uninterp spec fn hasher_seed(hasher: XxHash64) -> u64;

/// All bytes written to a hasher since it was made, in order.
pub uninterp spec fn hasher_input(hasher: XxHash64) -> Seq<u8>;

/// `XxHash64::with_seed`: a hasher with the given seed, to which nothing has been
/// written yet.
#[verifier::external_body]
fn hasher_with_seed(seed: u64) -> (hasher: XxHash64)
    ensures
        hasher_seed(hasher) == seed,
        hasher_input(hasher) == Seq::<u8>::empty(),
{
    XxHash64::with_seed(seed)
}

/// `Hasher::write` of `XxHash64`: appends `data` to what the hasher has taken in
/// and keeps its seed. The hasher counts its input in a `u64`, so the total has
/// to fit there.
#[verifier::external_body]
fn hasher_write(hasher: &mut XxHash64, data: &[u8])
    requires
        hasher_input(*old(hasher)).len() + data@.len() <= u64::MAX,
    ensures
        hasher_seed(*final(hasher)) == hasher_seed(*old(hasher)),
        hasher_input(*final(hasher)) == hasher_input(*old(hasher)) + data@,
{
    hasher.write(data)
}

/// `Hasher::finish` of `XxHash64`: the XXH64 digest, under the hasher's seed, of
/// everything written to it. The hasher stays as it was.
#[verifier::external_body]
fn hasher_finish(hasher: &XxHash64) -> (digest: u64)
    ensures
        digest == xxh64(hasher_seed(*hasher), hasher_input(*hasher)),
{
    hasher.finish()
}

/// `XxHash64::total_len`: the number of bytes written to the hasher so far.
#[verifier::external_body]
fn hasher_total_len(hasher: &XxHash64) -> (n: u64)
    ensures
        n == hasher_input(*hasher).len(),
{
    hasher.total_len()
}

/// The read buffer before the first read: `CHUNK_SIZE` zero bytes.
pub open spec fn blank_chunk() -> Seq<u8> {
    Seq::new(CHUNK_SIZE as nat, |i: int| 0u8)
}

/// The read buffer after a read that brought `read`: the new bytes in front,
/// behind them what the buffer held there before.
pub open spec fn refill(chunk: Seq<u8>, read: Seq<u8>) -> Seq<u8>
    recommends
        read.len() <= chunk.len(),
{
    read + chunk.skip(read.len() as int)
}

/// The bytes that go into the digest from offset `pos` of `content` on, when
/// every read fills the buffer as far as the content reaches and the buffer
/// holds `chunk` before the next read.
pub open spec fn digested_from(content: Seq<u8>, chunk: Seq<u8>, pos: int) -> Seq<u8>
    decreases content.len() - pos,
{
    if 0 <= pos < content.len() {
        let end = if content.len() - pos < CHUNK_SIZE {
            content.len() as int
        } else {
            pos + CHUNK_SIZE
        };
        let next = refill(chunk, content.subrange(pos, end));
        next + digested_from(content, next, end)
    } else {
        chunk
    }
}

/// Everything that goes into the digest of a file with this content.
pub open spec fn digested(content: Seq<u8>) -> Seq<u8> {
    digested_from(content, blank_chunk(), 0)
}

/// The fingerprint of a file with this content.
pub open spec fn content_checksum(content: Seq<u8>) -> u64 {
    xxh64(SEED, digested(content))
}

/// A content fingerprint: eight bytes, the digest in little-endian order.
#[derive(Debug, Clone, Copy, PartialEq, Eq)]
pub struct Checksum {
    sum: [u8; 8],
}

impl View for Checksum {
    type V = u64;

    /// The digest that the eight bytes spell.
    closed spec fn view(&self) -> u64 {
        spec_u64_from_le_bytes(self.sum@)
    }
}

impl Default for Checksum {
    fn default() -> (c: Self)
        ensures
            c@ == 0,
    {
        Checksum::from(0)
    }
}

impl From<u64> for Checksum {
    fn from(value: u64) -> (c: Self)
        ensures
            c@ == value,
    {
        let le = u64_to_le_bytes(value);
        proof {
            lemma_auto_spec_u64_to_from_le_bytes();
        }
        let sum: [u8; 8] = [le[0], le[1], le[2], le[3], le[4], le[5], le[6], le[7]];
        assert(sum@ =~= le@);
        Checksum { sum }
    }
}

impl vstd::std_specs::convert::FromSpecImpl<u64> for Checksum {
    open spec fn obeys_from_spec() -> bool {
        true
    }

    open spec fn from_spec(value: u64) -> Self {
        Checksum::of(value)
    }
}

impl Checksum {
    /// The checksum whose digest is `value`.
    pub closed spec fn of(value: u64) -> Checksum {
        let le = spec_u64_to_le_bytes(value);
        Checksum { sum: [le[0], le[1], le[2], le[3], le[4], le[5], le[6], le[7]] }
    }

    /// The eight bytes as the store keeps them.
    pub fn bytes(&self) -> (b: [u8; 8])
        ensures
            b@ == spec_u64_to_le_bytes(self@),
    {
        proof {
            lemma_auto_spec_u64_to_from_le_bytes();
        }
        self.sum
    }

    /// The digest as a number.
    pub fn value(&self) -> (v: u64)
        ensures
            v == self@,
    {
        u64_from_le_bytes(self.sum.as_slice())
    }

    /// The fingerprint of a file that holds `content`, read through the buffer
    /// in full chunks as far as the content reaches. No slice is longer than
    /// `isize::MAX`.
    pub fn compute(content: &[u8]) -> (c: Checksum)
        requires
            content@.len() <= isize::MAX,
        ensures
            c@ == content_checksum(content@),
    {
        let mut stream = ChecksumStream::new();
        let mut pos: usize = 0;
        let mut done = false;
        while !done
            invariant
                pos <= content@.len(),
                content@.len() <= isize::MAX,
                stream.wf(),
                stream.chunk().len() == CHUNK_SIZE,
                !done ==> stream.digested().len() == pos || (pos == content@.len()
                    && stream.digested().len() < pos + CHUNK_SIZE),
                !done ==> stream.digested() + digested_from(content@, stream.chunk(), pos as int)
                    == digested(content@),
                done ==> stream.digested() == digested(content@),
            decreases content@.len() - pos + (if done { 0int } else { 1int }),
        {
            let end: usize = if content.len() - pos < CHUNK_SIZE {
                content.len()
            } else {
                pos + CHUNK_SIZE
            };
            let read = slice_subrange(content, pos, end);
            proof {
                let before = stream.chunk();
                let next = refill(before, read@);
                assert(digested_from(content@, before, pos as int) == if pos < content@.len() {
                    next + digested_from(content@, next, end as int)
                } else {
                    before
                });
                if pos == content@.len() {
                    assert(read@ =~= Seq::<u8>::empty());
                    assert(next =~= before);
                }
            }
            done = stream.absorb(read);
            pos = end;
        }
        stream.finish()
    }
}

/// A fingerprint in the making: the read buffer and the digest of what has gone
/// through it.
pub struct ChecksumStream {
    hasher: XxHash64,
    chunk: Vec<u8>,
}

impl ChecksumStream {
    /// The buffer has its full size and the digest runs under `SEED`.
    pub closed spec fn wf(&self) -> bool {
        &&& self.chunk@.len() == CHUNK_SIZE
        &&& hasher_seed(self.hasher) == SEED
    }

    /// What the read buffer holds.
    pub closed spec fn chunk(&self) -> Seq<u8> {
        self.chunk@
    }

    /// Everything that has gone into the digest so far.
    pub closed spec fn digested(&self) -> Seq<u8> {
        hasher_input(self.hasher)
    }

    /// Whether the digest can take one more buffer.
    pub open spec fn has_room(&self) -> bool {
        self.digested().len() + CHUNK_SIZE <= u64::MAX
    }

    /// A stream with a blank buffer and nothing digested.
    pub fn new() -> (stream: Self)
        ensures
            stream.wf(),
            stream.chunk() == blank_chunk(),
            stream.digested() == Seq::<u8>::empty(),
    {
        let chunk = vec![0u8; CHUNK_SIZE];
        assert(chunk@ =~= blank_chunk());
        ChecksumStream { hasher: hasher_with_seed(SEED), chunk }
    }

    /// Takes in what one read of a file brought: the bytes go to the front of
    /// the buffer, then the whole buffer goes into the digest. Returns whether
    /// the file has ended, which is when the read brought nothing.
    pub fn absorb(&mut self, read: &[u8]) -> (done: bool)
        requires
            old(self).wf(),
            read@.len() <= CHUNK_SIZE,
            old(self).has_room(),
        ensures
            final(self).wf(),
            final(self).chunk() == refill(old(self).chunk(), read@),
            final(self).digested() == old(self).digested() + final(self).chunk(),
            done == (read@.len() == 0),
    {
        let ghost before = self.chunk@;
        let n: usize = read.len();
        let mut i: usize = 0;
        while i < n
            invariant
                n == read@.len(),
                n <= CHUNK_SIZE,
                i <= n,
                self.chunk@.len() == CHUNK_SIZE,
                before.len() == CHUNK_SIZE,
                self.chunk@ == read@.take(i as int) + before.skip(i as int),
                self.hasher == old(self).hasher,
            decreases n - i,
        {
            self.chunk.set(i, read[i]);
            i += 1;
            assert(self.chunk@ =~= read@.take(i as int) + before.skip(i as int));
        }
        assert(read@.take(n as int) =~= read@);
        hasher_write(&mut self.hasher, self.chunk.as_slice());
        n == 0
    }

    /// The same as `absorb` where the digest has room for one more buffer;
    /// otherwise `None`, and the stream stays as it was.
    pub fn try_absorb(&mut self, read: &[u8]) -> (done: Option<bool>)
        requires
            old(self).wf(),
            read@.len() <= CHUNK_SIZE,
        ensures
            final(self).wf(),
            done is Some <==> old(self).has_room(),
            done matches Some(d) ==> {
                &&& final(self).chunk() == refill(old(self).chunk(), read@)
                &&& final(self).digested() == old(self).digested() + final(self).chunk()
                &&& d == (read@.len() == 0)
            },
            done is None ==> *final(self) == *old(self),
    {
        if hasher_total_len(&self.hasher) <= u64::MAX - CHUNK_SIZE as u64 {
            Some(self.absorb(read))
        } else {
            None
        }
    }

    /// The fingerprint of what has been digested so far.
    pub fn finish(&self) -> (c: Checksum)
        requires
            self.wf(),
        ensures
            c@ == xxh64(SEED, self.digested()),
    {
        Checksum::from(hasher_finish(&self.hasher))
    }
}

} // verus!
