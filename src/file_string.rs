use vstd::prelude::*;
use vstd::slice::slice_to_vec;
use vstd::utf8::encode_utf8;

verus! {

/// Where a seek offset is measured from.
#[derive(Clone, Copy, Debug, PartialEq, Eq, Structural)]
pub enum SeekFrom {
    /// An absolute offset from the first byte.
    Start(u64),
    /// A signed offset from the current cursor.
    Current(i64),
    /// A signed offset from the end of the buffer.
    End(i64),
}

/// The one way a stream operation fails: a seek whose destination is negative.
#[derive(Clone, Copy, Debug, PartialEq, Eq, Structural)]
pub enum StreamError {
    InvalidInput,
}

impl StreamError {
    /// The human-readable text carried by the error.
    pub fn message(&self) -> (r: &'static str)
        ensures
            r@ == "Destination cannot be negative"@,
    {
        "Destination cannot be negative"
    }
}

/// The number of bytes a read copies, from cursor `pos`, out of `len` bytes of
/// data, into a buffer of capacity `n`.
pub open spec fn read_count(pos: nat, len: nat, n: nat) -> nat {
    if pos >= len {
        0
    } else if n <= len - pos {
        n
    } else {
        (len - pos) as nat
    }
}

/// The destination of a seek from cursor `pos` over `len` bytes of data.
pub open spec fn seek_target(pos: nat, len: nat, whence: SeekFrom) -> int {
    match whence {
        SeekFrom::Start(u) => u as int,
        SeekFrom::Current(d) => pos + d,
        SeekFrom::End(d) => len + d,
    }
}

/// Seeking to the absolute offset `k` and then reading into a buffer of
/// capacity `n` copies exactly the bytes from `k` up to `k + n` or the end of
/// the data, whichever comes first: none when `k` is at or past the end.
pub proof fn lemma_seek_start_then_read(data: Seq<u8>, pos: nat, k: u64, n: nat)
    ensures
        seek_target(pos, data.len(), SeekFrom::Start(k)) == k,
        k < data.len() ==> k + read_count(k as nat, data.len(), n) == if k + n <= data.len() {
            k + n
        } else {
            data.len() as int
        },
        k >= data.len() ==> read_count(k as nat, data.len(), n) == 0,
{
}

/// Once the cursor is at or past the end, a read copies nothing and leaves the
/// cursor where it is, so the next read copies nothing either.
pub proof fn lemma_reads_after_end(len: nat, pos: nat, n1: nat, n2: nat)
    requires
        pos >= len,
    ensures
        read_count(pos, len, n1) == 0,
        read_count(pos + read_count(pos, len, n1), len, n2) == 0,
{
}

/// An immutable byte buffer with a read cursor. The cursor may stand past the
/// end of the data, where reads return nothing.
pub struct FileString {
    data: Vec<u8>,
    pointer: u64,
}

impl FileString {
    /// The bytes of the stream.
    pub closed spec fn bytes(&self) -> Seq<u8> {
        self.data@
    }

    /// The read cursor.
    pub closed spec fn pos(&self) -> nat {
        self.pointer as nat
    }

    /// A stream over `data`, with the cursor at its start.
    pub fn new(data: Vec<u8>) -> (r: FileString)
        ensures
            r.bytes() == data@,
            r.pos() == 0,
    {
        FileString { data, pointer: 0 }
    }

    /// A stream over a copy of `data`, with the cursor at its start.
    pub fn from_slice(data: &[u8]) -> (r: FileString)
        ensures
            r.bytes() == data@,
            r.pos() == 0,
    {
        FileString { data: slice_to_vec(data), pointer: 0 }
    }

    /// A stream over the UTF-8 encoding of `data`, with the cursor at its start.
    pub fn from_string(data: String) -> (r: FileString)
        ensures
            r.bytes() == encode_utf8(data@),
            r.pos() == 0,
    {
        FileString::from_str(data.as_str())
    }

    /// A stream over the UTF-8 encoding of `data`, with the cursor at its start.
    pub fn from_str(data: &str) -> (r: FileString)
        ensures
            r.bytes() == encode_utf8(data@),
            r.pos() == 0,
    {
        FileString { data: slice_to_vec(data.as_bytes()), pointer: 0 }
    }

    /// The number of bytes in the stream.
    pub fn len(&self) -> (r: usize)
        ensures
            r == self.bytes().len(),
    {
        self.data.len()
    }

    /// The read cursor.
    pub fn position(&self) -> (r: u64)
        ensures
            r == self.pos(),
    {
        self.pointer
    }

    /// Copies the bytes from the cursor on into the front of `buf`, as many as
    /// fit and as remain, and moves the cursor past them. Returns how many were
    /// copied; the rest of `buf` is left as it was. At or past the end of the
    /// data nothing is copied and the cursor stays.
    pub fn read(&mut self, buf: &mut [u8]) -> (k: usize)
        ensures
            k == read_count(old(self).pos(), old(self).bytes().len(), old(buf)@.len()),
            final(self).bytes() == old(self).bytes(),
            final(self).pos() == old(self).pos() + k,
            final(buf)@.len() == old(buf)@.len(),
            forall|j: int|
                0 <= j < k ==> #[trigger] final(buf)@[j] == old(self).bytes()[old(self).pos() + j],
            final(buf)@.subrange(k as int, old(buf)@.len() as int) == old(buf)@.subrange(
                k as int,
                old(buf)@.len() as int,
            ),
            old(self).pos() >= old(self).bytes().len() ==> final(buf)@ == old(buf)@,
            k < old(buf)@.len() && old(self).pos() <= old(self).bytes().len() ==> final(self).pos()
                == old(self).bytes().len(),
    {
        let len = self.data.len();
        if self.pointer >= len as u64 {
            return 0;
        }
        let start = self.pointer as usize;
        let remaining = len - start;
        let k: usize = if buf.len() <= remaining {
            buf.len()
        } else {
            remaining
        };
        let mut i: usize = 0;
        while i < k
            invariant
                start + k <= len,
                len == self.data@.len(),
                k <= buf@.len(),
                buf@.len() == old(buf)@.len(),
                i <= k,
                forall|j: int| 0 <= j < i ==> buf@[j] == self.data@[start + j],
                forall|j: int| k <= j < buf@.len() ==> buf@[j] == old(buf)@[j],
            decreases k - i,
        {
            buf[i] = self.data[start + i];
            i = i + 1;
        }
        self.pointer = (start + k) as u64;
        assert(buf@.subrange(k as int, buf@.len() as int) =~= old(buf)@.subrange(
            k as int,
            old(buf)@.len() as int,
        ));
        k
    }

    /// Moves the cursor to the destination that `whence` gives and returns it.
    /// A destination past the end is allowed; a negative one fails with
    /// `InvalidInput` and leaves the cursor where it was. The destination must
    /// fit in a `u64`.
    pub fn seek(&mut self, whence: SeekFrom) -> (r: Result<u64, StreamError>)
        requires
            seek_target(old(self).pos(), old(self).bytes().len(), whence) <= u64::MAX,
        ensures
            final(self).bytes() == old(self).bytes(),
            seek_target(old(self).pos(), old(self).bytes().len(), whence) < 0 ==> {
                &&& r == Err::<u64, StreamError>(StreamError::InvalidInput)
                &&& final(self).pos() == old(self).pos()
            },
            seek_target(old(self).pos(), old(self).bytes().len(), whence) >= 0 ==> {
                let t = seek_target(old(self).pos(), old(self).bytes().len(), whence);
                &&& r == Ok::<u64, StreamError>(t as u64)
                &&& final(self).pos() == t
            },
    {
        let target: i128 = match whence {
            SeekFrom::Start(u) => u as i128,
            SeekFrom::Current(d) => self.pointer as i128 + d as i128,
            SeekFrom::End(d) => self.data.len() as i128 + d as i128,
        };
        if target < 0 {
            Err(StreamError::InvalidInput)
        } else {
            self.pointer = target as u64;
            Ok(self.pointer)
        }
    }
}

} // verus!
