use vstd::prelude::*;

verus! {

/// Failure reported by a byte source while reading or seeking.
#[derive(Debug, Clone, Copy, PartialEq, Eq, Structural)]
pub enum IoError {
    /// The requested position cannot be reached.
    Unreachable,
    /// The backing store failed.
    Failed,
}

/// A sequential-readable, seekable byte provider.
///
/// Its abstract state is the byte sequence it serves (`contents`) and the
/// absolute offset of the next byte to read (`offset`), which never lies
/// past the end of the contents.
pub trait Source: Sized {
    spec fn contents(&self) -> Seq<u8>;

    spec fn offset(&self) -> nat;

    /// Whether reads and seeks on this source never fail.
    spec fn infallible(&self) -> bool;

    /// Reads at most `max_len` bytes at the current offset and advances past them.
    /// An empty result for a non-zero request means the end has been reached.
    fn read_chunk(&mut self, max_len: u64) -> (r: Result<Vec<u8>, IoError>)
        requires
            old(self).offset() <= old(self).contents().len(),
        ensures
            final(self).contents() == old(self).contents(),
            final(self).offset() <= final(self).contents().len(),
            final(self).infallible() == old(self).infallible(),
            old(self).infallible() ==> r is Ok,
            match r {
                Ok(bytes) => {
                    &&& bytes@.len() <= max_len
                    &&& final(self).offset() == old(self).offset() + bytes@.len()
                    &&& bytes@ == old(self).contents().subrange(
                        old(self).offset() as int,
                        final(self).offset() as int,
                    )
                    &&& (bytes@.len() == 0 && max_len > 0) ==> old(self).offset()
                        == old(self).contents().len()
                },
                Err(_) => true,
            },
    ;

    /// Moves to an absolute offset. An implementation must reach every offset
    /// from zero up to the end of its contents (so a store that cannot seek
    /// back cannot be a `Source`); the size callback relies on this to put the
    /// position back exactly. Offsets past the end may be refused.
    fn seek_absolute(&mut self, target: u64) -> (r: Result<u64, IoError>)
        requires
            old(self).offset() <= old(self).contents().len(),
        ensures
            final(self).contents() == old(self).contents(),
            final(self).offset() <= final(self).contents().len(),
            final(self).infallible() == old(self).infallible(),
            target <= old(self).contents().len() ==> r is Ok,
            match r {
                Ok(n) => n == target && final(self).offset() == target,
                Err(_) => final(self).offset() == old(self).offset(),
            },
    ;

    /// Moves to the end of the contents and returns that offset.
    fn seek_end(&mut self) -> (r: Result<u64, IoError>)
        requires
            old(self).offset() <= old(self).contents().len(),
        ensures
            final(self).contents() == old(self).contents(),
            final(self).offset() <= final(self).contents().len(),
            final(self).infallible() == old(self).infallible(),
            old(self).infallible() ==> r is Ok,
            match r {
                Ok(n) => n == old(self).contents().len() && final(self).offset() == n,
                Err(_) => final(self).offset() == old(self).offset(),
            },
    ;

    /// The current absolute offset.
    fn current_offset(&self) -> (r: u64)
        requires
            self.offset() <= self.contents().len(),
        ensures
            r == self.offset(),
    ;
}

/// A source that serves bytes held in memory.
pub struct MemorySource {
    data: Vec<u8>,
    pos: u64,
}

impl MemorySource {
    /// A source over `data`, positioned at its start.
    pub fn new(data: Vec<u8>) -> (r: MemorySource)
        ensures
            r.contents() == data@,
            r.offset() == 0,
            r.infallible(),
    {
        MemorySource { data, pos: 0 }
    }
}

impl Source for MemorySource {
    closed spec fn contents(&self) -> Seq<u8> {
        self.data@
    }

    closed spec fn offset(&self) -> nat {
        self.pos as nat
    }

    closed spec fn infallible(&self) -> bool {
        true
    }

    fn read_chunk(&mut self, max_len: u64) -> (r: Result<Vec<u8>, IoError>) {
        let len: usize = self.data.len();
        let start: usize = self.pos as usize;
        let avail: usize = len - start;
        let n: usize = if (max_len as u128) < (avail as u128) {
            max_len as usize
        } else {
            avail
        };
        let mut out: Vec<u8> = Vec::with_capacity(n);
        let mut i: usize = 0;
        while i < n
            invariant
                start + n <= len,
                len == self.data@.len(),
                i <= n,
                out@ == self.data@.subrange(start as int, start + i),
            decreases n - i,
        {
            out.push(self.data[start + i]);
            i = i + 1;
            assert(out@ =~= self.data@.subrange(start as int, start + i));
        }
        self.pos = (start + n) as u64;
        Ok(out)
    }

    fn seek_absolute(&mut self, target: u64) -> (r: Result<u64, IoError>) {
        if (target as u128) <= (self.data.len() as u128) {
            self.pos = target;
            Ok(target)
        } else {
            Err(IoError::Unreachable)
        }
    }

    fn seek_end(&mut self) -> (r: Result<u64, IoError>) {
        let end: u64 = self.data.len() as u64;
        self.pos = end;
        Ok(end)
    }

    fn current_offset(&self) -> (r: u64) {
        self.pos
    }
}

} // verus!
