use vstd::prelude::*;

use crate::source::Source;

verus! {

/// The value every callback returns to signal that the operation failed.
pub const FAILED: i64 = -1;

/// What a read callback returns for a request of `size` bytes when the source
/// holds `contents` and stands at `offset`: everything up to the end, but no more
/// than was asked for.
pub open spec fn read_count(size: int, contents: Seq<u8>, offset: nat) -> int {
    if size <= contents.len() - offset {
        size
    } else {
        contents.len() - offset
    }
}

/// Read callback: copies up to `size` bytes from `src` into the front of `data`
/// and returns how many were copied, or `FAILED`.
pub fn read<S: Source>(data: &mut Vec<u8>, size: i64, src: &mut S) -> (r: i64)
    requires
        old(src).offset() <= old(src).contents().len(),
        size > 0 ==> old(data)@.len() >= size,
    ensures
        final(src).contents() == old(src).contents(),
        final(src).offset() <= final(src).contents().len(),
        final(src).infallible() == old(src).infallible(),
        final(data)@.len() == old(data)@.len(),
        old(src).infallible() && size >= 0 ==> r >= 0,
        size == 0 ==> r == 0 && *final(src) == *old(src) && final(data)@ == old(data)@,
        size < 0 ==> r == FAILED && *final(src) == *old(src) && final(data)@ == old(data)@,
        size > 0 ==> final(data)@.subrange(size as int, final(data)@.len() as int)
            == old(data)@.subrange(size as int, old(data)@.len() as int),
        r >= 0 ==> {
            &&& r == read_count(size as int, old(src).contents(), old(src).offset())
            &&& final(src).offset() == old(src).offset() + r
            &&& final(data)@.subrange(0, r as int) == old(src).contents().subrange(
                old(src).offset() as int,
                final(src).offset() as int,
            )
            &&& final(data)@.subrange(r as int, final(data)@.len() as int)
                == old(data)@.subrange(r as int, old(data)@.len() as int)
        },
        r < 0 ==> r == FAILED,
{
    if size == 0 {
        return 0;
    }
    if size < 0 {
        return FAILED;
    }
    let ghost contents = src.contents();
    let ghost start = src.offset();
    let ghost data0 = data@;
    let mut done: u64 = 0;
    let want: u64 = size as u64;
    while done < want
        invariant
            want == size,
            size > 0,
            src.infallible() == old(src).infallible(),
            contents == old(src).contents(),
            start == old(src).offset(),
            data0 == old(data)@,
            data@.len() == data0.len(),
            data0.len() >= size,
            done <= want,
            src.contents() == contents,
            src.offset() == start + done,
            src.offset() <= contents.len(),
            data@.subrange(0, done as int) == contents.subrange(start as int, start + done),
            data@.subrange(done as int, data@.len() as int) == data0.subrange(
                done as int,
                data0.len() as int,
            ),
        ensures
            done == want || src.offset() == contents.len(),
        decreases want - done,
    {
        let chunk = match src.read_chunk(want - done) {
            Ok(c) => c,
            Err(_) => {
                assert(data@.subrange(size as int, data@.len() as int) =~= data0.subrange(
                    size as int,
                    data0.len() as int,
                )) by {
                    assert forall|k: int| size <= k < data@.len() implies #[trigger] data@[k]
                        == data0[k] by {
                        assert(data@.subrange(done as int, data@.len() as int)[k - done]
                            == data0.subrange(done as int, data0.len() as int)[k - done]);
                    }
                }
                return FAILED;
            },
        };
        let n: usize = chunk.len();
        if n == 0 {
            break;
        }
        let mut i: usize = 0;
        while i < n
            invariant
                n == chunk@.len(),
                done + n <= want,
                data@.len() == data0.len(),
                data0.len() >= size,
                want == size,
                i <= n,
                data@.subrange(0, done as int) == contents.subrange(start as int, start + done),
                forall|k: int| 0 <= k < i ==> data@[done + k] == chunk@[k],
                data@.subrange(done + i, data@.len() as int) == data0.subrange(
                    done + i,
                    data0.len() as int,
                ),
            decreases n - i,
        {
            let ghost before = data@;
            data.set(done as usize + i, chunk[i]);
            assert(data@.subrange(0, done as int) =~= before.subrange(0, done as int));
            assert(data@.subrange(done + i + 1, data@.len() as int) =~= before.subrange(
                done + i + 1,
                before.len() as int,
            ));
            assert(before.subrange(done + i + 1, before.len() as int) =~= before.subrange(
                done + i,
                before.len() as int,
            ).subrange(1, before.len() - (done + i)));
            i = i + 1;
        }
        assert(chunk@ == contents.subrange(start + done, start + done + n));
        assert forall|k: int| 0 <= k < done + n implies #[trigger] data@[k] == contents[start
            + k] by {
            if k < done {
                assert(data@.subrange(0, done as int)[k] == contents.subrange(
                    start as int,
                    start + done,
                )[k]);
            } else {
                assert(data@[done + (k - done)] == chunk@[k - done]);
            }
        }
        assert(data@.subrange(0, done + n) =~= contents.subrange(start as int, start + done + n));
        done = done + n as u64;
    }
    assert(data@.subrange(size as int, data@.len() as int) =~= data0.subrange(
        size as int,
        data0.len() as int,
    )) by {
        assert forall|k: int| size <= k < data@.len() implies #[trigger] data@[k] == data0[k] by {
            assert(data@.subrange(done as int, data@.len() as int)[k - done] == data0.subrange(
                done as int,
                data0.len() as int,
            )[k - done]);
        }
    }
    done as i64
}

/// Size callback: the total size of `src`, with its offset left where it was.
pub fn get_size<S: Source>(src: &mut S) -> (r: i64)
    requires
        old(src).offset() <= old(src).contents().len(),
    ensures
        final(src).contents() == old(src).contents(),
        final(src).offset() == old(src).offset(),
        final(src).infallible() == old(src).infallible(),
        r == FAILED || r == old(src).contents().len(),
        old(src).infallible() && old(src).contents().len() <= i64::MAX ==> r
            == old(src).contents().len(),
{
    let pos = src.current_offset();
    let end = src.seek_end();
    let restored = src.seek_absolute(pos);
    assert(restored is Ok);
    match end {
        Ok(n) => {
            if n <= i64::MAX as u64 {
                n as i64
            } else {
                FAILED
            }
        },
        Err(_) => FAILED,
    }
}

/// Position callback: the current offset of `src`.
pub fn tell<S: Source>(src: &S) -> (r: i64)
    requires
        src.offset() <= src.contents().len(),
    ensures
        src.offset() <= i64::MAX ==> r == src.offset(),
        src.offset() > i64::MAX ==> r == FAILED,
{
    let pos = src.current_offset();
    if pos <= i64::MAX as u64 {
        pos as i64
    } else {
        FAILED
    }
}

/// Seek callback: moves `src` to the absolute `position` and returns it, or `FAILED`.
pub fn seek<S: Source>(position: i64, src: &mut S) -> (r: i64)
    requires
        old(src).offset() <= old(src).contents().len(),
    ensures
        final(src).contents() == old(src).contents(),
        final(src).offset() <= final(src).contents().len(),
        final(src).infallible() == old(src).infallible(),
        0 <= position <= old(src).contents().len() ==> r == position,
        r >= 0 ==> r == position && final(src).offset() == position,
        r < 0 ==> r == FAILED && final(src).offset() == old(src).offset(),
        position < 0 ==> r == FAILED,
{
    if position < 0 {
        return FAILED;
    }
    match src.seek_absolute(position as u64) {
        Ok(n) => n as i64,
        Err(_) => FAILED,
    }
}


/// Where an adapter's source lives: borrowed from the caller, or owned.
pub enum SourceSlot<'src, S> {
    Borrowed(&'src mut S),
    Owned(Box<S>),
}

/// Exposes a `Source` through the four callbacks a media engine drives.
pub struct InputStream<'src, S> {
    slot: SourceSlot<'src, S>,
}

impl<'src, S: Source> InputStream<'src, S> {
    /// The source the callbacks reach.
    pub closed spec fn source(&self) -> S {
        match self.slot {
            SourceSlot::Borrowed(r) => *r,
            SourceSlot::Owned(b) => *b,
        }
    }

    /// Whether the adapter owns its source.
    pub closed spec fn owns_source(&self) -> bool {
        self.slot is Owned
    }

    pub open spec fn wf(&self) -> bool {
        self.source().offset() <= self.source().contents().len()
    }

    /// An adapter over a source that the caller keeps.
    pub fn new(stream: &'src mut S) -> (r: InputStream<'src, S>)
        requires
            old(stream).offset() <= old(stream).contents().len(),
        ensures
            r.source() == *old(stream),
            !r.owns_source(),
            r.wf(),
    {
        InputStream { slot: SourceSlot::Borrowed(stream) }
    }

    /// An adapter that takes ownership of its source.
    pub fn new_owned(stream: S) -> (r: InputStream<'src, S>)
        requires
            stream.offset() <= stream.contents().len(),
        ensures
            r.source() == stream,
            r.owns_source(),
            r.wf(),
    {
        InputStream { slot: SourceSlot::Owned(Box::new(stream)) }
    }
}

impl<'src, S: Source> InputStream<'src, S> {
    /// Runs the read callback on this adapter's source.
    pub fn read(&mut self, data: &mut Vec<u8>, size: i64) -> (r: i64)
        requires
            old(self).wf(),
            size > 0 ==> old(data)@.len() >= size,
        ensures
            final(self).wf(),
            final(self).owns_source() == old(self).owns_source(),
            final(self).source().contents() == old(self).source().contents(),
            final(self).source().infallible() == old(self).source().infallible(),
            final(data)@.len() == old(data)@.len(),
            old(self).source().infallible() && size >= 0 ==> r >= 0,
            size <= 0 ==> final(self).source() == old(self).source() && final(data)@ == old(data)@,
            size > 0 ==> final(data)@.subrange(size as int, final(data)@.len() as int)
                == old(data)@.subrange(size as int, old(data)@.len() as int),
            size == 0 ==> r == 0,
            size < 0 ==> r == FAILED,
            r >= 0 ==> {
                &&& r == read_count(
                    size as int,
                    old(self).source().contents(),
                    old(self).source().offset(),
                )
                &&& final(self).source().offset() == old(self).source().offset() + r
                &&& final(data)@.subrange(0, r as int) == old(self).source().contents().subrange(
                    old(self).source().offset() as int,
                    final(self).source().offset() as int,
                )
                &&& final(data)@.subrange(r as int, final(data)@.len() as int)
                    == old(data)@.subrange(r as int, old(data)@.len() as int)
            },
            r < 0 ==> r == FAILED,
    {
        match &mut self.slot {
            SourceSlot::Borrowed(src) => read(data, size, *src),
            SourceSlot::Owned(src) => read(data, size, &mut **src),
        }
    }

    /// Runs the seek callback on this adapter's source.
    pub fn seek(&mut self, position: i64) -> (r: i64)
        requires
            old(self).wf(),
        ensures
            final(self).wf(),
            final(self).owns_source() == old(self).owns_source(),
            final(self).source().contents() == old(self).source().contents(),
            final(self).source().infallible() == old(self).source().infallible(),
            0 <= position <= old(self).source().contents().len() ==> r == position,
            r >= 0 ==> r == position && final(self).source().offset() == position,
            r < 0 ==> r == FAILED && final(self).source().offset() == old(self).source().offset(),
            position < 0 ==> r == FAILED,
    {
        match &mut self.slot {
            SourceSlot::Borrowed(src) => seek(position, *src),
            SourceSlot::Owned(src) => seek(position, &mut **src),
        }
    }

    /// Runs the position callback on this adapter's source.
    pub fn tell(&self) -> (r: i64)
        requires
            self.wf(),
        ensures
            self.source().offset() <= i64::MAX ==> r == self.source().offset(),
            self.source().offset() > i64::MAX ==> r == FAILED,
    {
        match &self.slot {
            SourceSlot::Borrowed(src) => tell(&**src),
            SourceSlot::Owned(src) => tell(&**src),
        }
    }

    /// Runs the size callback on this adapter's source.
    pub fn get_size(&mut self) -> (r: i64)
        requires
            old(self).wf(),
        ensures
            final(self).wf(),
            final(self).owns_source() == old(self).owns_source(),
            final(self).source().contents() == old(self).source().contents(),
            final(self).source().offset() == old(self).source().offset(),
            final(self).source().infallible() == old(self).source().infallible(),
            r == FAILED || r == old(self).source().contents().len(),
            old(self).source().infallible() && old(self).source().contents().len() <= i64::MAX
                ==> r == old(self).source().contents().len(),
    {
        match &mut self.slot {
            SourceSlot::Borrowed(src) => get_size(*src),
            SourceSlot::Owned(src) => get_size(&mut **src),
        }
    }
}

} // verus!
