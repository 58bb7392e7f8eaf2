//! The readers that hand the PHP source to the compiler, and the slot that
//! holds the source until the runtime runs it.

use vstd::prelude::*;
use bytes::buf::Reader;
use bytes::Bytes;

use crate::buffers::{bytes_contents, bytes_len, bytes_reader, reader_read, reader_remaining};

verus! {

/// What one read of `want` bytes from `left` hands out: as many as the
/// buffer holds, and no more than are left.
pub open spec fn read_count(left: Seq<u8>, want: nat) -> nat {
    if want < left.len() { want } else { left.len() }
}

/// One read from a source with `left` bytes still to read, into a buffer
/// `buf`: it hands out `n` bytes, which land at the front of the buffer, and
/// `rest` is left to read.
pub open spec fn reads(left: Seq<u8>, buf: Seq<u8>, n: nat, new_buf: Seq<u8>, rest: Seq<u8>) -> bool {
    &&& n == read_count(left, buf.len())
    &&& new_buf == left.take(n as int) + buf.skip(n as int)
    &&& rest == left.skip(n as int)
}

/// The source that a reader hands out: the bytes not yet read and the size
/// of the whole source, if a source was given.
pub struct ReaderView {
    pub remaining: Option<Seq<u8>>,
    pub size: nat,
}

/// A reader over the PHP source, empty until a source is given.
pub struct ReaderHandle(Option<Reader<Bytes>>, usize);

impl View for ReaderHandle {
    type V = ReaderView;

    closed spec fn view(&self) -> ReaderView {
        ReaderView {
            remaining: match self.0 {
                Some(r) => Some(reader_remaining(r)),
                None => None,
            },
            size: self.1 as nat,
        }
    }
}

impl Default for ReaderHandle {
    /// A reader with no source and size 0.
    fn default() -> (h: Self)
        ensures
            h@.remaining is None,
            h@.size == 0,
    {
        ReaderHandle(None, 0)
    }
}

impl ReaderHandle {
    /// Makes `buffer` the source: everything in it is left to read, and the
    /// size is its length.
    pub fn init(&mut self, buffer: Bytes)
        ensures
            final(self)@.remaining == Some(bytes_contents(buffer)),
            final(self)@.size == bytes_contents(buffer).len(),
    {
        let size = bytes_len(&buffer);
        let reader = bytes_reader(buffer);
        self.0 = Some(reader);
        self.1 = size;
    }

    /// Reads the next bytes of the source into the front of `buf`; the size
    /// does not change. A source must have been given.
    pub fn read(&mut self, buf: &mut [u8]) -> (r: std::io::Result<usize>)
        requires
            old(self)@.remaining is Some,
        ensures
            r matches Ok(n) && final(self)@.remaining matches Some(rest) && reads(
                old(self)@.remaining->0,
                old(buf)@,
                n as nat,
                final(buf)@,
                rest,
            ),
            final(self)@.size == old(self)@.size,
    {
        let mut reader = match self.0.take() {
            Some(reader) => reader,
            None => {
                assert(false);
                return Ok(0);
            },
        };
        let result = reader_read(&mut reader, buf);
        self.0 = Some(reader);
        result
    }

    /// The size of the whole source.
    pub fn size(&self) -> (n: usize)
        ensures
            n == self@.size,
    {
        self.1
    }

    /// Whether a source was given.
    pub fn has_source(&self) -> (b: bool)
        ensures
            b == self@.remaining is Some,
    {
        self.0.is_some()
    }
}

/// The stream reader that PHP's compiler calls with a buffer of `len` bytes:
/// an empty buffer reads nothing; otherwise the next bytes of the source go
/// to the front of the buffer and their count is returned.
pub fn stdin_reader(handle: &mut ReaderHandle, buf: &mut [u8]) -> (n: isize)
    requires
        old(buf)@.len() > 0 ==> old(handle)@.remaining is Some,
        old(buf)@.len() <= isize::MAX,
    ensures
        old(buf)@.len() == 0 ==> n == 0 && *final(handle) == *old(handle) && final(buf)@ == old(buf)@,
        old(buf)@.len() > 0 ==> (final(handle)@.remaining matches Some(rest) && reads(
            old(handle)@.remaining->0,
            old(buf)@,
            n as nat,
            final(buf)@,
            rest,
        )),
        0 <= n <= old(buf)@.len(),
        final(handle)@.size == old(handle)@.size,
{
    if buf.len() == 0 {
        return 0;
    }
    match handle.read(buf) {
        Ok(n) => n as isize,
        Err(_) => {
            assert(false);
            0
        },
    }
}

/// The size that PHP's compiler asks of the source.
pub fn stdin_fsizer(handle: &ReaderHandle) -> (n: usize)
    ensures
        n == handle@.size,
{
    handle.size()
}

/// The PHP source loaded for later runs, with a reader over it and its size.
pub struct CodeReaderHandle(Reader<Bytes>, usize);

impl View for CodeReaderHandle {
    type V = ReaderView;

    closed spec fn view(&self) -> ReaderView {
        ReaderView { remaining: Some(reader_remaining(self.0)), size: self.1 as nat }
    }
}

impl CodeReaderHandle {
    /// A reader over the loaded source `input`.
    pub fn load(input: Bytes) -> (h: Self)
        ensures
            h@.remaining == Some(bytes_contents(input)),
            h@.size == bytes_contents(input).len(),
    {
        let size = bytes_len(&input);
        let reader = bytes_reader(input);
        CodeReaderHandle(reader, size)
    }

    /// Reads the next bytes of the source into the front of `buf`.
    pub fn read(&mut self, buf: &mut [u8]) -> (r: std::io::Result<usize>)
        ensures
            r matches Ok(n) && final(self)@.remaining matches Some(rest) && reads(
                old(self)@.remaining->0,
                old(buf)@,
                n as nat,
                final(buf)@,
                rest,
            ),
            final(self)@.size == old(self)@.size,
    {
        reader_read(&mut self.0, buf)
    }

    /// The size of the whole source.
    pub fn size(&self) -> (n: usize)
        ensures
            n == self@.size,
    {
        self.1
    }
}

/// The PHP runtime: it holds the source loaded before a request until the
/// request runs it.
#[derive(Debug)]
pub struct Runtime {
    code: Option<Bytes>,
}

impl Runtime {
    /// A runtime with no source.
    pub fn new() -> (r: Self)
        ensures
            r.code() is None,
    {
        Runtime { code: None }
    }

    /// The source held, if any.
    pub closed spec fn code(&self) -> Option<Seq<u8>> {
        match self.code {
            Some(c) => Some(bytes_contents(c)),
            None => None,
        }
    }

    /// Holds `code` for the next run, replacing any source held before.
    pub fn load(&mut self, code: Bytes)
        ensures
            final(self).code() == Some(bytes_contents(code)),
    {
        self.code = Some(code);
    }

    /// Hands the held source over for a run; the runtime holds none
    /// afterwards. A source must have been loaded.
    pub fn take_code(&mut self) -> (code: Bytes)
        requires
            old(self).code() is Some,
        ensures
            old(self).code() == Some(bytes_contents(code)),
            final(self).code() is None,
    {
        match self.code.take() {
            Some(code) => code,
            None => {
                assert(false);
                crate::buffers::bytes_from_static(&[])
            },
        }
    }

    /// Whether a source is held.
    pub fn has_code(&self) -> (b: bool)
        ensures
            b == self.code() is Some,
    {
        self.code.is_some()
    }
}

/// Two reads in a row hand out the source in order: what they put at the
/// front of their buffers is, joined, the start of what was left before the
/// first, and what is left after the second is the rest.
pub proof fn law_reads_hand_out_source_in_order(
    left: Seq<u8>,
    buf1: Seq<u8>,
    n1: nat,
    out1: Seq<u8>,
    rest1: Seq<u8>,
    buf2: Seq<u8>,
    n2: nat,
    out2: Seq<u8>,
    rest2: Seq<u8>,
)
    requires
        reads(left, buf1, n1, out1, rest1),
        reads(rest1, buf2, n2, out2, rest2),
    ensures
        out1.take(n1 as int) + out2.take(n2 as int) == left.take((n1 + n2) as int),
        rest2 == left.skip((n1 + n2) as int),
{
    assert(out1.take(n1 as int) =~= left.take(n1 as int));
    assert(out2.take(n2 as int) =~= left.skip(n1 as int).take(n2 as int));
    assert(out1.take(n1 as int) + out2.take(n2 as int) =~= left.take((n1 + n2) as int));
    assert(rest2 =~= left.skip((n1 + n2) as int));
}

/// Once the source is read to its end, a read hands out nothing and leaves
/// the buffer as it was.
pub proof fn law_read_at_end_hands_out_nothing(buf: Seq<u8>, n: nat, out: Seq<u8>, rest: Seq<u8>)
    requires
        reads(Seq::empty(), buf, n, out, rest),
    ensures
        n == 0,
        out == buf,
        rest.len() == 0,
{
    assert(out =~= buf);
}

} // verus!
