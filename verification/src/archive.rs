//! The embedded-script variant of the runtime: a single script stored
//! before requests, which PHP reads back whole.

use vstd::prelude::*;
use bytes::Bytes;

use crate::buffers::{bytes_contents, bytes_from_static, bytes_len, bytes_slice};
use vstd::string::StringSliceAdditionalSpecFns;

verus! {

/// The script store of the embedded runtime.
pub struct PharStore {
    phar: Bytes,
}

impl PharStore {
    /// An empty store.
    pub fn new() -> (s: Self)
        ensures
            s.contents().len() == 0,
    {
        PharStore { phar: bytes_from_static(&[]) }
    }

    /// The stored script.
    pub closed spec fn contents(&self) -> Seq<u8> {
        bytes_contents(self.phar)
    }

    /// The length of the stored script.
    pub fn script_len(&self) -> (n: usize)
        ensures
            n == self.contents().len(),
    {
        bytes_len(&self.phar)
    }

    /// Stores `bytes` as the script, replacing what was stored.
    pub fn store_from_bytes(&mut self, bytes: Bytes)
        ensures
            final(self).contents() == bytes_contents(bytes),
    {
        self.phar = bytes;
    }

    /// The stream reader that PHP calls with a buffer: the whole script is
    /// copied to the front of the buffer and its length returned; -1 when
    /// nothing is stored or when the buffer is shorter than the script. (A
    /// null buffer pointer is answered -1 before any buffer exists.)
    pub fn read_into(&self, buf: &mut [u8]) -> (n: isize)
        requires
            self.contents().len() <= isize::MAX,
        ensures
            self.contents().len() == 0 || old(buf)@.len() < self.contents().len() ==> n == -1
                && final(buf)@ == old(buf)@,
            self.contents().len() > 0 && old(buf)@.len() >= self.contents().len() ==> n
                == self.contents().len() && final(buf)@ == self.contents() + old(buf)@.skip(
                self.contents().len() as int,
            ),
    {
        let len = bytes_len(&self.phar);
        if len == 0 {
            return -1;
        }
        if buf.len() < len {
            return -1;
        }
        copy_whole(bytes_slice(&self.phar), buf);
        len as isize
    }

    /// The size that PHP asks of the script: one less than its length. The
    /// store must not be empty.
    pub fn fsize(&self) -> (n: usize)
        requires
            self.contents().len() >= 1,
        ensures
            n == self.contents().len() - 1,
    {
        bytes_len(&self.phar) - 1
    }
}

/// Copies all of `src` to the front of `dst`, leaving the rest of `dst`.
pub fn copy_whole(src: &[u8], dst: &mut [u8])
    requires
        src@.len() <= old(dst)@.len(),
    ensures
        final(dst)@ == src@ + old(dst)@.skip(src@.len() as int),
{
    let n = src.len();
    let mut i: usize = 0;
    while i < n
        invariant
            n == src@.len(),
            n <= old(dst)@.len(),
            i <= n,
            dst@.len() == old(dst)@.len(),
            forall|j: int| 0 <= j < i ==> dst@[j] == src@[j],
            forall|j: int| i <= j < dst@.len() ==> dst@[j] == old(dst)@[j],
        decreases n - i,
    {
        dst[i] = src[i];
        i += 1;
    }
    assert(dst@ =~= src@ + old(dst)@.skip(n as int));
}

/// Stores the greeting script, as the embedded runtime does before each
/// request.
pub fn hello_world_if_empty(store: &mut PharStore)
    ensures
        final(store).contents() == "<?php echo 'Hello, world!'; ".spec_bytes(),
{
    let script: &'static [u8] = "<?php echo 'Hello, world!'; ".as_bytes();
    store.store_from_bytes(bytes_from_static(script));
}

/// The source buffer of the embedded compiler, which PHP reads back whole.
pub struct SourceBuffer {
    source: Bytes,
}

impl SourceBuffer {
    /// A buffer holding `source`.
    pub fn new(source: Bytes) -> (b: Self)
        ensures
            b.contents() == bytes_contents(source),
    {
        SourceBuffer { source }
    }

    /// The source held.
    pub closed spec fn contents(&self) -> Seq<u8> {
        bytes_contents(self.source)
    }

    /// The stream reader that PHP's compiler calls: an empty buffer reads
    /// nothing; otherwise the whole source is copied to the front of the
    /// buffer and its length returned. The buffer must hold the whole source.
    pub fn stdin_reader(&self, buf: &mut [u8]) -> (n: isize)
        requires
            old(buf)@.len() > 0 ==> self.contents().len() <= old(buf)@.len(),
            self.contents().len() <= isize::MAX,
        ensures
            old(buf)@.len() == 0 ==> n == 0 && final(buf)@ == old(buf)@,
            old(buf)@.len() > 0 ==> n == self.contents().len() && final(buf)@ == self.contents()
                + old(buf)@.skip(self.contents().len() as int),
    {
        if buf.len() == 0 {
            return 0;
        }
        copy_whole(bytes_slice(&self.source), buf);
        bytes_len(&self.source) as isize
    }

    /// The size that PHP's compiler asks of the source: its length.
    pub fn stdin_fsizer(&self) -> (n: usize)
        ensures
            n == self.contents().len(),
    {
        bytes_len(&self.source)
    }
}

} // verus!
