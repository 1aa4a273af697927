//! The streams of the in-memory backend. A reader holds a snapshot of a file taken when it was
//! opened; a writer collects bytes privately and, when it is flushed, stores everything written
//! so far as the file's whole contents, under the file system's exclusive lock. A writer does not
//! flush itself when dropped, since a destructor here may not take a lock; the std stream
//! adapters built on it flush on drop.
use super::super::generic::IoError;
use super::file_sys::{FileSystem, MemoryFile, Shared};
use vstd::prelude::*;

verus! {

/// A reader over a snapshot of a stored file.
pub struct StorageReader {
    contents: Vec<u8>,
    position: usize,
}

impl StorageReader {
    pub closed spec fn wf(&self) -> bool {
        self.position <= self.contents.len()
    }

    /// The bytes not yet handed out.
    pub closed spec fn remaining(&self) -> Seq<u8> {
        self.contents@.subrange(self.position as int, self.contents@.len() as int)
    }

    /// A reader over `contents`.
    pub fn from_vec(contents: Vec<u8>) -> (r: Self)
        ensures
            r.wf(),
            r.remaining() == contents@,
    {
        let r = StorageReader { contents, position: 0 };
        assert(r.remaining() =~= contents@);
        r
    }

    /// A reader over the current contents of `file`.
    pub fn from_file(file: &MemoryFile) -> (r: Self)
        ensures
            r.wf(),
            r.remaining() == file.contents@,
    {
        let r = StorageReader { contents: file.contents.clone(), position: 0 };
        assert(r.remaining() =~= file.contents@);
        r
    }

    /// A reader over a copy of the contents stored under `path` in `fs`, or
    /// [`IoError::NotFound`] where there is no such file.
    pub fn from_file_system(fs: &FileSystem, path: &String) -> (r: Result<Self, IoError>)
        ensures
            fs@.contains_key(path@) ==> r is Ok && r->Ok_0.wf() && r->Ok_0.remaining() == fs@[path@],
            !fs@.contains_key(path@) ==> r matches Err(IoError::NotFound),
    {
        match fs.get(path) {
            Ok(contents) => Ok(Self::from_vec(contents)),
            Err(e) => Err(e),
        }
    }

    /// A reader over the contents stored under `path` in the shared file system at the moment
    /// of the call (a snapshot: later writes do not reach it), or [`IoError::NotFound`].
    pub fn new(fs: &Shared<FileSystem>, path: &String) -> (r: Result<Self, IoError>)
        ensures
            r is Ok ==> r->Ok_0.wf(),
            r is Err ==> r matches Err(IoError::NotFound),
    {
        let handle = fs.read();
        let reader = Self::from_file_system(handle.borrow(), path);
        handle.release_read();
        reader
    }

    /// Copy the next bytes into the front of `buf`, as many as fit, and say how many.
    pub fn read(&mut self, buf: &mut [u8]) -> (r: Result<usize, IoError>)
        requires
            old(self).wf(),
        ensures
            final(self).wf(),
            r is Ok,
            ({
                let n = r->Ok_0;
                &&& n == if old(buf)@.len() < old(self).remaining().len() {
                    old(buf)@.len()
                } else {
                    old(self).remaining().len()
                }
                &&& final(buf)@.len() == old(buf)@.len()
                &&& final(buf)@.subrange(0, n as int) == old(self).remaining().subrange(0, n as int)
                &&& final(buf)@.subrange(n as int, final(buf)@.len() as int) == old(buf)@.subrange(n as int, old(buf)@.len() as int)
                &&& final(self).remaining() == old(self).remaining().subrange(n as int, old(self).remaining().len() as int)
            }),
    {
        let available = self.contents.len() - self.position;
        let n: usize = if buf.len() < available {
            buf.len()
        } else {
            available
        };
        let start = self.position;
        let mut i: usize = 0;
        while i < n
            invariant
                start == self.position,
                self.contents == old(self).contents,
                start + n <= self.contents.len(),
                n <= buf@.len(),
                i <= n,
                buf@.len() == old(buf)@.len(),
                forall|j: int| 0 <= j < i ==> buf@[j] == self.contents@[start + j],
                forall|j: int| i <= j < buf@.len() ==> buf@[j] == old(buf)@[j],
            decreases n - i,
        {
            buf[i] = self.contents[start + i];
            i = i + 1;
        }
        self.position = start + n;
        assert(final(buf)@.subrange(0, n as int) =~= old(self).remaining().subrange(0, n as int));
        assert(final(buf)@.subrange(n as int, final(buf)@.len() as int) =~= old(buf)@.subrange(n as int, old(buf)@.len() as int));
        assert(final(self).remaining() =~= old(self).remaining().subrange(n as int, old(self).remaining().len() as int));
        Ok(n)
    }

    /// Hand out every remaining byte.
    pub fn read_to_end(&mut self) -> (r: Vec<u8>)
        requires
            old(self).wf(),
        ensures
            final(self).wf(),
            r@ == old(self).remaining(),
            final(self).remaining().len() == 0,
    {
        let mut out: Vec<u8> = Vec::new();
        while self.position < self.contents.len()
            invariant
                self.wf(),
                self.contents == old(self).contents,
                old(self).position <= self.position,
                out@ == self.contents@.subrange(old(self).position as int, self.position as int),
            decreases self.contents.len() - self.position,
        {
            out.push(self.contents[self.position]);
            self.position = self.position + 1;
            assert(out@ =~= self.contents@.subrange(old(self).position as int, self.position as int));
        }
        assert(out@ =~= old(self).remaining());
        out
    }
}

/// A writer that collects bytes and stores them, as the whole contents of the file under its
/// key, when flushed. Nothing reaches the file system before the first flush.
pub struct StorageWriter {
    fs: Shared<FileSystem>,
    path: String,
    buf: Vec<u8>,
}

impl StorageWriter {
    /// The file system this writer stores into.
    pub closed spec fn file_system(&self) -> Shared<FileSystem> {
        self.fs
    }

    /// The key this writer stores under.
    pub closed spec fn key(&self) -> Seq<char> {
        self.path@
    }

    /// Every byte written so far.
    pub closed spec fn written(&self) -> Seq<u8> {
        self.buf@
    }

    pub fn new(fs: Shared<FileSystem>, path: String) -> (r: Result<Self, IoError>)
        ensures
            r is Ok,
            r->Ok_0.file_system().lock() == fs.lock(),
            r->Ok_0.key() == path@,
            r->Ok_0.written() == Seq::<u8>::empty(),
    {
        Ok(StorageWriter { fs, path, buf: Vec::new() })
    }

    /// Collect `data`; nothing is stored until the next flush.
    pub fn write(&mut self, data: &[u8]) -> (r: Result<usize, IoError>)
        ensures
            r == Ok::<usize, IoError>(data@.len() as usize),
            final(self).file_system() == old(self).file_system(),
            final(self).key() == old(self).key(),
            final(self).written() == old(self).written() + data@,
    {
        self.buf.extend_from_slice(data);
        assert(self.buf@ =~= old(self).buf@ + data@);
        Ok(data.len())
    }

    /// Store every byte written so far as the file's whole contents, creating the file if need
    /// be. This happens as one step under the file system's exclusive lock, so a reader sees the
    /// contents before or after it, never a part. The writer keeps its bytes: flushing again
    /// stores the same contents.
    pub fn flush(&mut self) -> (r: Result<(), IoError>)
        ensures
            r is Ok,
            *final(self) == *old(self),
    {
        let (mut fs, handle) = self.fs.write();
        fs.store(&self.path, self.buf.as_slice());
        handle.release_write(fs);
        Ok(())
    }
}

} // verus!
