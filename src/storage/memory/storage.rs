//! Directory and file handles of the in-memory backend. A handle is a key into the shared
//! [`FileSystem`]; building one never touches the file system.
use super::super::address::{
    dir_key, file_in_dir_key, file_key, root_name, subdir_key, Root, SEP,
};
use super::super::generic::{self, IoError, OuterDirectoryError};
use super::file_sys::{FileSystem, Shared};
use super::readers_writers::{StorageReader, StorageWriter};
use std::marker::PhantomData;
use vstd::prelude::*;

verus! {

/// Marks a handle that can only read.
pub struct ReadOnly;

/// Marks a handle that can read and write.
pub struct ReadWrite;

/// A file of the in-memory backend.
pub struct File<R> {
    _phantom: PhantomData<R>,
    fs: Shared<FileSystem>,
    path: String,
    root: Ghost<Root>,
    segments: Ghost<Seq<Seq<char>>>,
    name: Ghost<Seq<char>>,
}

impl<R> File<R> {
    #[verifier::type_invariant]
    spec fn inv(&self) -> bool {
        self.path@ == file_key(self.root@, self.segments@, self.name@)
    }

    /// The key the file is stored under.
    pub closed spec fn key(&self) -> Seq<char> {
        self.path@
    }

    /// The shared file system the file belongs to.
    pub closed spec fn file_system(&self) -> Shared<FileSystem> {
        self.fs
    }

    fn new(
        parent_path: String,
        name: &str,
        fs: Shared<FileSystem>,
        Ghost(root): Ghost<Root>,
        Ghost(segments): Ghost<Seq<Seq<char>>>,
    ) -> (r: Self)
        requires
            parent_path@ == dir_key(root, segments),
        ensures
            r.root@ == root,
            r.segments@ == segments,
            r.name@ == name@,
            r.fs.lock() == fs.lock(),
    {
        let path = file_in_dir_key(parent_path.as_str(), name);
        File { _phantom: PhantomData, fs, path, root: Ghost(root), segments: Ghost(segments), name: Ghost(name@) }
    }
}

impl<R> generic::File for File<R> {
    type ReadText = StorageReader;
    type ReadBinary = StorageReader;

    closed spec fn root(&self) -> Root {
        self.root@
    }

    closed spec fn segments(&self) -> Seq<Seq<char>> {
        self.segments@
    }

    closed spec fn name(&self) -> Seq<char> {
        self.name@
    }

    fn file_exists(&self) -> (r: Result<bool, IoError>)
        ensures
            r is Ok,
    {
        let handle = self.fs.read();
        let found = handle.borrow().file_exists(&self.path);
        handle.release_read();
        Ok(found)
    }

    fn read_text(&self) -> (r: Result<StorageReader, IoError>)
        ensures
            r is Ok ==> r->Ok_0.wf(),
            r is Err ==> r matches Err(IoError::NotFound),
    {
        self.read_binary()
    }

    fn read_binary(&self) -> (r: Result<StorageReader, IoError>)
        ensures
            r is Ok ==> r->Ok_0.wf(),
            r is Err ==> r matches Err(IoError::NotFound),
    {
        StorageReader::new(&self.fs, &self.path)
    }
}

impl generic::WritableFile for File<ReadWrite> {
    type WriteText = StorageWriter;
    type WriteBinary = StorageWriter;

    fn remove(&mut self) -> (r: Result<(), IoError>)
        ensures
            r is Ok,
            *final(self) == *old(self),
    {
        let (mut fs, handle) = self.fs.write();
        let r = fs.remove(&self.path);
        handle.release_write(fs);
        r
    }

    fn write_text(&mut self) -> (r: Result<StorageWriter, IoError>)
        ensures
            r is Ok,
            r->Ok_0.written() == Seq::<u8>::empty(),
            r->Ok_0.key() == old(self).key(),
            r->Ok_0.file_system().lock() == old(self).file_system().lock(),
            *final(self) == *old(self),
    {
        self.write_binary()
    }

    /// Open a writer; the file system is not touched until the writer is flushed.
    fn write_binary(&mut self) -> (r: Result<StorageWriter, IoError>)
        ensures
            r is Ok,
            r->Ok_0.written() == Seq::<u8>::empty(),
            r->Ok_0.key() == old(self).key(),
            r->Ok_0.file_system().lock() == old(self).file_system().lock(),
            *final(self) == *old(self),
    {
        StorageWriter::new(self.fs.clone(), self.path.clone())
    }
}

/// A directory of the in-memory backend.
pub struct Dir<R> {
    _phantom: PhantomData<R>,
    fs: Shared<FileSystem>,
    path: String,
    root: Ghost<Root>,
    segments: Ghost<Seq<Seq<char>>>,
}

impl<R> Dir<R> {
    #[verifier::type_invariant]
    spec fn inv(&self) -> bool {
        self.path@ == dir_key(self.root@, self.segments@)
    }

    /// The key prefix of everything in the directory.
    pub closed spec fn key(&self) -> Seq<char> {
        self.path@
    }

    /// The shared file system the directory belongs to.
    pub closed spec fn file_system(&self) -> Shared<FileSystem> {
        self.fs
    }

    fn new(
        parent_path: String,
        name: &str,
        fs: Shared<FileSystem>,
        Ghost(root): Ghost<Root>,
        Ghost(segments): Ghost<Seq<Seq<char>>>,
    ) -> (r: Self)
        requires
            (parent_path@ + name@).push(SEP) == dir_key(root, segments),
        ensures
            r.root@ == root,
            r.segments@ == segments,
            r.fs.lock() == fs.lock(),
    {
        let path = subdir_key(parent_path.as_str(), name);
        Dir { _phantom: PhantomData, fs, path, root: Ghost(root), segments: Ghost(segments) }
    }

    fn outer(root: Root, fs: Shared<FileSystem>) -> (r: Self)
        ensures
            r.root@ == root,
            r.segments@ == Seq::<Seq<char>>::empty(),
            r.fs.lock() == fs.lock(),
    {
        let empty = String::new();
        assert(empty@ + root_name(root) =~= root_name(root));
        Self::new(empty, root.name(), fs, Ghost(root), Ghost(Seq::empty()))
    }

    fn child(&self, name: &str) -> (r: Self)
        ensures
            r.root@ == self.root@,
            r.segments@ == self.segments@.push(name@),
            r.fs.lock() == self.fs.lock(),
    {
        proof {
            use_type_invariant(self);
            assert(self.segments@.push(name@).drop_last() =~= self.segments@);
        }
        Self::new(self.path.clone(), name, self.fs.clone(), Ghost(self.root@), Ghost(self.segments@.push(name@)))
    }

    fn child_file(&self, name: &str) -> (r: File<R>)
        ensures
            r.root@ == self.root@,
            r.segments@ == self.segments@,
            r.name@ == name@,
            r.fs.lock() == self.fs.lock(),
            r.key() == file_key(self.root@, self.segments@, name@),
    {
        proof {
            use_type_invariant(self);
        }
        let f = File::new(self.path.clone(), name, self.fs.clone(), Ghost(self.root@), Ghost(self.segments@));
        proof {
            use_type_invariant(&f);
        }
        f
    }
}

impl<R> generic::Dir for Dir<R> {
    type File = File<R>;

    closed spec fn root(&self) -> Root {
        self.root@
    }

    closed spec fn segments(&self) -> Seq<Seq<char>> {
        self.segments@
    }

    fn file(&self, name: &str) -> (f: File<R>)
        ensures
            f.key() == file_key(generic::File::root(&f), generic::File::segments(&f), generic::File::name(&f)),
            f.file_system().lock() == self.file_system().lock(),
    {
        self.child_file(name)
    }
}

impl<R> generic::ParentDir for Dir<R> {
    type LeafDir = Dir<R>;

    fn subdir(&self, name: &str) -> (d: Self)
        ensures
            d.file_system().lock() == self.file_system().lock(),
    {
        self.child(name)
    }

    fn into_leaf(self) -> (d: Dir<R>)
        ensures
            d == self,
    {
        self
    }
}

impl generic::WritableDir for Dir<ReadWrite> {
    type WritableFile = File<ReadWrite>;

    fn writable_file(&mut self, name: &str) -> (f: File<ReadWrite>)
        ensures
            f.key() == file_key(generic::File::root(&f), generic::File::segments(&f), generic::File::name(&f)),
            *final(self) == *old(self),
            f.file_system().lock() == old(self).file_system().lock(),
    {
        self.child_file(name)
    }
}

impl generic::WritableParentDir for Dir<ReadWrite> {
    type WritableLeafDir = Dir<ReadWrite>;

    fn writable_subdir(&mut self, name: &str) -> (d: Self)
        ensures
            *final(self) == *old(self),
            d.file_system().lock() == old(self).file_system().lock(),
    {
        self.child(name)
    }

    fn into_writable_leaf(self) -> (d: Dir<ReadWrite>)
        ensures
            d == self,
    {
        self
    }
}

/// Storage held in memory, mostly for writing tests against storage. Every handle derived from
/// one value shares its files; clones share them too.
pub struct MemoryStorage {
    fs: Shared<FileSystem>,
}

impl MemoryStorage {
    /// The file system shared by every handle derived from this storage.
    pub closed spec fn file_system(&self) -> Shared<FileSystem> {
        self.fs
    }

    /// A storage that holds no file.
    pub fn new() -> (r: Self) {
        MemoryStorage { fs: Shared::new(FileSystem::new()) }
    }
}

impl Default for MemoryStorage {
    fn default() -> (r: Self) {
        Self::new()
    }
}

impl Clone for MemoryStorage {
    fn clone(&self) -> (r: Self)
        ensures
            r.file_system().lock() == self.file_system().lock(),
    {
        MemoryStorage { fs: self.fs.clone() }
    }
}

impl generic::Storage for MemoryStorage {
    type Dir = Dir<ReadOnly>;
    type WritableDir = Dir<ReadWrite>;

    fn data(&self) -> (r: Result<Dir<ReadOnly>, OuterDirectoryError>)
        ensures
            r is Ok,
            r->Ok_0.file_system().lock() == self.file_system().lock(),
    {
        Ok(Dir::outer(Root::Data, self.fs.clone()))
    }

    fn config(&self) -> (r: Result<Dir<ReadOnly>, OuterDirectoryError>)
        ensures
            r is Ok,
            r->Ok_0.file_system().lock() == self.file_system().lock(),
    {
        Ok(Dir::outer(Root::Config, self.fs.clone()))
    }

    fn cache(&self) -> (r: Result<Dir<ReadOnly>, OuterDirectoryError>)
        ensures
            r is Ok,
            r->Ok_0.file_system().lock() == self.file_system().lock(),
    {
        Ok(Dir::outer(Root::Cache, self.fs.clone()))
    }

    fn writable_data(&mut self) -> (r: Result<Dir<ReadWrite>, OuterDirectoryError>)
        ensures
            r is Ok,
            *final(self) == *old(self),
            r->Ok_0.file_system().lock() == old(self).file_system().lock(),
    {
        Ok(Dir::outer(Root::Data, self.fs.clone()))
    }

    fn writable_config(&mut self) -> (r: Result<Dir<ReadWrite>, OuterDirectoryError>)
        ensures
            r is Ok,
            *final(self) == *old(self),
            r->Ok_0.file_system().lock() == old(self).file_system().lock(),
    {
        Ok(Dir::outer(Root::Config, self.fs.clone()))
    }

    fn writable_cache(&mut self) -> (r: Result<Dir<ReadWrite>, OuterDirectoryError>)
        ensures
            r is Ok,
            *final(self) == *old(self),
            r->Ok_0.file_system().lock() == old(self).file_system().lock(),
    {
        Ok(Dir::outer(Root::Cache, self.fs.clone()))
    }
}

} // verus!
