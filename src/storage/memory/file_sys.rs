//! The shared virtual file system behind [`super::MemoryStorage`]: a map from a file's full key
//! to its contents, behind one reader-writer lock that every handle of a storage shares.
//!
//! The map's operations have exact contracts over a model from key to bytes. What the shared
//! lock holds at a given moment is not named by any contract: other handles, on other threads,
//! may change it between two calls.
use super::super::generic::IoError;
use std::sync::Arc;
use vstd::hash_map::StringHashMap;
use vstd::prelude::*;
use vstd::rwlock::{ReadHandle, RwLock, RwLockPredicate, WriteHandle};

verus! {

/// The lock predicate of a [`Shared`] value: any value may be stored.
pub struct AnyValue;

impl<T> RwLockPredicate<T> for AnyValue {
    open spec fn inv(self, v: T) -> bool {
        true
    }
}

/// A reference-counted value behind a reader-writer lock. Clones share the value.
pub struct Shared<T> {
    value: Arc<RwLock<T, AnyValue>>,
}

impl<T> Shared<T> {
    /// The lock that clones of this handle share.
    pub closed spec fn lock(&self) -> RwLock<T, AnyValue> {
        *self.value
    }

    pub fn new(value: T) -> (r: Self) {
        Shared { value: Arc::new(RwLock::new(value, Ghost(AnyValue))) }
    }

    /// Take shared access; other readers may hold it at the same time.
    pub fn read(&self) -> (r: ReadHandle<'_, T, AnyValue>)
        ensures
            r.rwlock() == self.lock(),
    {
        self.value.acquire_read()
    }

    /// Take exclusive access: the current value, and the handle through which a new value is
    /// put back.
    pub fn write(&self) -> (r: (T, WriteHandle<'_, T, AnyValue>))
        ensures
            r.1.rwlock() == self.lock(),
    {
        self.value.acquire_write()
    }
}

impl<T> Clone for Shared<T> {
    fn clone(&self) -> (r: Self)
        ensures
            r.lock() == self.lock(),
    {
        Shared { value: Arc::clone(&self.value) }
    }
}

/// The contents of one stored file.
pub struct MemoryFile {
    pub contents: Vec<u8>,
}

impl MemoryFile {
    pub fn new() -> (r: Self)
        ensures
            r.contents@ == Seq::<u8>::empty(),
    {
        MemoryFile { contents: Vec::new() }
    }

    /// Replace the whole contents by `data`.
    pub fn replace(&mut self, data: &[u8])
        ensures
            final(self).contents@ == data@,
    {
        self.contents.clear();
        self.contents.extend_from_slice(data);
        assert(final(self).contents@ =~= data@);
    }
}

/// The files that exist, by full key, with their contents.
pub struct FileSystem {
    contents: StringHashMap<MemoryFile>,
}

impl View for FileSystem {
    type V = Map<Seq<char>, Seq<u8>>;

    closed spec fn view(&self) -> Self::V {
        self.contents@.map_values(|f: MemoryFile| f.contents@)
    }
}

impl FileSystem {
    /// A file system that holds no file.
    pub fn new() -> (r: Self)
        ensures
            r@ == Map::<Seq<char>, Seq<u8>>::empty(),
    {
        let r = FileSystem { contents: StringHashMap::new() };
        assert(r@ =~= Map::<Seq<char>, Seq<u8>>::empty());
        r
    }

    /// Whether a file is stored under `path`.
    pub fn file_exists(&self, path: &String) -> (r: bool)
        ensures
            r == self@.contains_key(path@),
    {
        self.contents.contains_key(path.as_str())
    }

    /// A copy of the contents stored under `path`, or [`IoError::NotFound`].
    pub fn get(&self, path: &String) -> (r: Result<Vec<u8>, IoError>)
        ensures
            self@.contains_key(path@) ==> r is Ok && r->Ok_0@ == self@[path@],
            !self@.contains_key(path@) ==> r matches Err(IoError::NotFound),
    {
        match self.contents.get(path.as_str()) {
            Some(file) => Ok(file.contents.clone()),
            None => Err(IoError::NotFound),
        }
    }

    /// The contents stored under `path`, storing an empty file there first if there is none.
    pub fn get_or_create(&mut self, path: &String) -> (r: Result<Vec<u8>, IoError>)
        ensures
            r is Ok,
            old(self)@.contains_key(path@) ==> final(self)@ == old(self)@,
            !old(self)@.contains_key(path@) ==> final(self)@ == old(self)@.insert(path@, Seq::<u8>::empty()),
            r->Ok_0@ == final(self)@[path@],
    {
        match self.contents.get(path.as_str()) {
            Some(file) => Ok(file.contents.clone()),
            None => {
                self.contents.insert(path.clone(), MemoryFile::new());
                assert(self@ =~= old(self)@.insert(path@, Seq::<u8>::empty()));
                Ok(Vec::new())
            },
        }
    }

    /// Make `data` the whole contents of the file stored under `path`, storing a new file there
    /// if there is none.
    pub fn store(&mut self, path: &String, data: &[u8])
        ensures
            final(self)@ == old(self)@.insert(path@, data@),
    {
        let mut file = MemoryFile::new();
        file.replace(data);
        self.contents.insert(path.clone(), file);
        assert(self@ =~= old(self)@.insert(path@, data@));
    }

    /// Forget the file stored under `path`, if any.
    pub fn remove(&mut self, path: &String) -> (r: Result<(), IoError>)
        ensures
            r is Ok,
            final(self)@ == old(self)@.remove(path@),
    {
        self.contents.remove(path.as_str());
        assert(self@ =~= old(self)@.remove(path@));
        Ok(())
    }
}

/// Existence and round trip: a new file system (as `new` gives) holds no file; after `store`
/// the file exists and `get` gives exactly the stored bytes, while other keys keep their files;
/// after `remove` the file does not exist.
pub proof fn lemma_existence_and_round_trip(
    fresh: FileSystem,
    before: FileSystem,
    stored: FileSystem,
    removed: FileSystem,
    path: Seq<char>,
    other: Seq<char>,
    data: Seq<u8>,
)
    requires
        fresh@ == Map::<Seq<char>, Seq<u8>>::empty(),
        stored@ == before@.insert(path, data),
        removed@ == stored@.remove(path),
        other != path,
    ensures
        !fresh@.contains_key(path),
        stored@.contains_key(path),
        stored@[path] == data,
        stored@.contains_key(other) == before@.contains_key(other),
        before@.contains_key(other) ==> stored@[other] == before@[other],
        !removed@.contains_key(path),
{
}

/// Idempotent removal: removing a file a second time (which succeeds, as every removal does)
/// leaves the file system as the first removal did.
pub proof fn lemma_remove_idempotent(fs: FileSystem, once: FileSystem, twice: FileSystem, path: Seq<char>)
    requires
        once@ == fs@.remove(path),
        twice@ == once@.remove(path),
    ensures
        twice@ == once@,
        !twice@.contains_key(path),
{
    assert(twice@ =~= once@);
}

} // verus!
