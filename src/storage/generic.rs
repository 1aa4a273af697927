//! The capability interfaces that every storage backend provides.
//!
//! Read-only handles ([`File`], [`Dir`]) expose no mutating operation; the writable ones
//! ([`WritableFile`], [`WritableDir`]) extend them. A parent directory ([`ParentDir`]) can be
//! descended into with `subdir` and narrowed into a leaf with `into_leaf`.
//!
//! Each handle knows its logical location: the root it lives under, the names of the
//! subdirectories on the way, and (for files) its own name. Building handles never touches the
//! backing store. The backends of this crate define these location functions and prove the
//! contracts over them. The defaults are fixed values, which cannot meet the contracts of
//! `subdir`: a backend written elsewhere that keeps them (as one in unverified code must) is
//! held to none of the location contracts, and nothing proved here speaks of its handles.
use super::address::Root;
use vstd::prelude::*;

verus! {

/// A root directory could not be resolved or created.
#[derive(Debug, PartialEq, Eq, Structural)]
pub enum OuterDirectoryError {
    NotAvailable,
}

impl OuterDirectoryError {
    /// The human readable form of the error.
    pub fn to_string(&self) -> (r: String)
        ensures
            r@ == "NotAvailable"@,
    {
        String::from_str("NotAvailable")
    }
}

/// An error of a single storage operation.
#[derive(Debug)]
pub enum IoError {
    /// The file does not exist.
    NotFound,
    /// Any other failure, with a description.
    Other(String),
}

/// A read-only file handle.
pub trait File {
    type ReadText;
    type ReadBinary;

    /// The root the file lives under.
    closed spec fn root(&self) -> Root {
        arbitrary()
    }

    /// The names of the subdirectories between the root and the file.
    closed spec fn segments(&self) -> Seq<Seq<char>> {
        arbitrary()
    }

    /// The file's own name.
    closed spec fn name(&self) -> Seq<char> {
        arbitrary()
    }

    /// Whether the file currently exists.
    fn file_exists(&self) -> Result<bool, IoError>;

    /// Open the file for reading as text. A missing file gives [`IoError::NotFound`].
    fn read_text(&self) -> Result<Self::ReadText, IoError>;

    /// Open the file for reading as bytes. A missing file gives [`IoError::NotFound`].
    fn read_binary(&self) -> Result<Self::ReadBinary, IoError>;
}

/// A file handle that can also remove and replace the file.
pub trait WritableFile: File {
    type WriteText;
    type WriteBinary;

    /// Remove the file; removing a file that does not exist succeeds too.
    fn remove(&mut self) -> (r: Result<(), IoError>)
        ensures
            final(self).root() == old(self).root(),
            final(self).segments() == old(self).segments(),
            final(self).name() == old(self).name(),
    ;

    /// Open a fresh, empty text destination that replaces the file once it is flushed.
    fn write_text(&mut self) -> (r: Result<Self::WriteText, IoError>)
        ensures
            final(self).root() == old(self).root(),
            final(self).segments() == old(self).segments(),
            final(self).name() == old(self).name(),
    ;

    /// Open a fresh, empty byte destination that replaces the file once it is flushed.
    fn write_binary(&mut self) -> (r: Result<Self::WriteBinary, IoError>)
        ensures
            final(self).root() == old(self).root(),
            final(self).segments() == old(self).segments(),
            final(self).name() == old(self).name(),
    ;
}

/// A read-only directory handle that can address files.
pub trait Dir {
    type File: File;

    /// The root the directory lives under.
    closed spec fn root(&self) -> Root {
        arbitrary()
    }

    /// The names of the subdirectories between the root and this directory.
    closed spec fn segments(&self) -> Seq<Seq<char>> {
        arbitrary()
    }

    /// The file `name` in this directory.
    fn file(&self, name: &str) -> (f: Self::File)
        ensures
            f.root() == self.root(),
            f.segments() == self.segments(),
            f.name() == name@,
    ;
}

/// A directory handle that can also address writable files.
pub trait WritableDir: Dir {
    type WritableFile: WritableFile;

    /// The writable file `name` in this directory.
    fn writable_file(&mut self, name: &str) -> (f: Self::WritableFile)
        ensures
            final(self).root() == old(self).root(),
            final(self).segments() == old(self).segments(),
            f.root() == old(self).root(),
            f.segments() == old(self).segments(),
            f.name() == name@,
    ;
}

/// A directory handle that can be descended into.
pub trait ParentDir: Dir + Sized {
    type LeafDir: Dir;

    /// The subdirectory `name` of this directory.
    fn subdir(&self, name: &str) -> (d: Self)
        ensures
            d.root() == self.root(),
            d.segments() == self.segments().push(name@),
    ;

    /// The same directory, able to address files only.
    fn into_leaf(self) -> (d: Self::LeafDir)
        ensures
            d.root() == self.root(),
            d.segments() == self.segments(),
    ;
}

/// A writable directory handle that can be descended into.
pub trait WritableParentDir: WritableDir + ParentDir {
    type WritableLeafDir: WritableDir;

    /// The writable subdirectory `name` of this directory.
    fn writable_subdir(&mut self, name: &str) -> (d: Self)
        ensures
            final(self).root() == old(self).root(),
            final(self).segments() == old(self).segments(),
            d.root() == old(self).root(),
            d.segments() == old(self).segments().push(name@),
    ;

    /// The same directory, able to address writable files only.
    fn into_writable_leaf(self) -> (d: Self::WritableLeafDir)
        ensures
            d.root() == self.root(),
            d.segments() == self.segments(),
    ;
}

/// A storage backend: the three roots, each read-only or writable.
pub trait Storage {
    type Dir: ParentDir;
    type WritableDir: WritableParentDir;

    fn data(&self) -> (r: Result<Self::Dir, OuterDirectoryError>)
        ensures
            r is Ok ==> r->Ok_0.root() == Root::Data && r->Ok_0.segments().len() == 0,
    ;

    fn config(&self) -> (r: Result<Self::Dir, OuterDirectoryError>)
        ensures
            r is Ok ==> r->Ok_0.root() == Root::Config && r->Ok_0.segments().len() == 0,
    ;

    fn cache(&self) -> (r: Result<Self::Dir, OuterDirectoryError>)
        ensures
            r is Ok ==> r->Ok_0.root() == Root::Cache && r->Ok_0.segments().len() == 0,
    ;

    fn writable_data(&mut self) -> (r: Result<Self::WritableDir, OuterDirectoryError>)
        ensures
            r is Ok ==> r->Ok_0.root() == Root::Data && r->Ok_0.segments().len() == 0,
    ;

    fn writable_config(&mut self) -> (r: Result<Self::WritableDir, OuterDirectoryError>)
        ensures
            r is Ok ==> r->Ok_0.root() == Root::Config && r->Ok_0.segments().len() == 0,
    ;

    fn writable_cache(&mut self) -> (r: Result<Self::WritableDir, OuterDirectoryError>)
        ensures
            r is Ok ==> r->Ok_0.root() == Root::Cache && r->Ok_0.segments().len() == 0,
    ;
}

} // verus!
