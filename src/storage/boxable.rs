//! Adapters that forward every operation of a file or directory handle unchanged, so that
//! handles of different backends can be held behind one uniform interface.
use super::address::Root;
use super::generic::{self, IoError};
use vstd::prelude::*;

verus! {

impl<F: generic::File + ?Sized> generic::File for Box<F> {
    type ReadText = F::ReadText;
    type ReadBinary = F::ReadBinary;

    open spec fn root(&self) -> Root {
        (**self).root()
    }

    open spec fn segments(&self) -> Seq<Seq<char>> {
        (**self).segments()
    }

    open spec fn name(&self) -> Seq<char> {
        (**self).name()
    }

    fn file_exists(&self) -> (r: Result<bool, IoError>)
        ensures
            call_ensures(F::file_exists, (&**self,), r),
    {
        (**self).file_exists()
    }

    fn read_text(&self) -> (r: Result<F::ReadText, IoError>)
        ensures
            call_ensures(F::read_text, (&**self,), r),
    {
        (**self).read_text()
    }

    fn read_binary(&self) -> (r: Result<F::ReadBinary, IoError>)
        ensures
            call_ensures(F::read_binary, (&**self,), r),
    {
        (**self).read_binary()
    }
}

impl<F: generic::WritableFile + ?Sized> generic::WritableFile for Box<F> {
    type WriteText = F::WriteText;
    type WriteBinary = F::WriteBinary;

    fn remove(&mut self) -> (r: Result<(), IoError>) {
        (**self).remove()
    }

    fn write_text(&mut self) -> (r: Result<F::WriteText, IoError>) {
        (**self).write_text()
    }

    fn write_binary(&mut self) -> (r: Result<F::WriteBinary, IoError>) {
        (**self).write_binary()
    }
}

impl<D: generic::Dir + ?Sized> generic::Dir for Box<D> {
    type File = D::File;

    open spec fn root(&self) -> Root {
        (**self).root()
    }

    open spec fn segments(&self) -> Seq<Seq<char>> {
        (**self).segments()
    }

    fn file(&self, name: &str) -> (f: D::File)
        ensures
            call_ensures(D::file, (&**self, name), f),
    {
        (**self).file(name)
    }
}

impl<D: generic::WritableDir + ?Sized> generic::WritableDir for Box<D> {
    type WritableFile = D::WritableFile;

    fn writable_file(&mut self, name: &str) -> (f: D::WritableFile) {
        (**self).writable_file(name)
    }
}

/// A file handle that forwards to the handle it was made from.
pub struct BoxableFile<F> {
    source: F,
}

impl<F> BoxableFile<F> {
    /// The handle every operation is forwarded to.
    pub closed spec fn source(&self) -> F {
        self.source
    }
}

impl<F> From<F> for BoxableFile<F> {
    fn from(source: F) -> (r: Self)
        ensures
            r.source() == source,
    {
        BoxableFile { source }
    }
}

impl<F> vstd::std_specs::convert::FromSpecImpl<F> for BoxableFile<F> {
    open spec fn obeys_from_spec() -> bool {
        true
    }

    closed spec fn from_spec(source: F) -> Self {
        BoxableFile { source }
    }
}

impl<F: generic::File> generic::File for BoxableFile<F> {
    type ReadText = F::ReadText;
    type ReadBinary = F::ReadBinary;

    open spec fn root(&self) -> Root {
        self.source().root()
    }

    open spec fn segments(&self) -> Seq<Seq<char>> {
        self.source().segments()
    }

    open spec fn name(&self) -> Seq<char> {
        self.source().name()
    }

    fn file_exists(&self) -> (r: Result<bool, IoError>)
        ensures
            call_ensures(F::file_exists, (&self.source(),), r),
    {
        self.source.file_exists()
    }

    fn read_text(&self) -> (r: Result<F::ReadText, IoError>)
        ensures
            call_ensures(F::read_text, (&self.source(),), r),
    {
        self.source.read_text()
    }

    fn read_binary(&self) -> (r: Result<F::ReadBinary, IoError>)
        ensures
            call_ensures(F::read_binary, (&self.source(),), r),
    {
        self.source.read_binary()
    }
}

impl<F: generic::WritableFile> generic::WritableFile for BoxableFile<F> {
    type WriteText = F::WriteText;
    type WriteBinary = F::WriteBinary;

    fn remove(&mut self) -> (r: Result<(), IoError>) {
        self.source.remove()
    }

    fn write_text(&mut self) -> (r: Result<F::WriteText, IoError>) {
        self.source.write_text()
    }

    fn write_binary(&mut self) -> (r: Result<F::WriteBinary, IoError>) {
        self.source.write_binary()
    }
}

/// A directory handle that forwards to the handle it was made from, and wraps the files it
/// hands out in [`BoxableFile`].
pub struct BoxableDir<D> {
    source: D,
}

impl<D> BoxableDir<D> {
    /// The handle every operation is forwarded to.
    pub closed spec fn source(&self) -> D {
        self.source
    }
}

impl<D> From<D> for BoxableDir<D> {
    fn from(source: D) -> (r: Self)
        ensures
            r.source() == source,
    {
        BoxableDir { source }
    }
}

impl<D> vstd::std_specs::convert::FromSpecImpl<D> for BoxableDir<D> {
    open spec fn obeys_from_spec() -> bool {
        true
    }

    closed spec fn from_spec(source: D) -> Self {
        BoxableDir { source }
    }
}

impl<D: generic::Dir> generic::Dir for BoxableDir<D> {
    type File = BoxableFile<D::File>;

    open spec fn root(&self) -> Root {
        self.source().root()
    }

    open spec fn segments(&self) -> Seq<Seq<char>> {
        self.source().segments()
    }

    fn file(&self, name: &str) -> (f: BoxableFile<D::File>)
        ensures
            call_ensures(D::file, (&self.source(), name), f.source()),
    {
        BoxableFile { source: self.source.file(name) }
    }
}

impl<D: generic::WritableDir> generic::WritableDir for BoxableDir<D> {
    type WritableFile = BoxableFile<D::WritableFile>;

    fn writable_file(&mut self, name: &str) -> (f: BoxableFile<D::WritableFile>) {
        BoxableFile { source: self.source.writable_file(name) }
    }
}

} // verus!
