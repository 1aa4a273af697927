use super::super::generic::IoError;
use super::super::memory::readers_writers::StorageReader;
use vstd::prelude::*;
use vstd::string::StringExecFns;
use vstd::utf8::{decode_utf8, encode_utf8, valid_utf8};

verus! {

/// Relies on `std::str::from_utf8`: it succeeds exactly on valid UTF-8, and the string it
/// gives is the text those bytes encode.
#[verifier::external_body]
pub(crate) fn utf8_to_string(bytes: &[u8]) -> (r: Option<String>)
    ensures
        r is Some <==> valid_utf8(bytes@),
        r is Some ==> r->0@ == decode_utf8(bytes@),
{
    match std::str::from_utf8(bytes) {
        Ok(text) => Some(text.to_string()),
        Err(_) => None,
    }
}

/// A reader over the UTF-8 bytes of a stored string.
pub struct TextStorageReader {
    cursor: StorageReader,
}

impl TextStorageReader {
    pub closed spec fn wf(&self) -> bool {
        self.cursor.wf()
    }

    /// The bytes not yet handed out.
    pub closed spec fn remaining(&self) -> Seq<u8> {
        self.cursor.remaining()
    }

    /// A reader over the value found under a key, or [`IoError::NotFound`] where there was
    /// none.
    pub fn new(value: Option<String>) -> (r: Result<Self, IoError>)
        ensures
            value is None ==> r matches Err(IoError::NotFound),
            value is Some ==> r is Ok && r->Ok_0.wf() && r->Ok_0.remaining() == encode_utf8(value->0@),
    {
        match value {
            Some(value) => {
                let bytes = value.as_str().as_bytes();
                let mut contents: Vec<u8> = Vec::new();
                let mut i: usize = 0;
                while i < bytes.len()
                    invariant
                        i <= bytes@.len(),
                        contents@ == bytes@.subrange(0, i as int),
                    decreases bytes.len() - i,
                {
                    contents.push(bytes[i]);
                    i = i + 1;
                    assert(contents@ =~= bytes@.subrange(0, i as int));
                }
                assert(contents@ =~= bytes@);
                Ok(TextStorageReader { cursor: StorageReader::from_vec(contents) })
            },
            None => Err(IoError::NotFound),
        }
    }

    /// Copy the next bytes into the front of `buf`, as many as fit, and say how many.
    pub fn read(&mut self, buf: &mut [u8]) -> (r: Result<usize, IoError>)
        requires
            old(self).wf(),
        ensures
            final(self).wf(),
            r is Ok,
            ({
                let n = r->Ok_0;
                &&& n == if old(buf)@.len() < old(self).remaining().len() {
                    old(buf)@.len()
                } else {
                    old(self).remaining().len()
                }
                &&& final(buf)@.len() == old(buf)@.len()
                &&& final(buf)@.subrange(0, n as int) == old(self).remaining().subrange(0, n as int)
                &&& final(buf)@.subrange(n as int, final(buf)@.len() as int) == old(buf)@.subrange(n as int, old(buf)@.len() as int)
                &&& final(self).remaining() == old(self).remaining().subrange(n as int, old(self).remaining().len() as int)
            }),
    {
        self.cursor.read(buf)
    }

    /// Hand out every remaining byte.
    pub fn read_to_end(&mut self) -> (r: Vec<u8>)
        requires
            old(self).wf(),
        ensures
            final(self).wf(),
            r@ == old(self).remaining(),
            final(self).remaining().len() == 0,
    {
        self.cursor.read_to_end()
    }
}

/// A writer that collects bytes and, when flushed, gives the string to store under its key.
pub struct TextStorageWriter {
    key: String,
    buf: Vec<u8>,
}

impl TextStorageWriter {
    /// The key the text is stored under.
    pub closed spec fn key(&self) -> Seq<char> {
        self.key@
    }

    /// Every byte written so far.
    pub closed spec fn written(&self) -> Seq<u8> {
        self.buf@
    }

    pub fn new(key: &str) -> (r: Result<Self, IoError>)
        ensures
            r is Ok,
            r->Ok_0.key() == key@,
            r->Ok_0.written() == Seq::<u8>::empty(),
    {
        Ok(TextStorageWriter { key: String::from_str(key), buf: Vec::new() })
    }

    /// The key the text is stored under.
    pub fn key_str(&self) -> (r: &str)
        ensures
            r@ == self.key(),
    {
        self.key.as_str()
    }

    /// Collect `data`.
    pub fn write(&mut self, data: &[u8]) -> (r: Result<usize, IoError>)
        ensures
            r == Ok::<usize, IoError>(data@.len() as usize),
            final(self).key() == old(self).key(),
            final(self).written() == old(self).written() + data@,
    {
        self.buf.extend_from_slice(data);
        assert(self.buf@ =~= old(self).buf@ + data@);
        Ok(data.len())
    }

    /// The string to store: the text that the written bytes encode, or an error where they are
    /// not UTF-8.
    pub fn flush(&mut self) -> (r: Result<String, IoError>)
        ensures
            *final(self) == *old(self),
            r is Ok <==> valid_utf8(old(self).written()),
            r is Ok ==> r->Ok_0@ == decode_utf8(old(self).written()),
            r is Err ==> r matches Err(IoError::Other(_)),
    {
        match utf8_to_string(self.buf.as_slice()) {
            Some(value) => Ok(value),
            None => Err(IoError::Other(String::from_str("cannot convert utf8"))),
        }
    }
}

/// Text round trip: the string that a flush gives for written UTF-8 bytes, once stored and
/// read back, hands out exactly those bytes.
pub proof fn lemma_text_round_trip(written: Seq<u8>)
    requires
        valid_utf8(written),
    ensures
        encode_utf8(decode_utf8(written)) == written,
{
    vstd::utf8::decode_utf8_encode_utf8(written);
}

} // verus!
