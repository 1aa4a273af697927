//! Bytes kept in a string store. Each byte is stored as two lower case hexadecimal digits, high
//! half first; the text so made is ASCII, and decoding it gives back every byte sequence.
use super::super::generic::IoError;
use super::super::memory::readers_writers::StorageReader;
use super::text_values::utf8_to_string;
use vstd::prelude::*;
use vstd::string::StringExecFns;
use vstd::utf8::{decode_utf8, encode_utf8, is_ascii_chars, valid_utf8};

verus! {

/// The digit for `n` (below 16), as an ASCII byte.
pub open spec fn hex_digit(n: u8) -> u8 {
    if n < 10 {
        (48 + n) as u8
    } else {
        (87 + n) as u8
    }
}

/// The value of an ASCII hexadecimal digit (lower or upper case), if it is one.
pub open spec fn hex_value(c: u8) -> Option<u8> {
    if 48 <= c <= 57 {
        Some((c - 48) as u8)
    } else if 97 <= c <= 102 {
        Some((c - 87) as u8)
    } else if 65 <= c <= 70 {
        Some((c - 55) as u8)
    } else {
        None
    }
}

/// The ASCII text that stands for `data`.
pub open spec fn hex_bytes(data: Seq<u8>) -> Seq<u8> {
    Seq::new(
        2 * data.len(),
        |i: int|
            if i % 2 == 0 {
                hex_digit(data[i / 2] / 16)
            } else {
                hex_digit(data[i / 2] % 16)
            },
    )
}

/// Whether `text` is a whole number of hexadecimal digit pairs.
pub open spec fn is_hex_text(text: Seq<u8>) -> bool {
    text.len() % 2 == 0 && forall|i: int| 0 <= i < text.len() ==> (#[trigger] hex_value(text[i])) is Some
}

/// The bytes that the digit pairs of `text` stand for.
pub open spec fn unhex_bytes(text: Seq<u8>) -> Seq<u8> {
    Seq::new(
        text.len() / 2,
        |i: int| (hex_value(text[2 * i])->0 * 16 + hex_value(text[2 * i + 1])->0) as u8,
    )
}

fn digit(n: u8) -> (r: u8)
    requires
        n < 16,
    ensures
        r == hex_digit(n),
{
    if n < 10 {
        48 + n
    } else {
        87 + n
    }
}

fn digit_value(c: u8) -> (r: Option<u8>)
    ensures
        r == hex_value(c),
{
    if 48 <= c && c <= 57 {
        Some(c - 48)
    } else if 97 <= c && c <= 102 {
        Some(c - 87)
    } else if 65 <= c && c <= 70 {
        Some(c - 55)
    } else {
        None
    }
}

proof fn lemma_ascii_bytes_are_utf8(bytes: Seq<u8>)
    requires
        forall|i: int| 0 <= i < bytes.len() ==> bytes[i] < 128,
    ensures
        valid_utf8(bytes),
        encode_utf8(decode_utf8(bytes)) == bytes,
{
    let chars = Seq::new(bytes.len(), |i: int| bytes[i] as char);
    assert(is_ascii_chars(chars));
    vstd::utf8::is_ascii_chars_encode_utf8(chars);
    assert(encode_utf8(chars) =~= bytes);
    vstd::utf8::encode_utf8_valid_utf8(chars);
    vstd::utf8::decode_utf8_encode_utf8(bytes);
}

proof fn lemma_digit_round_trip(n: u8)
    requires
        n < 16,
    ensures
        hex_value(hex_digit(n)) == Some(n),
        hex_digit(n) < 128,
{
}

/// The text that stands for `data`.
pub fn encode_binary(data: &[u8]) -> (r: String)
    ensures
        valid_utf8(hex_bytes(data@)),
        r@ == decode_utf8(hex_bytes(data@)),
{
    let mut out: Vec<u8> = Vec::new();
    let mut i: usize = 0;
    while i < data.len()
        invariant
            i <= data@.len(),
            out@ == hex_bytes(data@).subrange(0, 2 * i as int),
        decreases data.len() - i,
    {
        let b = data[i];
        out.push(digit(b / 16));
        out.push(digit(b % 16));
        i = i + 1;
        assert(out@ =~= hex_bytes(data@).subrange(0, 2 * i as int));
    }
    assert(out@ =~= hex_bytes(data@));
    proof {
        assert forall|j: int| 0 <= j < out@.len() implies out@[j] < 128 by {
            lemma_digit_round_trip(data@[j / 2] / 16);
            lemma_digit_round_trip(data@[j / 2] % 16);
        }
        lemma_ascii_bytes_are_utf8(out@);
    }
    match utf8_to_string(out.as_slice()) {
        Some(text) => text,
        None => String::new(),
    }
}

/// The bytes that `text` stands for, or an error where it is not a whole number of
/// hexadecimal digit pairs.
pub fn decode_binary(text: &str) -> (r: Result<Vec<u8>, IoError>)
    ensures
        r is Ok <==> is_hex_text(encode_utf8(text@)),
        r is Ok ==> r->Ok_0@ == unhex_bytes(encode_utf8(text@)),
        r is Err ==> r matches Err(IoError::Other(_)),
{
    let bytes = text.as_bytes();
    if bytes.len() % 2 != 0 {
        return Err(IoError::Other(String::from_str("cannot decode binary value")));
    }
    let mut out: Vec<u8> = Vec::new();
    let mut i: usize = 0;
    while i < bytes.len() / 2
        invariant
            bytes@ == encode_utf8(text@),
            bytes@.len() % 2 == 0,
            i <= bytes@.len() / 2,
            forall|j: int| 0 <= j < 2 * i ==> (#[trigger] hex_value(bytes@[j])) is Some,
            out@ == unhex_bytes(bytes@).subrange(0, i as int),
        decreases bytes.len() / 2 - i,
    {
        let hi = digit_value(bytes[2 * i]);
        let lo = digit_value(bytes[2 * i + 1]);
        match (hi, lo) {
            (Some(h), Some(l)) => {
                out.push(h * 16 + l);
            },
            _ => {
                return Err(IoError::Other(String::from_str("cannot decode binary value")));
            },
        }
        i = i + 1;
        assert(out@ =~= unhex_bytes(bytes@).subrange(0, i as int));
    }
    assert(out@ =~= unhex_bytes(bytes@));
    Ok(out)
}

/// Binary round trip: the text that stands for any bytes is valid UTF-8, is read back from the
/// store as the same bytes, and decodes to exactly the bytes it was made from.
pub proof fn lemma_binary_round_trip(data: Seq<u8>)
    ensures
        valid_utf8(hex_bytes(data)),
        encode_utf8(decode_utf8(hex_bytes(data))) == hex_bytes(data),
        is_hex_text(hex_bytes(data)),
        unhex_bytes(hex_bytes(data)) == data,
{
    let text = hex_bytes(data);
    assert forall|j: int| 0 <= j < text.len() implies text[j] < 128 && hex_value(text[j]) is Some by {
        lemma_digit_round_trip(data[j / 2] / 16);
        lemma_digit_round_trip(data[j / 2] % 16);
    }
    lemma_ascii_bytes_are_utf8(text);
    assert forall|i: int| 0 <= i < data.len() implies #[trigger] unhex_bytes(text)[i] == data[i] by {
        let b = data[i];
        lemma_digit_round_trip(b / 16);
        lemma_digit_round_trip(b % 16);
        assert((2 * i) / 2 == i);
        assert((2 * i + 1) / 2 == i);
        assert((2 * i) % 2 == 0);
        assert((2 * i + 1) % 2 == 1);
        assert((b / 16) * 16 + b % 16 == b);
    }
    assert(unhex_bytes(text) =~= data);
}

/// A reader over the bytes that a stored text stands for.
pub struct BinaryStorageReader {
    cursor: StorageReader,
}

impl BinaryStorageReader {
    pub closed spec fn wf(&self) -> bool {
        self.cursor.wf()
    }

    /// The bytes not yet handed out.
    pub closed spec fn remaining(&self) -> Seq<u8> {
        self.cursor.remaining()
    }

    /// A reader over the bytes that the value found under a key stands for;
    /// [`IoError::NotFound`] where there was none, and an error where the value is no such text.
    pub fn new(value: Option<String>) -> (r: Result<Self, IoError>)
        ensures
            value is None ==> r matches Err(IoError::NotFound),
            value is Some ==> (r is Ok <==> is_hex_text(encode_utf8(value->0@))),
            value is Some && r is Ok ==> r->Ok_0.wf() && r->Ok_0.remaining() == unhex_bytes(
                encode_utf8(value->0@),
            ),
    {
        match value {
            Some(value) => match decode_binary(value.as_str()) {
                Ok(bytes) => Ok(BinaryStorageReader { cursor: StorageReader::from_vec(bytes) }),
                Err(e) => Err(e),
            },
            None => Err(IoError::NotFound),
        }
    }

    /// Copy the next bytes into the front of `buf`, as many as fit, and say how many.
    pub fn read(&mut self, buf: &mut [u8]) -> (r: Result<usize, IoError>)
        requires
            old(self).wf(),
        ensures
            final(self).wf(),
            r is Ok,
            ({
                let n = r->Ok_0;
                &&& n == if old(buf)@.len() < old(self).remaining().len() {
                    old(buf)@.len()
                } else {
                    old(self).remaining().len()
                }
                &&& final(buf)@.len() == old(buf)@.len()
                &&& final(buf)@.subrange(0, n as int) == old(self).remaining().subrange(0, n as int)
                &&& final(buf)@.subrange(n as int, final(buf)@.len() as int) == old(buf)@.subrange(n as int, old(buf)@.len() as int)
                &&& final(self).remaining() == old(self).remaining().subrange(n as int, old(self).remaining().len() as int)
            }),
    {
        self.cursor.read(buf)
    }

    /// Hand out every remaining byte.
    pub fn read_to_end(&mut self) -> (r: Vec<u8>)
        requires
            old(self).wf(),
        ensures
            final(self).wf(),
            r@ == old(self).remaining(),
            final(self).remaining().len() == 0,
    {
        self.cursor.read_to_end()
    }
}

/// A writer that collects bytes and, when flushed, gives the text to store under its key.
pub struct BinaryStorageWriter {
    key: String,
    buf: Vec<u8>,
}

impl BinaryStorageWriter {
    /// The key the bytes are stored under.
    pub closed spec fn key(&self) -> Seq<char> {
        self.key@
    }

    /// Every byte written so far.
    pub closed spec fn written(&self) -> Seq<u8> {
        self.buf@
    }

    pub fn new(key: &str) -> (r: Result<Self, IoError>)
        ensures
            r is Ok,
            r->Ok_0.key() == key@,
            r->Ok_0.written() == Seq::<u8>::empty(),
    {
        Ok(BinaryStorageWriter { key: String::from_str(key), buf: Vec::new() })
    }

    /// The key the bytes are stored under.
    pub fn key_str(&self) -> (r: &str)
        ensures
            r@ == self.key(),
    {
        self.key.as_str()
    }

    /// Collect `data`.
    pub fn write(&mut self, data: &[u8]) -> (r: Result<usize, IoError>)
        ensures
            r == Ok::<usize, IoError>(data@.len() as usize),
            final(self).key() == old(self).key(),
            final(self).written() == old(self).written() + data@,
    {
        self.buf.extend_from_slice(data);
        assert(self.buf@ =~= old(self).buf@ + data@);
        Ok(data.len())
    }

    /// The text to store: the one that stands for every byte written.
    pub fn flush(&mut self) -> (r: Result<String, IoError>)
        ensures
            *final(self) == *old(self),
            r is Ok,
            r->Ok_0@ == decode_utf8(hex_bytes(old(self).written())),
    {
        Ok(encode_binary(self.buf.as_slice()))
    }
}

} // verus!
