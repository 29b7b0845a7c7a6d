//! Random-access byte cursor over an in-memory source, with little-endian
//! multi-byte reads and null-terminated string reads. Every read checks
//! bounds and fails with `DecodeError::OutOfBounds` instead of reading past
//! the end.

use vstd::prelude::*;

verus! {

use crate::DecodeError;

/// Little-endian 16-bit value of the two bytes at `i`.
pub open spec fn le16_at(s: Seq<u8>, i: int) -> int {
    s[i] + 0x100 * s[i + 1]
}

/// Little-endian 32-bit value of the four bytes at `i`.
pub open spec fn le32_at(s: Seq<u8>, i: int) -> int {
    le16_at(s, i) + 0x10000 * le16_at(s, i + 2)
}

/// Two's-complement reading of an 8-bit value.
pub open spec fn to_signed8(v: int) -> int {
    if v < 0x80 {
        v
    } else {
        v - 0x100
    }
}

/// Two's-complement reading of a 16-bit value.
pub open spec fn to_signed16(v: int) -> int {
    if v < 0x8000 {
        v
    } else {
        v - 0x10000
    }
}

/// Two's-complement reading of a 32-bit value.
pub open spec fn to_signed32(v: int) -> int {
    if v < 0x80000000 {
        v
    } else {
        v - 0x100000000
    }
}

/// Position of the first zero byte at or after `pos`, or `s.len()` when no
/// terminator follows.
pub open spec fn terminator_at(s: Seq<u8>, pos: int) -> int
    decreases s.len() - pos,
{
    if pos < 0 || pos >= s.len() {
        s.len() as int
    } else if s[pos] == 0 {
        pos
    } else {
        terminator_at(s, pos + 1)
    }
}

/// Whether every byte of `s` is ASCII text.
pub open spec fn all_ascii(s: Seq<u8>) -> bool {
    forall|i: int| 0 <= i < s.len() ==> s[i] < 0x80
}

/// The characters of a run of ASCII bytes, one character per byte.
pub open spec fn ascii_chars(s: Seq<u8>) -> Seq<char> {
    s.map(|_i: int, b: u8| b as char)
}

/// Byte cursor over the in-memory source. The source itself never changes;
/// only the position moves.
pub struct Reader {
    data: Vec<u8>,
    pos: usize,
}

impl Reader {
    /// The bytes of the source.
    pub closed spec fn bytes(&self) -> Seq<u8> {
        self.data@
    }

    /// The current cursor position.
    pub closed spec fn pos(&self) -> int {
        self.pos as int
    }

    pub fn new(data: Vec<u8>) -> (r: Reader)
        ensures
            r.bytes() == data@,
            r.pos() == 0,
    {
        Reader { data, pos: 0 }
    }

    /// The cursor is a machine position and can never be negative.
    pub proof fn lemma_pos_range(&self)
        ensures
            0 <= self.pos() <= usize::MAX,
    {
    }

    /// The source is held in memory, so its size fits the machine.
    pub proof fn lemma_bytes_len(&self)
        ensures
            self.bytes().len() <= usize::MAX,
    {
        broadcast use vstd::std_specs::vec::axiom_spec_len;

        assert(vstd::std_specs::vec::spec_vec_len(&self.data) == self.data@.len());
    }

    /// Number of bytes in the source.
    pub fn len(&self) -> (r: usize)
        ensures
            r == self.bytes().len(),
    {
        self.data.len()
    }

    /// Current position, as a value the caller can store.
    pub fn position(&self) -> (r: usize)
        ensures
            r == self.pos(),
    {
        self.pos
    }

    /// Move the cursor to an absolute position. A position past the end is
    /// allowed; the next read there fails.
    pub fn seek(&mut self, pos: usize)
        ensures
            final(self).bytes() == old(self).bytes(),
            final(self).pos() == pos,
    {
        self.pos = pos;
    }

    /// Move the cursor to a computed absolute address, which must denote a
    /// machine position: addresses outside `0 ..= usize::MAX` cannot be read
    /// from the source and abort the decode.
    pub fn seek_addr(&mut self, addr: i128) -> (r: Result<(), DecodeError>)
        ensures
            final(self).bytes() == old(self).bytes(),
            if 0 <= addr <= usize::MAX {
                r == Ok::<(), DecodeError>(())
                && final(self).pos() == addr
            } else {
                r == Err::<(), DecodeError>(DecodeError::OutOfBounds)
                && final(self).pos() == old(self).pos()
            },
    {
        if addr < 0 {
            return Err(DecodeError::OutOfBounds);
        }
        if addr > usize::MAX as i128 {
            return Err(DecodeError::OutOfBounds);
        }
        self.pos = addr as usize;
        Ok(())
    }

    pub fn read_u8(&mut self) -> (r: Result<u8, DecodeError>)
        ensures
            final(self).bytes() == old(self).bytes(),
            if old(self).pos() + 1 <= old(self).bytes().len() {
                r == Ok::<u8, DecodeError>(old(self).bytes()[old(self).pos()])
                && final(self).pos() == old(self).pos() + 1
            } else {
                r == Err::<u8, DecodeError>(DecodeError::OutOfBounds)
                && final(self).pos() == old(self).pos()
            },
    {
        if self.pos < self.data.len() {
            let b = self.data[self.pos];
            self.pos = self.pos + 1;
            Ok(b)
        } else {
            Err(DecodeError::OutOfBounds)
        }
    }

    pub fn read_i8(&mut self) -> (r: Result<i8, DecodeError>)
        ensures
            final(self).bytes() == old(self).bytes(),
            if old(self).pos() + 1 <= old(self).bytes().len() {
                r is Ok
                && r->Ok_0 == to_signed8(old(self).bytes()[old(self).pos()] as int)
                && final(self).pos() == old(self).pos() + 1
            } else {
                r == Err::<i8, DecodeError>(DecodeError::OutOfBounds)
                && final(self).pos() == old(self).pos()
            },
    {
        let b = self.read_u8()?;
        if b < 0x80 {
            Ok(b as i8)
        } else {
            Ok(-((0xffu8 - b) as i8) - 1)
        }
    }

    pub fn read_u16(&mut self) -> (r: Result<u16, DecodeError>)
        ensures
            final(self).bytes() == old(self).bytes(),
            if old(self).pos() + 2 <= old(self).bytes().len() {
                r is Ok
                && r->Ok_0 == le16_at(old(self).bytes(), old(self).pos())
                && final(self).pos() == old(self).pos() + 2
            } else {
                r == Err::<u16, DecodeError>(DecodeError::OutOfBounds)
                && final(self).pos() == old(self).pos()
            },
    {
        if self.data.len() >= 2 && self.pos <= self.data.len() - 2 {
            let b0 = self.data[self.pos];
            let b1 = self.data[self.pos + 1];
            self.pos = self.pos + 2;
            Ok(b0 as u16 + 0x100 * (b1 as u16))
        } else {
            Err(DecodeError::OutOfBounds)
        }
    }

    pub fn read_i16(&mut self) -> (r: Result<i16, DecodeError>)
        ensures
            final(self).bytes() == old(self).bytes(),
            if old(self).pos() + 2 <= old(self).bytes().len() {
                r is Ok
                && r->Ok_0 == to_signed16(le16_at(old(self).bytes(), old(self).pos()))
                && final(self).pos() == old(self).pos() + 2
            } else {
                r == Err::<i16, DecodeError>(DecodeError::OutOfBounds)
                && final(self).pos() == old(self).pos()
            },
    {
        let v = self.read_u16()?;
        if v < 0x8000 {
            Ok(v as i16)
        } else {
            Ok(-((0xffffu16 - v) as i16) - 1)
        }
    }

    pub fn read_u32(&mut self) -> (r: Result<u32, DecodeError>)
        ensures
            final(self).bytes() == old(self).bytes(),
            if old(self).pos() + 4 <= old(self).bytes().len() {
                r is Ok
                && r->Ok_0 == le32_at(old(self).bytes(), old(self).pos())
                && final(self).pos() == old(self).pos() + 4
            } else {
                r == Err::<u32, DecodeError>(DecodeError::OutOfBounds)
                && final(self).pos() == old(self).pos()
            },
    {
        if self.data.len() >= 4 && self.pos <= self.data.len() - 4 {
            let b0 = self.data[self.pos];
            let b1 = self.data[self.pos + 1];
            let b2 = self.data[self.pos + 2];
            let b3 = self.data[self.pos + 3];
            self.pos = self.pos + 4;
            Ok(b0 as u32 + 0x100 * (b1 as u32) + 0x10000 * (b2 as u32) + 0x1000000 * (b3 as u32))
        } else {
            Err(DecodeError::OutOfBounds)
        }
    }

    pub fn read_i32(&mut self) -> (r: Result<i32, DecodeError>)
        ensures
            final(self).bytes() == old(self).bytes(),
            if old(self).pos() + 4 <= old(self).bytes().len() {
                r is Ok
                && r->Ok_0 == to_signed32(le32_at(old(self).bytes(), old(self).pos()))
                && final(self).pos() == old(self).pos() + 4
            } else {
                r == Err::<i32, DecodeError>(DecodeError::OutOfBounds)
                && final(self).pos() == old(self).pos()
            },
    {
        let v = self.read_u32()?;
        if v < 0x80000000 {
            Ok(v as i32)
        } else {
            Ok(-((0xffffffffu32 - v) as i32) - 1)
        }
    }

    /// Read `n` raw bytes, advancing the cursor by `n`.
    pub fn read_bytes(&mut self, n: usize) -> (r: Result<Vec<u8>, DecodeError>)
        ensures
            final(self).bytes() == old(self).bytes(),
            if old(self).pos() + n <= old(self).bytes().len() {
                r is Ok
                && r->Ok_0@ == old(self).bytes().subrange(
                    old(self).pos(),
                    old(self).pos() + n,
                )
                && final(self).pos() == old(self).pos() + n
            } else {
                r == Err::<Vec<u8>, DecodeError>(DecodeError::OutOfBounds)
                && final(self).pos() == old(self).pos()
            },
    {
        if self.pos <= self.data.len() && n <= self.data.len() - self.pos {
            let mut out: Vec<u8> = Vec::new();
            let mut i: usize = 0;
            while i < n
                invariant
                    i <= n,
                    self.pos + n <= self.data.len(),
                    out@ == self.data@.subrange(self.pos as int, self.pos + i),
                decreases n - i,
            {
                out.push(self.data[self.pos + i]);
                i = i + 1;
                proof {
                    assert(out@ =~= self.data@.subrange(self.pos as int, self.pos + i));
                }
            }
            self.pos = self.pos + n;
            Ok(out)
        } else {
            Err(DecodeError::OutOfBounds)
        }
    }

    /// Read a null-terminated run of text at the current position, advancing
    /// the cursor past the terminator. A missing terminator is a bounds
    /// fault; a non-ASCII byte before the terminator is a schema fault.
    pub fn read_string(&mut self) -> (r: Result<String, DecodeError>)
        ensures
            final(self).bytes() == old(self).bytes(),
            ({
                let s = old(self).bytes();
                let p = old(self).pos();
                let end = terminator_at(s, p);
                if end == s.len() {
                    r == Err::<String, DecodeError>(DecodeError::OutOfBounds)
                    && final(self).pos() == p
                } else if !all_ascii(s.subrange(p, end)) {
                    r == Err::<String, DecodeError>(DecodeError::SchemaViolation)
                    && final(self).pos() == p
                } else {
                    r is Ok
                    && r->Ok_0@ == ascii_chars(s.subrange(p, end))
                    && final(self).pos() == end + 1
                }
            }),
    {
        let ghost s = self.bytes();
        let ghost p0 = self.pos();
        if self.pos >= self.data.len() {
            return Err(DecodeError::OutOfBounds);
        }
        let mut raw: Vec<u8> = Vec::new();
        let mut i: usize = self.pos;
        loop
            invariant
                self.bytes() == s,
                self.pos() == p0,
                p0 <= i <= s.len(),
                terminator_at(s, p0) == terminator_at(s, i as int),
                raw@ == s.subrange(p0, i as int),
            ensures
                i == terminator_at(s, p0),
                i < s.len(),
                raw@ == s.subrange(p0, i as int),
            decreases s.len() - i,
        {
            if i >= self.data.len() {
                proof {
                    assert(terminator_at(s, i as int) == s.len());
                }
                return Err(DecodeError::OutOfBounds);
            }
            let b = self.data[i];
            if b == 0 {
                proof {
                    assert(terminator_at(s, i as int) == i);
                }
                break;
            }
            raw.push(b);
            i = i + 1;
            proof {
                assert(raw@ =~= s.subrange(p0, i as int));
            }
        }
        let ghost end = terminator_at(s, p0);
        let mut k: usize = 0;
        while k < raw.len()
            invariant
                self.bytes() == s,
                self.pos() == p0,
                0 <= p0 <= end < s.len(),
                end == terminator_at(s, p0),
                raw@ == s.subrange(p0, end),
                k <= raw@.len(),
                forall|j: int| 0 <= j < k ==> raw@[j] < 0x80,
            decreases raw@.len() - k,
        {
            if raw[k] >= 0x80 {
                proof {
                    assert(s.subrange(p0, end)[k as int] >= 0x80);
                    assert(!all_ascii(s.subrange(p0, end)));
                }
                return Err(DecodeError::SchemaViolation);
            }
            k = k + 1;
        }
        let text = ascii_to_string(&raw);
        proof {
            assert(text@ =~= ascii_chars(s.subrange(p0, end)));
        }
        self.pos = i + 1;
        Ok(text)
    }
}

/// Relies on `String::from_utf8_lossy`: a run of ASCII bytes is valid UTF-8
/// and decodes to exactly one character per byte, each with the byte's value.
#[verifier::external_body]
fn ascii_to_string(bytes: &Vec<u8>) -> (r: String)
    requires
        all_ascii(bytes@),
    ensures
        r@.len() == bytes@.len(),
        forall|i: int| 0 <= i < bytes@.len() ==> r@[i] == bytes@[i] as char,
{
    String::from_utf8_lossy(bytes).into_owned()
}

} // verus!
