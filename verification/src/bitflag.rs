//! Conditional field decoder. A record's optional fields stand behind a bit
//! mask threaded across the whole record: each read tests and consumes the
//! lowest unconsumed bit. A zero bit yields the supplied default and leaves
//! the cursor alone; a one bit decodes the field from the cursor's position,
//! advancing it by the field's natural width. String and byte-block fields
//! consume only a 4-byte relative offset from the main cursor and read their
//! payload at `base + offset`.

use vstd::prelude::*;

verus! {

use crate::DecodeError;
use crate::reader::{
    Reader, le16_at, le32_at, to_signed8, to_signed16, to_signed32, terminator_at, all_ascii,
    ascii_chars,
};

/// The mask after one bit is consumed.
pub open spec fn mask_rest(mask: u64) -> u64 {
    (mask / 2) as u64
}

/// Whether the lowest unconsumed bit of the mask is set.
pub open spec fn mask_bit(mask: u64) -> bool {
    mask % 2 == 1
}

/// Test and consume the lowest mask bit.
fn take_bit(bitflag: &mut u64) -> (r: bool)
    ensures
        *final(bitflag) == mask_rest(*old(bitflag)),
        r == mask_bit(*old(bitflag)),
{
    let bit = *bitflag % 2;
    *bitflag = *bitflag / 2;
    bit == 1
}

pub fn read_bitflag_u8(bitflag: &mut u64, reader: &mut Reader, default: u8) -> (r: Result<
    u8,
    DecodeError,
>)
    ensures
        *final(bitflag) == mask_rest(*old(bitflag)),
        final(reader).bytes() == old(reader).bytes(),
        if !mask_bit(*old(bitflag)) {
            r == Ok::<u8, DecodeError>(default)
            && final(reader).pos() == old(reader).pos()
        } else if old(reader).pos() + 1 <= old(reader).bytes().len() {
            r is Ok
            && r->Ok_0 == old(reader).bytes()[old(reader).pos()]
            && final(reader).pos() == old(reader).pos() + 1
        } else {
            r == Err::<u8, DecodeError>(DecodeError::OutOfBounds)
            && final(reader).pos() == old(reader).pos()
        },
{
    if take_bit(bitflag) {
        reader.read_u8()
    } else {
        Ok(default)
    }
}

pub fn read_bitflag_i8(bitflag: &mut u64, reader: &mut Reader, default: i8) -> (r: Result<
    i8,
    DecodeError,
>)
    ensures
        *final(bitflag) == mask_rest(*old(bitflag)),
        final(reader).bytes() == old(reader).bytes(),
        if !mask_bit(*old(bitflag)) {
            r == Ok::<i8, DecodeError>(default)
            && final(reader).pos() == old(reader).pos()
        } else if old(reader).pos() + 1 <= old(reader).bytes().len() {
            r is Ok
            && r->Ok_0 == to_signed8(old(reader).bytes()[old(reader).pos()] as int)
            && final(reader).pos() == old(reader).pos() + 1
        } else {
            r == Err::<i8, DecodeError>(DecodeError::OutOfBounds)
            && final(reader).pos() == old(reader).pos()
        },
{
    if take_bit(bitflag) {
        reader.read_i8()
    } else {
        Ok(default)
    }
}

pub fn read_bitflag_u16(bitflag: &mut u64, reader: &mut Reader, default: u16) -> (r: Result<
    u16,
    DecodeError,
>)
    ensures
        *final(bitflag) == mask_rest(*old(bitflag)),
        final(reader).bytes() == old(reader).bytes(),
        if !mask_bit(*old(bitflag)) {
            r == Ok::<u16, DecodeError>(default)
            && final(reader).pos() == old(reader).pos()
        } else if old(reader).pos() + 2 <= old(reader).bytes().len() {
            r is Ok
            && r->Ok_0 == le16_at(old(reader).bytes(), old(reader).pos())
            && final(reader).pos() == old(reader).pos() + 2
        } else {
            r == Err::<u16, DecodeError>(DecodeError::OutOfBounds)
            && final(reader).pos() == old(reader).pos()
        },
{
    if take_bit(bitflag) {
        reader.read_u16()
    } else {
        Ok(default)
    }
}

pub fn read_bitflag_i16(bitflag: &mut u64, reader: &mut Reader, default: i16) -> (r: Result<
    i16,
    DecodeError,
>)
    ensures
        *final(bitflag) == mask_rest(*old(bitflag)),
        final(reader).bytes() == old(reader).bytes(),
        if !mask_bit(*old(bitflag)) {
            r == Ok::<i16, DecodeError>(default)
            && final(reader).pos() == old(reader).pos()
        } else if old(reader).pos() + 2 <= old(reader).bytes().len() {
            r is Ok
            && r->Ok_0 == to_signed16(le16_at(old(reader).bytes(), old(reader).pos()))
            && final(reader).pos() == old(reader).pos() + 2
        } else {
            r == Err::<i16, DecodeError>(DecodeError::OutOfBounds)
            && final(reader).pos() == old(reader).pos()
        },
{
    if take_bit(bitflag) {
        reader.read_i16()
    } else {
        Ok(default)
    }
}

pub fn read_bitflag_u32(bitflag: &mut u64, reader: &mut Reader, default: u32) -> (r: Result<
    u32,
    DecodeError,
>)
    ensures
        *final(bitflag) == mask_rest(*old(bitflag)),
        final(reader).bytes() == old(reader).bytes(),
        if !mask_bit(*old(bitflag)) {
            r == Ok::<u32, DecodeError>(default)
            && final(reader).pos() == old(reader).pos()
        } else if old(reader).pos() + 4 <= old(reader).bytes().len() {
            r is Ok
            && r->Ok_0 == le32_at(old(reader).bytes(), old(reader).pos())
            && final(reader).pos() == old(reader).pos() + 4
        } else {
            r == Err::<u32, DecodeError>(DecodeError::OutOfBounds)
            && final(reader).pos() == old(reader).pos()
        },
{
    if take_bit(bitflag) {
        reader.read_u32()
    } else {
        Ok(default)
    }
}

pub fn read_bitflag_i32(bitflag: &mut u64, reader: &mut Reader, default: i32) -> (r: Result<
    i32,
    DecodeError,
>)
    ensures
        *final(bitflag) == mask_rest(*old(bitflag)),
        final(reader).bytes() == old(reader).bytes(),
        if !mask_bit(*old(bitflag)) {
            r == Ok::<i32, DecodeError>(default)
            && final(reader).pos() == old(reader).pos()
        } else if old(reader).pos() + 4 <= old(reader).bytes().len() {
            r is Ok
            && r->Ok_0 == to_signed32(le32_at(old(reader).bytes(), old(reader).pos()))
            && final(reader).pos() == old(reader).pos() + 4
        } else {
            r == Err::<i32, DecodeError>(DecodeError::OutOfBounds)
            && final(reader).pos() == old(reader).pos()
        },
{
    if take_bit(bitflag) {
        reader.read_i32()
    } else {
        Ok(default)
    }
}

/// A 32-bit mask seed, sign-extended to the full 64-bit mask: record kinds
/// whose seed is read as a signed 32-bit value carry its sign into every
/// higher mask bit.
pub open spec fn sign_extend32(v: int) -> int {
    if v < 0x80000000 {
        v
    } else {
        v + 0xffffffff00000000
    }
}

/// A 16-bit mask extension, sign-extended to 32 bits before it is shifted
/// above an initial 32-bit seed.
pub open spec fn sign_extend16(v: int) -> int {
    if v < 0x8000 {
        v
    } else {
        v + 0xffff0000
    }
}

/// The 64-bit mask seeded from a signed 32-bit value.
pub fn mask_from_i32_seed(v: u32) -> (r: u64)
    ensures
        r == sign_extend32(v as int),
{
    if v < 0x80000000 {
        v as u64
    } else {
        v as u64 + 0xffffffff00000000u64
    }
}

/// The 64-bit mask whose low half is `low` and whose upper half is the
/// sign-extended 16-bit extension `ext`.
pub fn mask_with_extension(low: u32, ext: u16) -> (r: u64)
    ensures
        r == low + 0x100000000 * sign_extend16(ext as int),
{
    let ext32: u64 = if ext < 0x8000 {
        ext as u64
    } else {
        ext as u64 + 0xffff0000u64
    };
    low as u64 + 0x100000000u64 * ext32
}

/// One conditional scalar field, in spec form: the decoded value (widened to
/// `int`), the cursor after the field, and the mask after the bit is
/// consumed. Record decoders chain these steps; each executable
/// `read_bitflag_*` call lands exactly on one step.
pub open spec fn sflag_u8(s: Seq<u8>, pos: int, mask: u64, d: int) -> Result<
    (int, int, u64),
    DecodeError,
> {
    if !mask_bit(mask) {
        Ok((d, pos, mask_rest(mask)))
    } else if pos + 1 <= s.len() {
        Ok((s[pos] as int, pos + 1, mask_rest(mask)))
    } else {
        Err(DecodeError::OutOfBounds)
    }
}

pub open spec fn sflag_i8(s: Seq<u8>, pos: int, mask: u64, d: int) -> Result<
    (int, int, u64),
    DecodeError,
> {
    if !mask_bit(mask) {
        Ok((d, pos, mask_rest(mask)))
    } else if pos + 1 <= s.len() {
        Ok((to_signed8(s[pos] as int), pos + 1, mask_rest(mask)))
    } else {
        Err(DecodeError::OutOfBounds)
    }
}

pub open spec fn sflag_u16(s: Seq<u8>, pos: int, mask: u64, d: int) -> Result<
    (int, int, u64),
    DecodeError,
> {
    if !mask_bit(mask) {
        Ok((d, pos, mask_rest(mask)))
    } else if pos + 2 <= s.len() {
        Ok((le16_at(s, pos), pos + 2, mask_rest(mask)))
    } else {
        Err(DecodeError::OutOfBounds)
    }
}

pub open spec fn sflag_i16(s: Seq<u8>, pos: int, mask: u64, d: int) -> Result<
    (int, int, u64),
    DecodeError,
> {
    if !mask_bit(mask) {
        Ok((d, pos, mask_rest(mask)))
    } else if pos + 2 <= s.len() {
        Ok((to_signed16(le16_at(s, pos)), pos + 2, mask_rest(mask)))
    } else {
        Err(DecodeError::OutOfBounds)
    }
}

pub open spec fn sflag_u32(s: Seq<u8>, pos: int, mask: u64, d: int) -> Result<
    (int, int, u64),
    DecodeError,
> {
    if !mask_bit(mask) {
        Ok((d, pos, mask_rest(mask)))
    } else if pos + 4 <= s.len() {
        Ok((le32_at(s, pos), pos + 4, mask_rest(mask)))
    } else {
        Err(DecodeError::OutOfBounds)
    }
}

pub open spec fn sflag_i32(s: Seq<u8>, pos: int, mask: u64, d: int) -> Result<
    (int, int, u64),
    DecodeError,
> {
    if !mask_bit(mask) {
        Ok((d, pos, mask_rest(mask)))
    } else if pos + 4 <= s.len() {
        Ok((to_signed32(le32_at(s, pos)), pos + 4, mask_rest(mask)))
    } else {
        Err(DecodeError::OutOfBounds)
    }
}

/// One conditional string field, in spec form: `None` when the bit is clear,
/// otherwise the text at `base + offset`.
pub open spec fn sflag_string(s: Seq<u8>, pos: int, mask: u64, base: int) -> Result<
    (Option<Seq<char>>, int, u64),
    DecodeError,
> {
    if !mask_bit(mask) {
        Ok((None, pos, mask_rest(mask)))
    } else {
        match indirect_string(s, pos, base) {
            Ok(text) => Ok((Some(text), pos + 4, mask_rest(mask))),
            Err(e) => Err(e),
        }
    }
}

/// One conditional byte-block field, in spec form: `None` when the bit is
/// clear, otherwise `size` bytes at `base + offset`.
pub open spec fn sflag_dump(s: Seq<u8>, pos: int, mask: u64, size: int, base: int) -> Result<
    (Option<Seq<u8>>, int, u64),
    DecodeError,
> {
    if !mask_bit(mask) {
        Ok((None, pos, mask_rest(mask)))
    } else {
        match indirect_dump(s, pos, base, size) {
            Ok(block) => Ok((Some(block), pos + 4, mask_rest(mask))),
            Err(e) => Err(e),
        }
    }
}

/// The absolute address `base + offset` of an offset-indirected payload,
/// where `offset` is the signed 32-bit value at `pos`.
pub open spec fn indirect_addr(s: Seq<u8>, pos: int, base: int) -> int {
    base + to_signed32(le32_at(s, pos))
}

/// Outcome of an offset-indirected string field with the mask bit set: the
/// string decoded at `base + offset`, or the fault that stops the decode.
pub open spec fn indirect_string(s: Seq<u8>, pos: int, base: int) -> Result<Seq<char>, DecodeError> {
    if pos + 4 > s.len() {
        Err(DecodeError::OutOfBounds)
    } else {
        let target = indirect_addr(s, pos, base);
        if !(0 <= target <= usize::MAX) {
            Err(DecodeError::OutOfBounds)
        } else {
            let end = terminator_at(s, target);
            if end == s.len() {
                Err(DecodeError::OutOfBounds)
            } else if !all_ascii(s.subrange(target, end)) {
                Err(DecodeError::SchemaViolation)
            } else {
                Ok(ascii_chars(s.subrange(target, end)))
            }
        }
    }
}

/// A string field behind the mask: when the bit is set, a signed 32-bit
/// relative offset is the only thing consumed from the main cursor, and the
/// null-terminated text is read at `base + offset`.
pub fn read_bitflag_string(bitflag: &mut u64, reader: &mut Reader, base: i64) -> (r: Result<
    Option<String>,
    DecodeError,
>)
    ensures
        *final(bitflag) == mask_rest(*old(bitflag)),
        final(reader).bytes() == old(reader).bytes(),
        if !mask_bit(*old(bitflag)) {
            r is Ok
            && r->Ok_0 is None
            && final(reader).pos() == old(reader).pos()
        } else {
            match indirect_string(old(reader).bytes(), old(reader).pos(), base as int) {
                Ok(text) => r is Ok
                    && r->Ok_0 is Some
                    && r->Ok_0->0@ == text
                    && final(reader).pos() == old(reader).pos() + 4,
                Err(e) => r == Err::<Option<String>, DecodeError>(e),
            }
        },
{
    if !take_bit(bitflag) {
        return Ok(None);
    }
    let offset = reader.read_i32()?;
    let here = reader.position();
    let target: i128 = base as i128 + offset as i128;
    reader.seek_addr(target)?;
    let text = reader.read_string()?;
    reader.seek(here);
    Ok(Some(text))
}

/// Outcome of an offset-indirected byte-block field with the mask bit set:
/// `size` raw bytes at `base + offset`, or the fault that stops the decode.
/// A negative size cannot address a block and is a bounds fault.
pub open spec fn indirect_dump(s: Seq<u8>, pos: int, base: int, size: int) -> Result<
    Seq<u8>,
    DecodeError,
> {
    if pos + 4 > s.len() {
        Err(DecodeError::OutOfBounds)
    } else {
        let target = indirect_addr(s, pos, base);
        if !(0 <= target <= usize::MAX) || size < 0 {
            Err(DecodeError::OutOfBounds)
        } else if target + size > s.len() {
            Err(DecodeError::OutOfBounds)
        } else {
            Ok(s.subrange(target, target + size))
        }
    }
}

/// A byte-block field behind the mask: when the bit is set, a signed 32-bit
/// relative offset is the only thing consumed from the main cursor, and a
/// block of `size` bytes (the length is known to the record, not to the
/// data) is read at `base + offset`.
pub fn read_bitflag_dump(bitflag: &mut u64, reader: &mut Reader, size: i32, base: i64) -> (r:
    Result<Option<Vec<u8>>, DecodeError>)
    ensures
        *final(bitflag) == mask_rest(*old(bitflag)),
        final(reader).bytes() == old(reader).bytes(),
        if !mask_bit(*old(bitflag)) {
            r is Ok
            && r->Ok_0 is None
            && final(reader).pos() == old(reader).pos()
        } else {
            match indirect_dump(old(reader).bytes(), old(reader).pos(), base as int, size as int) {
                Ok(block) => r is Ok
                    && r->Ok_0 is Some
                    && r->Ok_0->0@ == block
                    && final(reader).pos() == old(reader).pos() + 4,
                Err(e) => r == Err::<Option<Vec<u8>>, DecodeError>(e),
            }
        },
{
    if !take_bit(bitflag) {
        return Ok(None);
    }
    let offset = reader.read_i32()?;
    if size < 0 {
        return Err(DecodeError::OutOfBounds);
    }
    let here = reader.position();
    let target: i128 = base as i128 + offset as i128;
    reader.seek_addr(target)?;
    let block = reader.read_bytes(size as usize)?;
    reader.seek(here);
    Ok(Some(block))
}

} // verus!
