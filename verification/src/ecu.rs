//! One container entry: the ECU record. Its header names the ECU and locates
//! the interface and sub-interface tables; eight block descriptors wire the
//! record to its pools; the diagnostic-service pool and the variant pool are
//! then walked entry by entry, services before variants.

use vstd::prelude::*;

verus! {

use crate::DecodeError;
use crate::opt_str_view;
use crate::container::{CFFHeader, STUB_HEADER_SIZE, sp_data_offset};
use crate::diag::{DiagService, DiagServiceModel};
use crate::iface::{
    ECUInterface, ECUInterfaceModel, ECUInterfaceSubType, ECUInterfaceSubTypeModel,
    sp_ecu_interface, sp_ecu_interface_subtype,
};
use crate::reader::{Reader, le16_at, le32_at, to_signed16, to_signed32};
use crate::variant::{ECUVarient, ECUVarientModel, sp_ecu_varient};
use crate::bitflag::{
    read_bitflag_i16, read_bitflag_i32, read_bitflag_string, mask_with_extension, sign_extend16,
    sflag_i16, sflag_i32, sflag_string, mask_bit,
};

/// Whether a value fits a signed 32-bit field.
pub open spec fn in_i32(v: int) -> bool {
    -0x80000000 <= v < 0x80000000
}

/// Ghost form of one pool locator.
#[verifier::ext_equal]
pub ghost struct BlockModel {
    pub block_offset: int,
    pub entry_count: int,
    pub entry_size: int,
    pub block_size: int,
}

/// A pool locator: the absolute pool offset (the raw stored offset already
/// biased by the ECU's data-section base), the record count, the entry byte
/// size, and the stored total size. Decoded once, then immutable.
#[allow(non_camel_case_types)]
#[derive(Debug, Clone, Copy)]
pub struct block {
    pub block_offset: i32,
    pub entry_count: i32,
    pub entry_size: i32,
    pub block_size: i32,
}

impl View for block {
    type V = BlockModel;

    open spec fn view(&self) -> BlockModel {
        BlockModel {
            block_offset: self.block_offset as int,
            entry_count: self.entry_count as int,
            entry_size: self.entry_size as int,
            block_size: self.block_size as int,
        }
    }
}

/// The decode of one pool locator: four conditional fields in fixed order,
/// the first biased by the data-section base as it is read. A biased offset
/// outside the 32-bit range cannot be stored and is a bounds fault.
pub open spec fn sp_block(s: Seq<u8>, pos: int, mask: u64, offset: int) -> Result<
    (BlockModel, int, u64),
    DecodeError,
> {
    match sflag_i32(s, pos, mask, 0) {
        Err(e) => Err(e),
        Ok((raw, p1, m1)) => {
            if !in_i32(raw + offset) {
                Err(DecodeError::OutOfBounds)
            } else {
                match sflag_i32(s, p1, m1, 0) {
                    Err(e) => Err(e),
                    Ok((entry_count, p2, m2)) => match sflag_i32(s, p2, m2, 0) {
                        Err(e) => Err(e),
                        Ok((entry_size, p3, m3)) => match sflag_i32(s, p3, m3, 0) {
                            Err(e) => Err(e),
                            Ok((block_size, p4, m4)) => Ok(
                                (
                                    BlockModel {
                                        block_offset: raw + offset,
                                        entry_count,
                                        entry_size,
                                        block_size,
                                    },
                                    p4,
                                    m4,
                                ),
                            ),
                        },
                    },
                }
            }
        },
    }
}

impl block {
    /// Decode one pool locator at the cursor. The stored offset is biased by
    /// `offset` (the ECU's data-section base) as it is read, so the locator
    /// carries only resolved absolute values.
    #[verifier::rlimit(100)]
    pub fn new(reader: &mut Reader, bit_flag: &mut u64, offset: i32) -> (r: Result<
        block,
        DecodeError,
    >)
        ensures
            final(reader).bytes() == old(reader).bytes(),
            match sp_block(old(reader).bytes(), old(reader).pos(), *old(bit_flag), offset as int) {
                Ok((b, p, m)) => r is Ok && r->Ok_0@ == b && final(reader).pos() == p
                    && *final(bit_flag) == m,
                Err(e) => r == Err::<block, DecodeError>(e),
            },
            r is Ok && mask_bit(*old(bit_flag)) ==> r->Ok_0.block_offset == to_signed32(
                le32_at(old(reader).bytes(), old(reader).pos()),
            ) + offset,
            r is Ok && !mask_bit(*old(bit_flag)) ==> r->Ok_0.block_offset == offset,
    {
        let raw = read_bitflag_i32(bit_flag, reader, 0)?;
        let biased: i64 = raw as i64 + offset as i64;
        if biased < -0x80000000i64 || biased > 0x7fffffffi64 {
            return Err(DecodeError::OutOfBounds);
        }
        let block_offset = biased as i32;
        let entry_count = read_bitflag_i32(bit_flag, reader, 0)?;
        let entry_size = read_bitflag_i32(bit_flag, reader, 0)?;
        let block_size = read_bitflag_i32(bit_flag, reader, 0)?;
        Ok(block { block_offset, entry_count, entry_size, block_size })
    }
}

/// The bytes of a whole pool: exactly `entry_count * entry_size` bytes from
/// the locator's absolute offset, whatever the stored total size says.
pub open spec fn sp_read_pool(s: Seq<u8>, blk: BlockModel) -> Result<Seq<u8>, DecodeError> {
    if blk.entry_count < 0 || blk.entry_size < 0 || blk.block_offset < 0 {
        Err(DecodeError::OutOfBounds)
    } else if blk.block_offset + blk.entry_count * blk.entry_size > s.len() {
        Err(DecodeError::OutOfBounds)
    } else {
        Ok(
            s.subrange(
                blk.block_offset,
                blk.block_offset + blk.entry_count * blk.entry_size,
            ),
        )
    }
}

/// One diagnostic-service pool entry: a relative offset, a size, an
/// integrity code (carried, not verified) and a configuration word, packed
/// in fourteen bytes. The service's absolute address is the entry offset
/// biased by the pool's own absolute offset.
pub open spec fn sp_diag_entry_at(pool: Seq<u8>, i: int, block_offset: int) -> Result<
    DiagServiceModel,
    DecodeError,
> {
    let p = 14 * i;
    if 0 <= p && p + 14 <= pool.len() {
        Ok(
            DiagServiceModel {
                base_addr: to_signed32(le32_at(pool, p)) + block_offset,
                index: i,
                size: to_signed32(le32_at(pool, p + 4)),
                crc: to_signed32(le32_at(pool, p + 8)),
                config: to_signed16(le16_at(pool, p + 12)),
            },
        )
    } else {
        Err(DecodeError::OutOfBounds)
    }
}

/// The first `count` service locators of a pool, in pool order.
pub open spec fn sp_diag_entries(pool: Seq<u8>, count: int, block_offset: int) -> Result<
    Seq<DiagServiceModel>,
    DecodeError,
>
    decreases count,
{
    if count <= 0 {
        Ok(Seq::empty())
    } else {
        match sp_diag_entries(pool, count - 1, block_offset) {
            Err(e) => Err(e),
            Ok(prefix) => match sp_diag_entry_at(pool, count - 1, block_offset) {
                Err(e) => Err(e),
                Ok(d) => Ok(prefix.push(d)),
            },
        }
    }
}

/// A fault at one pool entry is the fault of every longer prefix.
proof fn lemma_sp_diag_entries_err(pool: Seq<u8>, off: int, i: int, c: int, e: DecodeError)
    requires
        0 <= i < c,
        sp_diag_entries(pool, i, off) is Ok,
        sp_diag_entry_at(pool, i, off) == Err::<DiagServiceModel, DecodeError>(e),
    ensures
        sp_diag_entries(pool, c, off) == Err::<Seq<DiagServiceModel>, DecodeError>(e),
    decreases c,
{
    if c > i + 1 {
        lemma_sp_diag_entries_err(pool, off, i, c - 1, e);
    }
}

/// The whole diagnostic-service pool of a locator: read wholesale, then
/// walked entry by entry.
pub open spec fn sp_diag_pool_of(s: Seq<u8>, blk: BlockModel) -> Result<
    Seq<DiagServiceModel>,
    DecodeError,
> {
    match sp_read_pool(s, blk) {
        Err(e) => Err(e),
        Ok(pool) => sp_diag_entries(pool, blk.entry_count, blk.block_offset),
    }
}

/// One variant pool entry: an offset, a size and an attribute word at stride
/// `entry_size`; the variant itself then decodes from its own byte range in
/// the source.
pub open spec fn sp_varient_entry_at(
    s: Seq<u8>,
    pool: Seq<u8>,
    i: int,
    entry_size: int,
    block_offset: int,
) -> Result<ECUVarientModel, DecodeError> {
    let p = entry_size * i;
    if !(0 <= p) {
        Err(DecodeError::OutOfBounds)
    } else if p + 10 > pool.len() {
        Err(DecodeError::OutOfBounds)
    } else {
        sp_ecu_varient(
            s,
            to_signed32(le32_at(pool, p)) + block_offset,
            to_signed32(le32_at(pool, p + 4)),
        )
    }
}

/// The first `count` variants of a pool, in pool order.
pub open spec fn sp_varient_entries(
    s: Seq<u8>,
    pool: Seq<u8>,
    count: int,
    entry_size: int,
    block_offset: int,
) -> Result<Seq<ECUVarientModel>, DecodeError>
    decreases count,
{
    if count <= 0 {
        Ok(Seq::empty())
    } else {
        match sp_varient_entries(s, pool, count - 1, entry_size, block_offset) {
            Err(e) => Err(e),
            Ok(prefix) => match sp_varient_entry_at(s, pool, count - 1, entry_size, block_offset) {
                Err(e) => Err(e),
                Ok(v) => Ok(prefix.push(v)),
            },
        }
    }
}

/// A fault at one variant entry is the fault of every longer prefix.
proof fn lemma_sp_varient_entries_err(
    s: Seq<u8>,
    pool: Seq<u8>,
    es: int,
    off: int,
    i: int,
    c: int,
    e: DecodeError,
)
    requires
        0 <= i < c,
        sp_varient_entries(s, pool, i, es, off) is Ok,
        sp_varient_entry_at(s, pool, i, es, off) == Err::<ECUVarientModel, DecodeError>(e),
    ensures
        sp_varient_entries(s, pool, c, es, off) == Err::<Seq<ECUVarientModel>, DecodeError>(e),
    decreases c,
{
    if c > i + 1 {
        lemma_sp_varient_entries_err(s, pool, es, off, i, c - 1, e);
    }
}

/// The whole variant pool of a locator.
pub open spec fn sp_varient_pool_of(s: Seq<u8>, blk: BlockModel) -> Result<
    Seq<ECUVarientModel>,
    DecodeError,
> {
    match sp_read_pool(s, blk) {
        Err(e) => Err(e),
        Ok(pool) => sp_varient_entries(s, pool, blk.entry_count, blk.entry_size, blk.block_offset),
    }
}

/// One interface-table entry: the table slot holds a relative pointer, and
/// the interface decodes at `table + pointer`.
pub open spec fn sp_iface_entry(s: Seq<u8>, table: int, idx: int) -> Result<
    ECUInterfaceModel,
    DecodeError,
> {
    let slot = table + 4 * idx;
    if !(0 <= slot <= usize::MAX) {
        Err(DecodeError::OutOfBounds)
    } else if slot + 4 > s.len() {
        Err(DecodeError::OutOfBounds)
    } else {
        let target = table + to_signed32(le32_at(s, slot));
        if !(i64::MIN <= target <= i64::MAX) {
            Err(DecodeError::OutOfBounds)
        } else {
            sp_ecu_interface(s, target)
        }
    }
}

/// The first `count` interfaces of the table, in table order.
pub open spec fn sp_iface_table(s: Seq<u8>, table: int, count: int) -> Result<
    Seq<ECUInterfaceModel>,
    DecodeError,
>
    decreases count,
{
    if count <= 0 {
        Ok(Seq::empty())
    } else {
        match sp_iface_table(s, table, count - 1) {
            Err(e) => Err(e),
            Ok(prefix) => match sp_iface_entry(s, table, count - 1) {
                Err(e) => Err(e),
                Ok(m) => Ok(prefix.push(m)),
            },
        }
    }
}

/// A fault at one table entry is the fault of every longer prefix.
proof fn lemma_sp_iface_table_err(s: Seq<u8>, table: int, i: int, c: int, e: DecodeError)
    requires
        0 <= i < c,
        sp_iface_table(s, table, i) is Ok,
        sp_iface_entry(s, table, i) == Err::<ECUInterfaceModel, DecodeError>(e),
    ensures
        sp_iface_table(s, table, c) == Err::<Seq<ECUInterfaceModel>, DecodeError>(e),
    decreases c,
{
    if c > i + 1 {
        lemma_sp_iface_table_err(s, table, i, c - 1, e);
    }
}

/// One sub-interface-table entry, carrying its ordinal index.
pub open spec fn sp_subiface_entry(s: Seq<u8>, table: int, idx: int) -> Result<
    ECUInterfaceSubTypeModel,
    DecodeError,
> {
    let slot = table + 4 * idx;
    if !(0 <= slot <= usize::MAX) {
        Err(DecodeError::OutOfBounds)
    } else if slot + 4 > s.len() {
        Err(DecodeError::OutOfBounds)
    } else {
        let target = table + to_signed32(le32_at(s, slot));
        if !(i64::MIN <= target <= i64::MAX) {
            Err(DecodeError::OutOfBounds)
        } else {
            match sp_ecu_interface_subtype(s, target, idx) {
                Err(e) => Err(e),
                Ok((m, _p)) => Ok(m),
            }
        }
    }
}

/// The first `count` sub-interfaces of the table, in table order.
pub open spec fn sp_subiface_table(s: Seq<u8>, table: int, count: int) -> Result<
    Seq<ECUInterfaceSubTypeModel>,
    DecodeError,
>
    decreases count,
{
    if count <= 0 {
        Ok(Seq::empty())
    } else {
        match sp_subiface_table(s, table, count - 1) {
            Err(e) => Err(e),
            Ok(prefix) => match sp_subiface_entry(s, table, count - 1) {
                Err(e) => Err(e),
                Ok(m) => Ok(prefix.push(m)),
            },
        }
    }
}

/// A fault at one table entry is the fault of every longer prefix.
proof fn lemma_sp_subiface_table_err(s: Seq<u8>, table: int, i: int, c: int, e: DecodeError)
    requires
        0 <= i < c,
        sp_subiface_table(s, table, i) is Ok,
        sp_subiface_entry(s, table, i) == Err::<ECUInterfaceSubTypeModel, DecodeError>(e),
    ensures
        sp_subiface_table(s, table, c) == Err::<Seq<ECUInterfaceSubTypeModel>, DecodeError>(e),
    decreases c,
{
    if c > i + 1 {
        lemma_sp_subiface_table_err(s, table, i, c - 1, e);
    }
}

/// Ghost form of one decoded ECU.
#[verifier::ext_equal]
pub ghost struct EcuModel {
    pub name: Seq<char>,
    pub ecuname_ctf: int,
    pub ecudesc_ctf: int,
    pub xml_version: Seq<char>,
    pub interface_block_count: int,
    pub interface_table_offset: int,
    pub sub_interface_count: int,
    pub sub_interface_offset: int,
    pub ecu_class_name: Seq<char>,
    pub unk_str7: Seq<char>,
    pub unk_str8: Seq<char>,
    pub ignition_required: int,
    pub unk2: int,
    pub unk_block_count: int,
    pub unk_block_offset: int,
    pub ecu_sgml_src: int,
    pub unk6_relative_offset: int,
    pub ecuvarient: BlockModel,
    pub diagjob: BlockModel,
    pub dtc: BlockModel,
    pub env: BlockModel,
    pub vcdomain: BlockModel,
    pub presentations: BlockModel,
    pub info: BlockModel,
    pub unk_block: BlockModel,
    pub unk39: int,
    pub ecu_ifaces: Seq<ECUInterfaceModel>,
    pub ecu_ifaces_subtype: Seq<ECUInterfaceSubTypeModel>,
    pub ecu_varient: Seq<ECUVarientModel>,
    pub diag_services: Seq<DiagServiceModel>,
    pub base_addr: int,
}

/// One container entry: identity, table locators, flags, the eight pool
/// locators, the eagerly decoded interface tables, and the service and
/// variant lists filled from their pools (services before variants, because
/// variant children may refer to services by pool position).
#[derive(Debug)]
pub struct ECU {
    pub name: String,
    pub ecuname_ctf: i32,
    pub ecudesc_ctf: i32,
    pub xml_version: String,
    pub interface_block_count: i32,
    pub interface_table_offset: i32,
    pub sub_interface_count: i32,
    pub sub_interface_offset: i32,
    pub ecu_class_name: String,
    pub unk_str7: String,
    pub unk_str8: String,
    pub ignition_required: i32,
    pub unk2: i32,
    pub unk_block_count: i32,
    pub unk_block_offset: i32,
    pub ecu_sgml_src: i32,
    pub unk6_relative_offset: i32,
    pub ecuvarient: block,
    pub diagjob: block,
    pub dtc: block,
    pub env: block,
    pub vcdomain: block,
    pub presentations: block,
    pub info: block,
    pub unk_block: block,
    pub unk39: i32,
    pub ecu_ifaces: Vec<ECUInterface>,
    pub ecu_ifaces_subtype: Vec<ECUInterfaceSubType>,
    pub ecu_varient: Vec<ECUVarient>,
    pub diag_services: Vec<DiagService>,
    pub base_addr: i64,
}

impl View for ECU {
    type V = EcuModel;

    open spec fn view(&self) -> EcuModel {
        EcuModel {
            name: self.name@,
            ecuname_ctf: self.ecuname_ctf as int,
            ecudesc_ctf: self.ecudesc_ctf as int,
            xml_version: self.xml_version@,
            interface_block_count: self.interface_block_count as int,
            interface_table_offset: self.interface_table_offset as int,
            sub_interface_count: self.sub_interface_count as int,
            sub_interface_offset: self.sub_interface_offset as int,
            ecu_class_name: self.ecu_class_name@,
            unk_str7: self.unk_str7@,
            unk_str8: self.unk_str8@,
            ignition_required: self.ignition_required as int,
            unk2: self.unk2 as int,
            unk_block_count: self.unk_block_count as int,
            unk_block_offset: self.unk_block_offset as int,
            ecu_sgml_src: self.ecu_sgml_src as int,
            unk6_relative_offset: self.unk6_relative_offset as int,
            ecuvarient: self.ecuvarient@,
            diagjob: self.diagjob@,
            dtc: self.dtc@,
            env: self.env@,
            vcdomain: self.vcdomain@,
            presentations: self.presentations@,
            info: self.info@,
            unk_block: self.unk_block@,
            unk39: self.unk39 as int,
            ecu_ifaces: Seq::new(self.ecu_ifaces@.len(), |i: int| self.ecu_ifaces@[i]@),
            ecu_ifaces_subtype: Seq::new(
                self.ecu_ifaces_subtype@.len(),
                |i: int| self.ecu_ifaces_subtype@[i]@,
            ),
            ecu_varient: Seq::new(self.ecu_varient@.len(), |i: int| self.ecu_varient@[i]@),
            diag_services: Seq::new(self.diag_services@.len(), |i: int| self.diag_services@[i]@),
            base_addr: self.base_addr as int,
        }
    }
}

/// The ECU's 48-bit mask seed: a 32-bit low half, a signed 16-bit extension
/// above it, then four skipped bytes.
pub open spec fn sp_ecu_mask(s: Seq<u8>, pos: int) -> Result<(u64, int), DecodeError> {
    if !(0 <= pos) {
        Err(DecodeError::OutOfBounds)
    } else if pos + 10 > s.len() {
        Err(DecodeError::OutOfBounds)
    } else {
        Ok(
            (
                (le32_at(s, pos) + 0x100000000 * sign_extend16(le16_at(s, pos + 4))) as u64,
                pos + 10,
            ),
        )
    }
}

/// The ECU's identity strings and table locators.
#[verifier::ext_equal]
pub ghost struct EcuStrings {
    pub name: Option<Seq<char>>,
    pub ecuname_ctf: int,
    pub ecudesc_ctf: int,
    pub xml_version: Option<Seq<char>>,
    pub interface_block_count: int,
    pub interface_table_offset: int,
    pub sub_interface_count: int,
    pub sub_interface_offset: int,
    pub ecu_class_name: Option<Seq<char>>,
    pub unk_str7: Option<Seq<char>>,
    pub unk_str8: Option<Seq<char>>,
}

pub open spec fn sp_ecu_strings(s: Seq<u8>, pos: int, mask: u64, base: int) -> Result<
    (EcuStrings, int, u64),
    DecodeError,
> {
    match sflag_string(s, pos, mask, base) {
        Err(e) => Err(e),
        Ok((name, p1, m1)) => match sflag_i32(s, p1, m1, -1) {
            Err(e) => Err(e),
            Ok((ecuname_ctf, p2, m2)) => match sflag_i32(s, p2, m2, -1) {
                Err(e) => Err(e),
                Ok((ecudesc_ctf, p3, m3)) => match sflag_string(s, p3, m3, base) {
                    Err(e) => Err(e),
                    Ok((xml_version, p4, m4)) => match sflag_i32(s, p4, m4, 0) {
                        Err(e) => Err(e),
                        Ok((ibc, p5, m5)) => match sflag_i32(s, p5, m5, 0) {
                            Err(e) => Err(e),
                            Ok((ito, p6, m6)) => match sflag_i32(s, p6, m6, 0) {
                                Err(e) => Err(e),
                                Ok((sic, p7, m7)) => match sflag_i32(s, p7, m7, 0) {
                                    Err(e) => Err(e),
                                    Ok((sio, p8, m8)) => match sflag_string(s, p8, m8, base) {
                                        Err(e) => Err(e),
                                        Ok((class_name, p9, m9)) => match sflag_string(
                                            s,
                                            p9,
                                            m9,
                                            base,
                                        ) {
                                            Err(e) => Err(e),
                                            Ok((unk7, p10, m10)) => match sflag_string(
                                                s,
                                                p10,
                                                m10,
                                                base,
                                            ) {
                                                Err(e) => Err(e),
                                                Ok((unk8, p11, m11)) => Ok(
                                                    (
                                                        EcuStrings {
                                                            name,
                                                            ecuname_ctf,
                                                            ecudesc_ctf,
                                                            xml_version,
                                                            interface_block_count: ibc,
                                                            interface_table_offset: ito,
                                                            sub_interface_count: sic,
                                                            sub_interface_offset: sio,
                                                            ecu_class_name: class_name,
                                                            unk_str7: unk7,
                                                            unk_str8: unk8,
                                                        },
                                                        p11,
                                                        m11,
                                                    ),
                                                ),
                                            },
                                        },
                                    },
                                },
                            },
                        },
                    },
                },
            },
        },
    }
}

/// The ECU's flag and locator scalars after the strings.
#[verifier::ext_equal]
pub ghost struct EcuScalars {
    pub ignition_required: int,
    pub unk2: int,
    pub unk_block_count: int,
    pub unk_block_offset: int,
    pub ecu_sgml_src: int,
    pub unk6_relative_offset: int,
}

pub open spec fn sp_ecu_scalars(s: Seq<u8>, pos: int, mask: u64) -> Result<
    (EcuScalars, int, u64),
    DecodeError,
> {
    match sflag_i16(s, pos, mask, 0) {
        Err(e) => Err(e),
        Ok((ign, p1, m1)) => match sflag_i16(s, p1, m1, 0) {
            Err(e) => Err(e),
            Ok((unk2, p2, m2)) => match sflag_i16(s, p2, m2, 0) {
                Err(e) => Err(e),
                Ok((ubc, p3, m3)) => match sflag_i32(s, p3, m3, 0) {
                    Err(e) => Err(e),
                    Ok((ubo, p4, m4)) => match sflag_i16(s, p4, m4, 0) {
                        Err(e) => Err(e),
                        Ok((sgml, p5, m5)) => match sflag_i32(s, p5, m5, 0) {
                            Err(e) => Err(e),
                            Ok((u6ro, p6, m6)) => Ok(
                                (
                                    EcuScalars {
                                        ignition_required: ign,
                                        unk2,
                                        unk_block_count: ubc,
                                        unk_block_offset: ubo,
                                        ecu_sgml_src: sgml,
                                        unk6_relative_offset: u6ro,
                                    },
                                    p6,
                                    m6,
                                ),
                            ),
                        },
                    },
                },
            },
        },
    }
}

/// The eight pool locators, in wire order.
#[verifier::ext_equal]
pub ghost struct EcuBlocks {
    pub ecuvarient: BlockModel,
    pub diagjob: BlockModel,
    pub dtc: BlockModel,
    pub vcdomain: BlockModel,
    pub env: BlockModel,
    pub presentations: BlockModel,
    pub info: BlockModel,
    pub unk_block: BlockModel,
}

pub open spec fn sp_ecu_blocks(s: Seq<u8>, pos: int, mask: u64, offset: int) -> Result<
    (EcuBlocks, int, u64),
    DecodeError,
> {
    match sp_block(s, pos, mask, offset) {
        Err(e) => Err(e),
        Ok((ecuvarient, p1, m1)) => match sp_block(s, p1, m1, offset) {
            Err(e) => Err(e),
            Ok((diagjob, p2, m2)) => match sp_block(s, p2, m2, offset) {
                Err(e) => Err(e),
                Ok((dtc, p3, m3)) => match sp_block(s, p3, m3, offset) {
                    Err(e) => Err(e),
                    Ok((vcdomain, p4, m4)) => match sp_block(s, p4, m4, offset) {
                        Err(e) => Err(e),
                        Ok((env, p5, m5)) => match sp_block(s, p5, m5, offset) {
                            Err(e) => Err(e),
                            Ok((presentations, p6, m6)) => match sp_block(s, p6, m6, offset) {
                                Err(e) => Err(e),
                                Ok((info, p7, m7)) => match sp_block(s, p7, m7, offset) {
                                    Err(e) => Err(e),
                                    Ok((unk_block, p8, m8)) => Ok(
                                        (
                                            EcuBlocks {
                                                ecuvarient,
                                                diagjob,
                                                dtc,
                                                vcdomain,
                                                env,
                                                presentations,
                                                info,
                                                unk_block,
                                            },
                                            p8,
                                            m8,
                                        ),
                                    ),
                                },
                            },
                        },
                    },
                },
            },
        },
    }
}

/// The whole decode of one ECU from the cursor: mask seed, identity strings,
/// data-section base, flag scalars, the eight pool locators, both interface
/// tables, the required-name checks, then the service and variant pools.
pub open spec fn sp_ecu(
    s: Seq<u8>,
    pos: int,
    base: int,
    size_of_str_pool: int,
    cff_header_size: int,
) -> Result<EcuModel, DecodeError> {
    match sp_ecu_mask(s, pos) {
        Err(e) => Err(e),
        Ok((mask0, p1)) => match sp_ecu_strings(s, p1, mask0, base) {
            Err(e) => Err(e),
            Ok((st, p2, m2)) => {
                let doff = sp_data_offset(size_of_str_pool, cff_header_size);
                if !in_i32(doff) {
                    Err(DecodeError::OutOfBounds)
                } else {
                    match sp_ecu_scalars(s, p2, m2) {
                        Err(e) => Err(e),
                        Ok((sc, p3, m3)) => match sp_ecu_blocks(s, p3, m3, doff) {
                            Err(e) => Err(e),
                            Ok((bl, p4, m4)) => match sflag_i32(s, p4, m4, 0) {
                                Err(e) => Err(e),
                                Ok((unk39, _p5, _m5)) => match sp_iface_table(
                                    s,
                                    base + st.interface_table_offset,
                                    st.interface_block_count,
                                ) {
                                    Err(e) => Err(e),
                                    Ok(ifaces) => match sp_subiface_table(
                                        s,
                                        base + st.sub_interface_offset,
                                        st.sub_interface_count,
                                    ) {
                                        Err(e) => Err(e),
                                        Ok(subs) => {
                                            if st.name is None || st.xml_version is None
                                                || st.ecu_class_name is None {
                                                Err(DecodeError::SchemaViolation)
                                            } else {
                                                match sp_diag_pool_of(s, bl.diagjob) {
                                                    Err(e) => Err(e),
                                                    Ok(dlist) => match sp_varient_pool_of(
                                                        s,
                                                        bl.ecuvarient,
                                                    ) {
                                                        Err(e) => Err(e),
                                                        Ok(vlist) => Ok(
                                                            EcuModel {
                                                                name: st.name->0,
                                                                ecuname_ctf: st.ecuname_ctf,
                                                                ecudesc_ctf: st.ecudesc_ctf,
                                                                xml_version: st.xml_version->0,
                                                                interface_block_count:
                                                                    st.interface_block_count,
                                                                interface_table_offset:
                                                                    st.interface_table_offset,
                                                                sub_interface_count:
                                                                    st.sub_interface_count,
                                                                sub_interface_offset:
                                                                    st.sub_interface_offset,
                                                                ecu_class_name:
                                                                    st.ecu_class_name->0,
                                                                unk_str7: match st.unk_str7 {
                                                                    Some(t) => t,
                                                                    None => "N/A"@,
                                                                },
                                                                unk_str8: match st.unk_str8 {
                                                                    Some(t) => t,
                                                                    None => "Unknown"@,
                                                                },
                                                                ignition_required:
                                                                    sc.ignition_required,
                                                                unk2: sc.unk2,
                                                                unk_block_count:
                                                                    sc.unk_block_count,
                                                                unk_block_offset:
                                                                    sc.unk_block_offset,
                                                                ecu_sgml_src: sc.ecu_sgml_src,
                                                                unk6_relative_offset:
                                                                    sc.unk6_relative_offset,
                                                                ecuvarient: bl.ecuvarient,
                                                                diagjob: bl.diagjob,
                                                                dtc: bl.dtc,
                                                                env: bl.env,
                                                                vcdomain: bl.vcdomain,
                                                                presentations: bl.presentations,
                                                                info: bl.info,
                                                                unk_block: bl.unk_block,
                                                                unk39,
                                                                ecu_ifaces: ifaces,
                                                                ecu_ifaces_subtype: subs,
                                                                ecu_varient: vlist,
                                                                diag_services: dlist,
                                                                base_addr: base,
                                                            },
                                                        ),
                                                    },
                                                }
                                            }
                                        },
                                    },
                                },
                            },
                        },
                    }
                }
            },
        },
    }
}

/// Decoding is a function of the byte source and its anchors alone: equal
/// sources decode to structurally equal results, with no hidden state.
pub proof fn lemma_decode_deterministic(
    s1: Seq<u8>,
    s2: Seq<u8>,
    pos: int,
    base: int,
    size_of_str_pool: int,
    cff_header_size: int,
)
    requires
        s1 == s2,
    ensures
        sp_ecu(s1, pos, base, size_of_str_pool, cff_header_size) == sp_ecu(
            s2,
            pos,
            base,
            size_of_str_pool,
            cff_header_size,
        ),
{
}

/// Executable carrier for the ECU's identity strings and table locators.
struct EcuStringsFields {
    name: Option<String>,
    ecuname_ctf: i32,
    ecudesc_ctf: i32,
    xml_version: Option<String>,
    interface_block_count: i32,
    interface_table_offset: i32,
    sub_interface_count: i32,
    sub_interface_offset: i32,
    ecu_class_name: Option<String>,
    unk_str7: Option<String>,
    unk_str8: Option<String>,
}

impl View for EcuStringsFields {
    type V = EcuStrings;

    closed spec fn view(&self) -> EcuStrings {
        EcuStrings {
            name: opt_str_view(self.name),
            ecuname_ctf: self.ecuname_ctf as int,
            ecudesc_ctf: self.ecudesc_ctf as int,
            xml_version: opt_str_view(self.xml_version),
            interface_block_count: self.interface_block_count as int,
            interface_table_offset: self.interface_table_offset as int,
            sub_interface_count: self.sub_interface_count as int,
            sub_interface_offset: self.sub_interface_offset as int,
            ecu_class_name: opt_str_view(self.ecu_class_name),
            unk_str7: opt_str_view(self.unk_str7),
            unk_str8: opt_str_view(self.unk_str8),
        }
    }
}

impl ECU {
    /// Read the 48-bit mask seed and skip the following word.
    fn decode_mask(reader: &mut Reader) -> (r: Result<u64, DecodeError>)
        ensures
            final(reader).bytes() == old(reader).bytes(),
            match sp_ecu_mask(old(reader).bytes(), old(reader).pos()) {
                Ok((m, p)) => r is Ok && r->Ok_0 == m && final(reader).pos() == p,
                Err(e) => r == Err::<u64, DecodeError>(e),
            },
    {
        proof {
            reader.lemma_pos_range();
        }
        let low = reader.read_u32()?;
        let ext = reader.read_u16()?;
        let _skip = reader.read_i32()?;
        let m = mask_with_extension(low, ext);
        proof {
            let s = old(reader).bytes();
            let p = old(reader).pos();
            assert(m == le32_at(s, p) + 0x100000000 * sign_extend16(le16_at(s, p + 4)));
            assert((le32_at(s, p) + 0x100000000 * sign_extend16(le16_at(s, p + 4))) as u64 == m);
        }
        Ok(m)
    }

    /// Decode the identity strings and table locators.
    #[verifier::rlimit(100)]
    fn decode_strings(reader: &mut Reader, bitflags: &mut u64, base_addr: i64) -> (r: Result<
        EcuStringsFields,
        DecodeError,
    >)
        ensures
            final(reader).bytes() == old(reader).bytes(),
            match sp_ecu_strings(
                old(reader).bytes(),
                old(reader).pos(),
                *old(bitflags),
                base_addr as int,
            ) {
                Ok((st, p, m)) => r is Ok && r->Ok_0@ == st && final(reader).pos() == p
                    && *final(bitflags) == m,
                Err(e) => r == Err::<EcuStringsFields, DecodeError>(e),
            },
    {
        let name = read_bitflag_string(bitflags, reader, base_addr)?;
        let ecuname_ctf = read_bitflag_i32(bitflags, reader, -1)?;
        let ecudesc_ctf = read_bitflag_i32(bitflags, reader, -1)?;
        let xml_version = read_bitflag_string(bitflags, reader, base_addr)?;
        let interface_block_count = read_bitflag_i32(bitflags, reader, 0)?;
        let interface_table_offset = read_bitflag_i32(bitflags, reader, 0)?;
        let sub_interface_count = read_bitflag_i32(bitflags, reader, 0)?;
        let sub_interface_offset = read_bitflag_i32(bitflags, reader, 0)?;
        let ecu_class_name = read_bitflag_string(bitflags, reader, base_addr)?;
        let unk_str7 = read_bitflag_string(bitflags, reader, base_addr)?;
        let unk_str8 = read_bitflag_string(bitflags, reader, base_addr)?;

        Ok(
            EcuStringsFields {
                name,
                ecuname_ctf,
                ecudesc_ctf,
                xml_version,
                interface_block_count,
                interface_table_offset,
                sub_interface_count,
                sub_interface_offset,
                ecu_class_name,
                unk_str7,
                unk_str8,
            },
        )
    }

    /// Decode the flag and locator scalars.
    #[verifier::rlimit(100)]
    fn decode_scalars(reader: &mut Reader, bitflags: &mut u64) -> (r: Result<
        (i16, i16, i16, i32, i16, i32),
        DecodeError,
    >)
        ensures
            final(reader).bytes() == old(reader).bytes(),
            match sp_ecu_scalars(old(reader).bytes(), old(reader).pos(), *old(bitflags)) {
                Ok((sc, p, m)) => r is Ok && r->Ok_0.0 == sc.ignition_required && r->Ok_0.1
                    == sc.unk2 && r->Ok_0.2 == sc.unk_block_count && r->Ok_0.3
                    == sc.unk_block_offset && r->Ok_0.4 == sc.ecu_sgml_src && r->Ok_0.5
                    == sc.unk6_relative_offset && final(reader).pos() == p
                    && *final(bitflags) == m,
                Err(e) => r is Err && r->Err_0 == e,
            },
    {
        let ignition_required = read_bitflag_i16(bitflags, reader, 0)?;
        let unk2 = read_bitflag_i16(bitflags, reader, 0)?;
        let unk_block_count = read_bitflag_i16(bitflags, reader, 0)?;
        let unk_block_offset = read_bitflag_i32(bitflags, reader, 0)?;
        let ecu_sgml_src = read_bitflag_i16(bitflags, reader, 0)?;
        let unk6_relative_offset = read_bitflag_i32(bitflags, reader, 0)?;
        Ok(
            (
                ignition_required,
                unk2,
                unk_block_count,
                unk_block_offset,
                ecu_sgml_src,
                unk6_relative_offset,
            ),
        )
    }

    /// Decode the eight pool locators, in wire order.
    #[verifier::rlimit(100)]
    fn decode_blocks(reader: &mut Reader, bitflags: &mut u64, offset: i32) -> (r: Result<
        (block, block, block, block, block, block, block, block),
        DecodeError,
    >)
        ensures
            final(reader).bytes() == old(reader).bytes(),
            match sp_ecu_blocks(
                old(reader).bytes(),
                old(reader).pos(),
                *old(bitflags),
                offset as int,
            ) {
                Ok((bl, p, m)) => r is Ok && r->Ok_0.0@ == bl.ecuvarient && r->Ok_0.1@
                    == bl.diagjob && r->Ok_0.2@ == bl.dtc && r->Ok_0.3@ == bl.vcdomain
                    && r->Ok_0.4@ == bl.env && r->Ok_0.5@ == bl.presentations && r->Ok_0.6@
                    == bl.info && r->Ok_0.7@ == bl.unk_block && final(reader).pos() == p
                    && *final(bitflags) == m,
                Err(e) => r is Err && r->Err_0 == e,
            },
    {
        let ecuvarient_block = block::new(reader, bitflags, offset)?;
        let diagjob_block = block::new(reader, bitflags, offset)?;
        let dtc_block = block::new(reader, bitflags, offset)?;
        let vc_domain_block = block::new(reader, bitflags, offset)?;
        let env_block = block::new(reader, bitflags, offset)?;
        let pres_block = block::new(reader, bitflags, offset)?;
        let info_block = block::new(reader, bitflags, offset)?;
        let unk_block = block::new(reader, bitflags, offset)?;
        Ok(
            (
                ecuvarient_block,
                diagjob_block,
                dtc_block,
                vc_domain_block,
                env_block,
                pres_block,
                info_block,
                unk_block,
            ),
        )
    }

    /// Decode one interface-table entry.
    fn decode_iface_entry(reader: &mut Reader, base: i64, toff: i32, idx: i32) -> (r: Result<
        ECUInterface,
        DecodeError,
    >)
        requires
            0 <= idx,
        ensures
            final(reader).bytes() == old(reader).bytes(),
            match sp_iface_entry(old(reader).bytes(), base + toff, idx as int) {
                Ok(m) => r is Ok && r->Ok_0@ == m,
                Err(e) => r == Err::<ECUInterface, DecodeError>(e),
            },
    {
        let table: i128 = base as i128 + toff as i128;
        let slot: i128 = table + 4 * (idx as i128);
        reader.seek_addr(slot)?;
        let boff = reader.read_i32()?;
        let target: i128 = table + boff as i128;
        if target < i64::MIN as i128 || target > i64::MAX as i128 {
            return Err(DecodeError::OutOfBounds);
        }
        ECUInterface::new(reader, target as i64)
    }

    /// Decode the interface table.
    fn decode_iface_table(reader: &mut Reader, base: i64, toff: i32, count: i32) -> (r: Result<
        Vec<ECUInterface>,
        DecodeError,
    >)
        ensures
            final(reader).bytes() == old(reader).bytes(),
            match sp_iface_table(old(reader).bytes(), base + toff, count as int) {
                Ok(t) => r is Ok && t.len() == r->Ok_0@.len() && (forall|k: int|
                    0 <= k < t.len() ==> t[k] == r->Ok_0@[k]@),
                Err(e) => r == Err::<Vec<ECUInterface>, DecodeError>(e),
            },
    {
        let ghost s = reader.bytes();
        let ghost table = base + toff;
        let mut out: Vec<ECUInterface> = Vec::new();
        let mut i: i32 = 0;
        while i < count
            invariant
                reader.bytes() == s,
                s == old(reader).bytes(),
                table == base + toff,
                0 <= i,
                count >= 0 ==> i <= count,
                count < 0 ==> i == 0,
                out@.len() == i,
                sp_iface_table(s, table, i as int) is Ok,
                sp_iface_table(s, table, i as int)->Ok_0.len() == i,
                forall|k: int|
                    0 <= k < i ==> sp_iface_table(s, table, i as int)->Ok_0[k] == out@[k]@,
            decreases count - i,
        {
            match ECU::decode_iface_entry(reader, base, toff, i) {
                Ok(iface) => {
                    out.push(iface);
                },
                Err(e) => {
                    proof {
                        lemma_sp_iface_table_err(s, table, i as int, count as int, e);
                    }
                    return Err(e);
                },
            }
            i = i + 1;
        }
        Ok(out)
    }

    /// Decode one sub-interface-table entry.
    fn decode_subiface_entry(reader: &mut Reader, base: i64, toff: i32, idx: i32) -> (r: Result<
        ECUInterfaceSubType,
        DecodeError,
    >)
        requires
            0 <= idx,
        ensures
            final(reader).bytes() == old(reader).bytes(),
            match sp_subiface_entry(old(reader).bytes(), base + toff, idx as int) {
                Ok(m) => r is Ok && r->Ok_0@ == m,
                Err(e) => r == Err::<ECUInterfaceSubType, DecodeError>(e),
            },
    {
        let table: i128 = base as i128 + toff as i128;
        let slot: i128 = table + 4 * (idx as i128);
        reader.seek_addr(slot)?;
        let boff = reader.read_i32()?;
        let target: i128 = table + boff as i128;
        if target < i64::MIN as i128 || target > i64::MAX as i128 {
            return Err(DecodeError::OutOfBounds);
        }
        ECUInterfaceSubType::new(reader, target as i64, idx)
    }

    /// Decode the sub-interface table.
    fn decode_subiface_table(reader: &mut Reader, base: i64, toff: i32, count: i32) -> (r: Result<
        Vec<ECUInterfaceSubType>,
        DecodeError,
    >)
        ensures
            final(reader).bytes() == old(reader).bytes(),
            match sp_subiface_table(old(reader).bytes(), base + toff, count as int) {
                Ok(t) => r is Ok && t.len() == r->Ok_0@.len() && (forall|k: int|
                    0 <= k < t.len() ==> t[k] == r->Ok_0@[k]@),
                Err(e) => r == Err::<Vec<ECUInterfaceSubType>, DecodeError>(e),
            },
    {
        let ghost s = reader.bytes();
        let ghost table = base + toff;
        let mut out: Vec<ECUInterfaceSubType> = Vec::new();
        let mut i: i32 = 0;
        while i < count
            invariant
                reader.bytes() == s,
                s == old(reader).bytes(),
                table == base + toff,
                0 <= i,
                count >= 0 ==> i <= count,
                count < 0 ==> i == 0,
                out@.len() == i,
                sp_subiface_table(s, table, i as int) is Ok,
                sp_subiface_table(s, table, i as int)->Ok_0.len() == i,
                forall|k: int|
                    0 <= k < i ==> sp_subiface_table(s, table, i as int)->Ok_0[k] == out@[k]@,
            decreases count - i,
        {
            match ECU::decode_subiface_entry(reader, base, toff, i) {
                Ok(sub) => {
                    out.push(sub);
                },
                Err(e) => {
                    proof {
                        lemma_sp_subiface_table_err(s, table, i as int, count as int, e);
                    }
                    return Err(e);
                },
            }
            i = i + 1;
        }
        Ok(out)
    }

    /// Read a whole pool: exactly `entry_count * entry_size` bytes from the
    /// locator's absolute offset, whatever its stored total size says.
    pub fn read_ecu_pool(reader: &mut Reader, blk: &block) -> (r: Result<Vec<u8>, DecodeError>)
        ensures
            final(reader).bytes() == old(reader).bytes(),
            match sp_read_pool(old(reader).bytes(), blk@) {
                Ok(pool) => r is Ok && r->Ok_0@ == pool,
                Err(e) => r == Err::<Vec<u8>, DecodeError>(e),
            },
            r is Ok ==> r->Ok_0@.len() == blk.entry_count * blk.entry_size,
    {
        if blk.entry_count < 0 || blk.entry_size < 0 || blk.block_offset < 0 {
            return Err(DecodeError::OutOfBounds);
        }
        let ec = blk.entry_count as u64;
        let es = blk.entry_size as u64;
        proof {
            assert(ec * es < 0x4000000000000000) by (nonlinear_arith)
                requires
                    ec < 0x80000000,
                    es < 0x80000000;
        }
        let n: u64 = ec * es;
        reader.seek_addr(blk.block_offset as i128)?;
        let total = reader.len();
        if n > total as u64 {
            return Err(DecodeError::OutOfBounds);
        }
        reader.read_bytes(n as usize)
    }

    /// Populate the diagnostic-service list from the diagnostic-job pool:
    /// the pool is read wholesale, then walked in fourteen-byte entries.
    #[verifier::rlimit(100)]
    pub fn create_diag_pool(&mut self, reader: &mut Reader) -> (r: Result<(), DecodeError>)
        ensures
            final(reader).bytes() == old(reader).bytes(),
            match sp_diag_pool_of(old(reader).bytes(), old(self).diagjob@) {
                Ok(list) => r is Ok && final(self)@ == (EcuModel {
                    diag_services: list,
                    ..old(self)@
                }),
                Err(e) => r == Err::<(), DecodeError>(e) && *final(self) == *old(self),
            },
    {
        let pool_bytes = ECU::read_ecu_pool(reader, &self.diagjob)?;
        let mut dreader = Reader::new(pool_bytes);
        let ghost pool = dreader.bytes();
        let count = self.diagjob.entry_count;
        let boff = self.diagjob.block_offset;
        let mut services: Vec<DiagService> = Vec::new();
        let mut i: i32 = 0;
        while i < count
            invariant
                reader.bytes() == old(reader).bytes(),
                *self == *old(self),
                count == self.diagjob.entry_count,
                boff == self.diagjob.block_offset,
                sp_read_pool(old(reader).bytes(), old(self).diagjob@) == Ok::<Seq<u8>, DecodeError>(
                    pool,
                ),
                dreader.bytes() == pool,
                dreader.pos() == 14 * i,
                0 <= i,
                count >= 0 ==> i <= count,
                count < 0 ==> i == 0,
                services@.len() == i,
                sp_diag_entries(pool, i as int, boff as int) is Ok,
                sp_diag_entries(pool, i as int, boff as int)->Ok_0.len() == i,
                forall|k: int|
                    0 <= k < i ==> sp_diag_entries(pool, i as int, boff as int)->Ok_0[k]
                        == services@[k]@,
            decreases count - i,
        {
            let entry = ECU::read_diag_entry(&mut dreader, boff, i);
            match entry {
                Ok(d) => {
                    services.push(d);
                },
                Err(e) => {
                    proof {
                        lemma_sp_diag_entries_err(pool, boff as int, i as int, count as int, e);
                    }
                    return Err(e);
                },
            }
            i = i + 1;
        }
        self.diag_services = services;
        proof {
            assert(final(self)@ =~= (EcuModel {
                diag_services: sp_diag_entries(pool, count as int, boff as int)->Ok_0,
                ..old(self)@
            }));
        }
        Ok(())
    }

    /// Read one fourteen-byte service entry at the pool cursor.
    fn read_diag_entry(dreader: &mut Reader, boff: i32, i: i32) -> (r: Result<
        DiagService,
        DecodeError,
    >)
        requires
            old(dreader).pos() == 14 * i,
            0 <= i,
        ensures
            final(dreader).bytes() == old(dreader).bytes(),
            match sp_diag_entry_at(old(dreader).bytes(), i as int, boff as int) {
                Ok(d) => r is Ok && r->Ok_0@ == d && final(dreader).pos() == 14 * i + 14,
                Err(e) => r == Err::<DiagService, DecodeError>(e),
            },
    {
        let offset = dreader.read_i32()?;
        let size = dreader.read_i32()?;
        let crc = dreader.read_i32()?;
        let config = dreader.read_i16()?;
        Ok(
            DiagService {
                base_addr: offset as i64 + boff as i64,
                index: i,
                size,
                crc,
                config,
            },
        )
    }

    /// Populate the variant list from the variant pool: each entry locates
    /// one variant record, decoded from its own byte range.
    #[verifier::rlimit(100)]
    pub fn create_ecu_varients(&mut self, reader: &mut Reader) -> (r: Result<(), DecodeError>)
        ensures
            final(reader).bytes() == old(reader).bytes(),
            match sp_varient_pool_of(old(reader).bytes(), old(self).ecuvarient@) {
                Ok(list) => r is Ok && final(self)@ == (EcuModel {
                    ecu_varient: list,
                    ..old(self)@
                }),
                Err(e) => r == Err::<(), DecodeError>(e) && *final(self) == *old(self),
            },
    {
        let ghost s = reader.bytes();
        let pool_bytes = ECU::read_ecu_pool(reader, &self.ecuvarient)?;
        let mut vreader = Reader::new(pool_bytes);
        let ghost pool = vreader.bytes();
        let count = self.ecuvarient.entry_count;
        let esize = self.ecuvarient.entry_size;
        let boff = self.ecuvarient.block_offset;
        let mut varients: Vec<ECUVarient> = Vec::new();
        let mut i: i32 = 0;
        while i < count
            invariant
                reader.bytes() == s,
                s == old(reader).bytes(),
                *self == *old(self),
                count == self.ecuvarient.entry_count,
                esize == self.ecuvarient.entry_size,
                boff == self.ecuvarient.block_offset,
                0 <= esize,
                sp_read_pool(s, old(self).ecuvarient@) == Ok::<Seq<u8>, DecodeError>(pool),
                vreader.bytes() == pool,
                0 <= i,
                count >= 0 ==> i <= count,
                count < 0 ==> i == 0,
                varients@.len() == i,
                sp_varient_entries(s, pool, i as int, esize as int, boff as int) is Ok,
                sp_varient_entries(s, pool, i as int, esize as int, boff as int)->Ok_0.len() == i,
                forall|k: int|
                    0 <= k < i ==> sp_varient_entries(
                        s,
                        pool,
                        i as int,
                        esize as int,
                        boff as int,
                    )->Ok_0[k] == varients@[k]@,
            decreases count - i,
        {
            let entry = ECU::read_varient_entry(reader, &mut vreader, esize, boff, i);
            match entry {
                Ok(v) => {
                    varients.push(v);
                },
                Err(e) => {
                    proof {
                        lemma_sp_varient_entries_err(
                            s,
                            pool,
                            esize as int,
                            boff as int,
                            i as int,
                            count as int,
                            e,
                        );
                    }
                    return Err(e);
                },
            }
            i = i + 1;
        }
        self.ecu_varient = varients;
        proof {
            assert(final(self)@ =~= (EcuModel {
                ecu_varient: sp_varient_entries(
                    s,
                    pool,
                    count as int,
                    esize as int,
                    boff as int,
                )->Ok_0,
                ..old(self)@
            }));
        }
        Ok(())
    }

    /// Decode one variant-pool entry and the variant it locates.
    fn read_varient_entry(
        reader: &mut Reader,
        vreader: &mut Reader,
        esize: i32,
        boff: i32,
        i: i32,
    ) -> (r: Result<ECUVarient, DecodeError>)
        requires
            0 <= i,
            0 <= esize,
        ensures
            final(reader).bytes() == old(reader).bytes(),
            final(vreader).bytes() == old(vreader).bytes(),
            match sp_varient_entry_at(
                old(reader).bytes(),
                old(vreader).bytes(),
                i as int,
                esize as int,
                boff as int,
            ) {
                Ok(m) => r is Ok && r->Ok_0@ == m,
                Err(e) => r == Err::<ECUVarient, DecodeError>(e),
            },
    {
        proof {
            assert((esize as int) * (i as int) < 0x4000000000000000) by (nonlinear_arith)
                requires
                    0 <= esize < 0x80000000,
                    0 <= i < 0x80000000;
        }
        proof {
            vreader.lemma_bytes_len();
        }
        let p: u64 = esize as u64 * i as u64;
        vreader.seek_addr(p as i128)?;
        let entry_offset = vreader.read_i32()?;
        let entry_size = vreader.read_i32()?;
        let _pool_entry_attrib = vreader.read_u16()?;
        let address: i64 = entry_offset as i64 + boff as i64;
        ECUVarient::new(reader, address, entry_size)
    }

    /// Decode one ECU from the cursor: the header and both interface tables
    /// eagerly, then the diagnostic-service pool, then the variant pool.
    #[verifier::rlimit(100)]
    pub fn new(reader: &mut Reader, header: &CFFHeader, base_addr: i64) -> (r: Result<
        ECU,
        DecodeError,
    >)
        ensures
            final(reader).bytes() == old(reader).bytes(),
            match sp_ecu(
                old(reader).bytes(),
                old(reader).pos(),
                base_addr as int,
                header.size_of_str_pool as int,
                header.cff_header_size as int,
            ) {
                Ok(m) => r is Ok && r->Ok_0@ == m,
                Err(e) => r == Err::<ECU, DecodeError>(e),
            },
    {
        let mut bitflags = ECU::decode_mask(reader)?;
        let st = ECU::decode_strings(reader, &mut bitflags, base_addr)?;

        let data_offset_wide: i64 = header.size_of_str_pool as i64 + STUB_HEADER_SIZE as i64
            + header.cff_header_size as i64 + 4;
        if data_offset_wide < -0x80000000i64 || data_offset_wide > 0x7fffffffi64 {
            return Err(DecodeError::OutOfBounds);
        }
        let data_offset = data_offset_wide as i32;

        let (ignition_required, unk2, unk_block_count, unk_block_offset, ecu_sgml_src,
            unk6_relative_offset) = ECU::decode_scalars(reader, &mut bitflags)?;
        let (ecuvarient_block, diagjob_block, dtc_block, vc_domain_block, env_block, pres_block,
            info_block, unk_block) = ECU::decode_blocks(reader, &mut bitflags, data_offset)?;
        let unk39 = read_bitflag_i32(&mut bitflags, reader, 0)?;

        let ecu_ifaces = ECU::decode_iface_table(
            reader,
            base_addr,
            st.interface_table_offset,
            st.interface_block_count,
        )?;
        let ecu_ifaces_subtype = ECU::decode_subiface_table(
            reader,
            base_addr,
            st.sub_interface_offset,
            st.sub_interface_count,
        )?;

        let name = match st.name {
            Some(n) => n,
            None => {
                return Err(DecodeError::SchemaViolation);
            },
        };
        let xml_version = match st.xml_version {
            Some(v) => v,
            None => {
                return Err(DecodeError::SchemaViolation);
            },
        };
        let ecu_class_name = match st.ecu_class_name {
            Some(c) => c,
            None => {
                return Err(DecodeError::SchemaViolation);
            },
        };
        let unk_str7 = match st.unk_str7 {
            Some(t) => t,
            None => String::from_str("N/A"),
        };
        let unk_str8 = match st.unk_str8 {
            Some(t) => t,
            None => String::from_str("Unknown"),
        };

        let mut res = ECU {
            name,
            ecuname_ctf: st.ecuname_ctf,
            ecudesc_ctf: st.ecudesc_ctf,
            xml_version,
            interface_block_count: st.interface_block_count,
            interface_table_offset: st.interface_table_offset,
            sub_interface_count: st.sub_interface_count,
            sub_interface_offset: st.sub_interface_offset,
            ecu_class_name,
            unk_str7,
            unk_str8,
            ignition_required: ignition_required as i32,
            unk2: unk2 as i32,
            unk_block_count: unk_block_count as i32,
            unk_block_offset,
            ecu_sgml_src: ecu_sgml_src as i32,
            unk6_relative_offset,
            ecuvarient: ecuvarient_block,
            diagjob: diagjob_block,
            dtc: dtc_block,
            env: env_block,
            vcdomain: vc_domain_block,
            presentations: pres_block,
            info: info_block,
            unk_block,
            unk39,
            ecu_ifaces,
            ecu_ifaces_subtype,
            ecu_varient: Vec::new(),
            diag_services: Vec::new(),
            base_addr,
        };

        res.create_diag_pool(reader)?;
        res.create_ecu_varients(reader)?;

        proof {
            assert(res@ =~= sp_ecu(
                old(reader).bytes(),
                old(reader).pos(),
                base_addr as int,
                header.size_of_str_pool as int,
                header.cff_header_size as int,
            )->Ok_0);
        }
        Ok(res)
    }
}

} // verus!

