//! ECU variants and their detection patterns. A variant decodes from a copy
//! of its own byte range, not from the shared file cursor, so the relative
//! offsets inside it (its pointer tables above all) resolve against its own
//! slice: sibling variants may carry identical small offsets and still reach
//! different absolute positions.

use vstd::prelude::*;

verus! {

use crate::DecodeError;
use crate::opt_str_view;
use crate::diag::{DiagService, DiagServiceModel};
use crate::reader::{Reader, le32_at, to_signed32};
use crate::bitflag::{
    read_bitflag_u8, read_bitflag_i8, read_bitflag_i16, read_bitflag_i32, read_bitflag_string,
    read_bitflag_dump, sflag_u8, sflag_i8, sflag_i16, sflag_i32, sflag_string, sflag_dump,
};

/// Ghost form of a variant-coding domain record.
#[verifier::ext_equal]
pub ghost struct VCDomainModel {}

/// A variant-coding domain record. Its byte layout is not decoded here;
/// variants record only the pool offsets that locate their domains.
#[derive(Debug, Clone)]
pub struct VCDomain {}

impl View for VCDomain {
    type V = VCDomainModel;

    open spec fn view(&self) -> VCDomainModel {
        VCDomainModel {  }
    }
}

/// Ghost form of one decoded detection pattern.
#[verifier::ext_equal]
pub ghost struct ECUVarientPatternModel {
    pub unk_buffer_size: int,
    pub unk_buffer: Seq<u8>,
    pub unk_3: int,
    pub unk_4: int,
    pub unk_5: int,
    pub vendor_name: Option<Seq<char>>,
    pub unk_7: int,
    pub unk_8: int,
    pub unk_9: int,
    pub unk_10: int,
    pub unk_11: int,
    pub unk_12: int,
    pub unk_13: int,
    pub unk_14: int,
    pub unk_15: int,
    pub unk_16: Seq<u8>,
    pub unk_17: int,
    pub unk_18: int,
    pub unk_19: int,
    pub unk_20: int,
    pub unk_21: Option<Seq<char>>,
    pub unk_22: int,
    pub unk_23: int,
    pub variant_id: int,
    pub pattern_type: int,
    pub base_addr: int,
}

/// A variant's recognition signature: an opaque variable-length buffer, a
/// fixed five-byte buffer, vendor metadata, and the variant/pattern-type
/// identifier pair.
#[derive(Debug, Clone)]
pub struct ECUVarientPattern {
    pub unk_buffer_size: i32,
    pub unk_buffer: Vec<u8>,
    pub unk_3: i32,
    pub unk_4: i32,
    pub unk_5: i32,
    pub vendor_name: Option<String>,
    pub unk_7: i32,
    pub unk_8: i32,
    pub unk_9: i32,
    pub unk_10: i32,
    pub unk_11: i32,
    pub unk_12: i32,
    pub unk_13: i32,
    pub unk_14: i32,
    pub unk_15: i32,
    pub unk_16: Vec<u8>,
    pub unk_17: i32,
    pub unk_18: i32,
    pub unk_19: i32,
    pub unk_20: i32,
    pub unk_21: Option<String>,
    pub unk_22: i32,
    pub unk_23: i32,
    pub variant_id: i32,
    pub pattern_type: i32,
    pub base_addr: i64,
}

impl View for ECUVarientPattern {
    type V = ECUVarientPatternModel;

    open spec fn view(&self) -> ECUVarientPatternModel {
        ECUVarientPatternModel {
            unk_buffer_size: self.unk_buffer_size as int,
            unk_buffer: self.unk_buffer@,
            unk_3: self.unk_3 as int,
            unk_4: self.unk_4 as int,
            unk_5: self.unk_5 as int,
            vendor_name: match self.vendor_name {
                Some(v) => Some(v@),
                None => None,
            },
            unk_7: self.unk_7 as int,
            unk_8: self.unk_8 as int,
            unk_9: self.unk_9 as int,
            unk_10: self.unk_10 as int,
            unk_11: self.unk_11 as int,
            unk_12: self.unk_12 as int,
            unk_13: self.unk_13 as int,
            unk_14: self.unk_14 as int,
            unk_15: self.unk_15 as int,
            unk_16: self.unk_16@,
            unk_17: self.unk_17 as int,
            unk_18: self.unk_18 as int,
            unk_19: self.unk_19 as int,
            unk_20: self.unk_20 as int,
            unk_21: match self.unk_21 {
                Some(v) => Some(v@),
                None => None,
            },
            unk_22: self.unk_22 as int,
            unk_23: self.unk_23 as int,
            variant_id: self.variant_id as int,
            pattern_type: self.pattern_type as int,
            base_addr: self.base_addr as int,
        }
    }
}

/// A detection pattern's opening fields, through its vendor name.
#[verifier::ext_equal]
pub ghost struct PatternOpening {
    pub unk_buffer_size: int,
    pub unk_buffer: Seq<u8>,
    pub unk_3: int,
    pub unk_4: int,
    pub unk_5: int,
    pub vendor_name: Option<Seq<char>>,
}

/// Decode of a detection pattern's opening fields at `base`. A clear bit on
/// the variable-length buffer leaves it empty rather than faulting.
pub open spec fn sp_pattern_opening(s: Seq<u8>, base: int) -> Result<
    (PatternOpening, int, u64),
    DecodeError,
> {
    if !(0 <= base <= usize::MAX) {
        Err(DecodeError::OutOfBounds)
    } else if base + 4 > s.len() {
        Err(DecodeError::OutOfBounds)
    } else {
        let mask0 = le32_at(s, base) as u64;
        match sflag_i32(s, base + 4, mask0, 0) {
            Err(e) => Err(e),
            Ok((unk_buffer_size, p1, m1)) => match sflag_dump(s, p1, m1, unk_buffer_size, base) {
                Err(e) => Err(e),
                Ok((buf_opt, p2, m2)) => {
                    let unk_buffer = match buf_opt {
                        Some(b) => b,
                        None => Seq::empty(),
                    };
                    match sflag_i32(s, p2, m2, 0) {
                        Err(e) => Err(e),
                        Ok((unk_3, p3, m3)) => match sflag_i32(s, p3, m3, 0) {
                            Err(e) => Err(e),
                            Ok((unk_4, p4, m4)) => match sflag_i32(s, p4, m4, 0) {
                                Err(e) => Err(e),
                                Ok((unk_5, p5, m5)) => match sflag_string(s, p5, m5, base) {
                                    Err(e) => Err(e),
                                    Ok((vendor_name, p6, m6)) => Ok(
                                        (
                                            PatternOpening {
                                                unk_buffer_size,
                                                unk_buffer,
                                                unk_3,
                                                unk_4,
                                                unk_5,
                                                vendor_name,
                                            },
                                            p6,
                                            m6,
                                        ),
                                    ),
                                },
                            },
                        },
                    }
                },
            },
        }
    }
}

/// The first half of a detection pattern, through its five single-byte
/// fields.
#[verifier::ext_equal]
pub ghost struct PatternHead {
    pub unk_buffer_size: int,
    pub unk_buffer: Seq<u8>,
    pub unk_3: int,
    pub unk_4: int,
    pub unk_5: int,
    pub vendor_name: Option<Seq<char>>,
    pub unk_7: int,
    pub unk_8: int,
    pub unk_9: int,
    pub unk_10: int,
    pub unk_11: int,
    pub unk_12: int,
    pub unk_13: int,
    pub unk_14: int,
    pub unk_15: int,
}

/// Decode of a detection pattern's first half at `base`.
pub open spec fn sp_pattern_head(s: Seq<u8>, base: int) -> Result<
    (PatternHead, int, u64),
    DecodeError,
> {
    match sp_pattern_opening(s, base) {
        Err(e) => Err(e),
        Ok((o, p6, m6)) => match sflag_i16(s, p6, m6, 0) {
            Err(e) => Err(e),
            Ok((unk_7, p7, m7)) => match sflag_i16(s, p7, m7, 0) {
                Err(e) => Err(e),
                Ok((unk_8, p8, m8)) => match sflag_i16(s, p8, m8, 0) {
                    Err(e) => Err(e),
                    Ok((unk_9, p9, m9)) => match sflag_i16(s, p9, m9, 0) {
                        Err(e) => Err(e),
                        Ok((unk_10, p10, m10)) => match sflag_u8(s, p10, m10, 0) {
                            Err(e) => Err(e),
                            Ok((unk_11, p11, m11)) => match sflag_u8(s, p11, m11, 0) {
                                Err(e) => Err(e),
                                Ok((unk_12, p12, m12)) => match sflag_u8(s, p12, m12, 0) {
                                    Err(e) => Err(e),
                                    Ok((unk_13, p13, m13)) => match sflag_u8(s, p13, m13, 0) {
                                        Err(e) => Err(e),
                                        Ok((unk_14, p14, m14)) => match sflag_u8(s, p14, m14, 0) {
                                            Err(e) => Err(e),
                                            Ok((unk_15, p15, m15)) => Ok(
                                                (
                                                    PatternHead {
                                                        unk_buffer_size: o.unk_buffer_size,
                                                        unk_buffer: o.unk_buffer,
                                                        unk_3: o.unk_3,
                                                        unk_4: o.unk_4,
                                                        unk_5: o.unk_5,
                                                        vendor_name: o.vendor_name,
                                                        unk_7,
                                                        unk_8,
                                                        unk_9,
                                                        unk_10,
                                                        unk_11,
                                                        unk_12,
                                                        unk_13,
                                                        unk_14,
                                                        unk_15,
                                                    },
                                                    p15,
                                                    m15,
                                                ),
                                            ),
                                        },
                                    },
                                },
                            },
                        },
                    },
                },
            },
        },
    }
}

/// The whole decode of one detection pattern at `base`. The fixed five-byte
/// buffer is required: a clear bit there is a schema fault.
pub open spec fn sp_varient_pattern(s: Seq<u8>, base: int) -> Result<
    (ECUVarientPatternModel, int),
    DecodeError,
> {
    match sp_pattern_head(s, base) {
        Err(e) => Err(e),
        Ok((h, p15, m15)) => match sflag_dump(s, p15, m15, 5, base) {
            Err(e) => Err(e),
            Ok((buf16, p16, m16)) => {
                if buf16 is None {
                    Err(DecodeError::SchemaViolation)
                } else {
                    match sflag_u8(s, p16, m16, 0) {
                        Err(e) => Err(e),
                        Ok((unk_17, p17, m17)) => match sflag_u8(s, p17, m17, 0) {
                            Err(e) => Err(e),
                            Ok((unk_18, p18, m18)) => match sflag_u8(s, p18, m18, 0) {
                                Err(e) => Err(e),
                                Ok((unk_19, p19, m19)) => match sflag_u8(s, p19, m19, 0) {
                                    Err(e) => Err(e),
                                    Ok((unk_20, p20, m20)) => match sflag_string(
                                        s,
                                        p20,
                                        m20,
                                        base,
                                    ) {
                                        Err(e) => Err(e),
                                        Ok((unk_21, p21, m21)) => match sflag_i32(s, p21, m21, 0) {
                                            Err(e) => Err(e),
                                            Ok((unk_22, p22, m22)) => match sflag_i32(
                                                s,
                                                p22,
                                                m22,
                                                0,
                                            ) {
                                                Err(e) => Err(e),
                                                Ok((unk_23, p23, m23)) => match sflag_i32(
                                                    s,
                                                    p23,
                                                    m23,
                                                    0,
                                                ) {
                                                    Err(e) => Err(e),
                                                    Ok((variant_id, p24, m24)) => match sflag_i32(
                                                        s,
                                                        p24,
                                                        m24,
                                                        0,
                                                    ) {
                                                        Err(e) => Err(e),
                                                        Ok((pattern_type, p25, _m25)) => Ok(
                                                            (
                                                                ECUVarientPatternModel {
                                                                    unk_buffer_size:
                                                                        h.unk_buffer_size,
                                                                    unk_buffer: h.unk_buffer,
                                                                    unk_3: h.unk_3,
                                                                    unk_4: h.unk_4,
                                                                    unk_5: h.unk_5,
                                                                    vendor_name: h.vendor_name,
                                                                    unk_7: h.unk_7,
                                                                    unk_8: h.unk_8,
                                                                    unk_9: h.unk_9,
                                                                    unk_10: h.unk_10,
                                                                    unk_11: h.unk_11,
                                                                    unk_12: h.unk_12,
                                                                    unk_13: h.unk_13,
                                                                    unk_14: h.unk_14,
                                                                    unk_15: h.unk_15,
                                                                    unk_16: buf16->0,
                                                                    unk_17,
                                                                    unk_18,
                                                                    unk_19,
                                                                    unk_20,
                                                                    unk_21,
                                                                    unk_22,
                                                                    unk_23,
                                                                    variant_id,
                                                                    pattern_type,
                                                                    base_addr: base,
                                                                },
                                                                p25,
                                                            ),
                                                        ),
                                                    },
                                                },
                                            },
                                        },
                                    },
                                },
                            },
                        },
                    }
                }
            },
        },
    }
}

/// Executable carrier for a pattern's first half.
struct PatternHeadFields {
    unk_buffer_size: i32,
    unk_buffer: Vec<u8>,
    unk_3: i32,
    unk_4: i32,
    unk_5: i32,
    vendor_name: Option<String>,
    unk_7: i32,
    unk_8: i32,
    unk_9: i32,
    unk_10: i32,
    unk_11: i32,
    unk_12: i32,
    unk_13: i32,
    unk_14: i32,
    unk_15: i32,
}

impl View for PatternHeadFields {
    type V = PatternHead;

    closed spec fn view(&self) -> PatternHead {
        PatternHead {
            unk_buffer_size: self.unk_buffer_size as int,
            unk_buffer: self.unk_buffer@,
            unk_3: self.unk_3 as int,
            unk_4: self.unk_4 as int,
            unk_5: self.unk_5 as int,
            vendor_name: match self.vendor_name {
                Some(v) => Some(v@),
                None => None,
            },
            unk_7: self.unk_7 as int,
            unk_8: self.unk_8 as int,
            unk_9: self.unk_9 as int,
            unk_10: self.unk_10 as int,
            unk_11: self.unk_11 as int,
            unk_12: self.unk_12 as int,
            unk_13: self.unk_13 as int,
            unk_14: self.unk_14 as int,
            unk_15: self.unk_15 as int,
        }
    }
}

impl ECUVarientPattern {
    /// Decode a pattern's opening fields.
    #[verifier::rlimit(100)]
    fn decode_opening(reader: &mut Reader, base_addr: i64) -> (r: Result<
        (i32, Vec<u8>, i32, i32, i32, Option<String>, u64),
        DecodeError,
    >)
        ensures
            final(reader).bytes() == old(reader).bytes(),
            match sp_pattern_opening(old(reader).bytes(), base_addr as int) {
                Ok((o, p, m)) => r is Ok && r->Ok_0.0 == o.unk_buffer_size && r->Ok_0.1@
                    == o.unk_buffer && r->Ok_0.2 == o.unk_3 && r->Ok_0.3 == o.unk_4 && r->Ok_0.4
                    == o.unk_5 && crate::opt_str_view(r->Ok_0.5) == o.vendor_name
                    && final(reader).pos() == p && r->Ok_0.6 == m,
                Err(e) => r is Err && r->Err_0 == e,
            },
    {
        reader.seek_addr(base_addr as i128)?;
        let seed = reader.read_u32()?;
        let mut bitflags: u64 = seed as u64;

        let unk_buffer_size = read_bitflag_i32(&mut bitflags, reader, 0)?;
        let unk_buffer = match read_bitflag_dump(&mut bitflags, reader, unk_buffer_size, base_addr)? {
            Some(b) => b,
            None => Vec::new(),
        };
        let unk_3 = read_bitflag_i32(&mut bitflags, reader, 0)?;
        let unk_4 = read_bitflag_i32(&mut bitflags, reader, 0)?;
        let unk_5 = read_bitflag_i32(&mut bitflags, reader, 0)?;
        let vendor_name = read_bitflag_string(&mut bitflags, reader, base_addr)?;
        Ok((unk_buffer_size, unk_buffer, unk_3, unk_4, unk_5, vendor_name, bitflags))
    }

    /// Decode the first half of a pattern.
    #[verifier::rlimit(100)]
    fn decode_head(reader: &mut Reader, base_addr: i64) -> (r: Result<
        (PatternHeadFields, u64),
        DecodeError,
    >)
        ensures
            final(reader).bytes() == old(reader).bytes(),
            match sp_pattern_head(old(reader).bytes(), base_addr as int) {
                Ok((h, p, m)) => r is Ok && r->Ok_0.0@ == h && final(reader).pos() == p
                    && r->Ok_0.1 == m,
                Err(e) => r == Err::<(PatternHeadFields, u64), DecodeError>(e),
            },
    {
        let (unk_buffer_size, unk_buffer, unk_3, unk_4, unk_5, vendor_name, mut bitflags) =
            ECUVarientPattern::decode_opening(reader, base_addr)?;

        let unk_7 = read_bitflag_i16(&mut bitflags, reader, 0)? as i32;
        let unk_8 = read_bitflag_i16(&mut bitflags, reader, 0)? as i32;
        let unk_9 = read_bitflag_i16(&mut bitflags, reader, 0)? as i32;
        let unk_10 = read_bitflag_i16(&mut bitflags, reader, 0)? as i32;
        let unk_11 = read_bitflag_u8(&mut bitflags, reader, 0)? as i32;
        let unk_12 = read_bitflag_u8(&mut bitflags, reader, 0)? as i32;
        let unk_13 = read_bitflag_u8(&mut bitflags, reader, 0)? as i32;
        let unk_14 = read_bitflag_u8(&mut bitflags, reader, 0)? as i32;
        let unk_15 = read_bitflag_u8(&mut bitflags, reader, 0)? as i32;

        Ok(
            (
                PatternHeadFields {
                    unk_buffer_size,
                    unk_buffer,
                    unk_3,
                    unk_4,
                    unk_5,
                    vendor_name,
                    unk_7,
                    unk_8,
                    unk_9,
                    unk_10,
                    unk_11,
                    unk_12,
                    unk_13,
                    unk_14,
                    unk_15,
                },
                bitflags,
            ),
        )
    }

    /// Decode one detection pattern at `base_addr`.
    #[verifier::rlimit(100)]
    pub fn new(reader: &mut Reader, base_addr: i64) -> (r: Result<ECUVarientPattern, DecodeError>)
        ensures
            final(reader).bytes() == old(reader).bytes(),
            match sp_varient_pattern(old(reader).bytes(), base_addr as int) {
                Ok((m, p)) => r is Ok && r->Ok_0@ == m && final(reader).pos() == p,
                Err(e) => r == Err::<ECUVarientPattern, DecodeError>(e),
            },
    {
        let (h, mut bitflags) = ECUVarientPattern::decode_head(reader, base_addr)?;
        let PatternHeadFields {
            unk_buffer_size,
            unk_buffer,
            unk_3,
            unk_4,
            unk_5,
            vendor_name,
            unk_7,
            unk_8,
            unk_9,
            unk_10,
            unk_11,
            unk_12,
            unk_13,
            unk_14,
            unk_15,
        } = h;

        let unk_16 = match read_bitflag_dump(&mut bitflags, reader, 5, base_addr)? {
            Some(b) => b,
            None => {
                return Err(DecodeError::SchemaViolation);
            },
        };
        let unk_17 = read_bitflag_u8(&mut bitflags, reader, 0)? as i32;
        let unk_18 = read_bitflag_u8(&mut bitflags, reader, 0)? as i32;
        let unk_19 = read_bitflag_u8(&mut bitflags, reader, 0)? as i32;
        let unk_20 = read_bitflag_u8(&mut bitflags, reader, 0)? as i32;
        let unk_21 = read_bitflag_string(&mut bitflags, reader, base_addr)?;
        let unk_22 = read_bitflag_i32(&mut bitflags, reader, 0)?;
        let unk_23 = read_bitflag_i32(&mut bitflags, reader, 0)?;
        let variant_id = read_bitflag_i32(&mut bitflags, reader, 0)?;
        let pattern_type = read_bitflag_i32(&mut bitflags, reader, 0)?;

        Ok(
            ECUVarientPattern {
                unk_buffer_size,
                unk_buffer,
                unk_3,
                unk_4,
                unk_5,
                vendor_name,
                unk_7,
                unk_8,
                unk_9,
                unk_10,
                unk_11,
                unk_12,
                unk_13,
                unk_14,
                unk_15,
                unk_16,
                unk_17,
                unk_18,
                unk_19,
                unk_20,
                unk_21,
                unk_22,
                unk_23,
                variant_id,
                pattern_type,
                base_addr,
            },
        )
    }
}

/// Ghost form of one decoded variant.
#[verifier::ext_equal]
pub ghost struct ECUVarientModel {
    pub name: Option<Seq<char>>,
    pub name_ctf: int,
    pub desc_ctf: int,
    pub unk_str1: Option<Seq<char>>,
    pub unk_str2: Option<Seq<char>>,
    pub unk1: int,
    pub matching_pattern_count: int,
    pub matching_pattern_offset: int,
    pub subsection_b_count: int,
    pub subsection_b_offset: int,
    pub com_param_count: int,
    pub com_param_offset: int,
    pub subsection_d_count: int,
    pub subsection_d_offset: int,
    pub diag_services_count: int,
    pub diag_services_offset: int,
    pub subsection_f_count: int,
    pub subsection_f_offset: int,
    pub subsection_g_count: int,
    pub subsection_g_offset: int,
    pub subsection_h_count: int,
    pub subsection_h_offset: int,
    pub vc_domains_count: int,
    pub vc_domains_offset: int,
    pub negative_resp_name: Seq<char>,
    pub unk_byte: int,
    pub vc_domain_pool_offsets: Seq<int>,
    pub diag_services_pool_offsets: Seq<int>,
    pub vc_domains: Seq<VCDomainModel>,
    pub varient_patterns: Seq<ECUVarientPatternModel>,
    pub diag_services: Seq<DiagServiceModel>,
    pub base_addr: int,
}

/// One hardware/software build of an ECU: identity strings, nine (count,
/// offset) sub-section descriptors, and the two pointer tables (VC domains
/// and diagnostic services) read from its own byte slice. The four child
/// sub-pools are located by the stored counts and offsets; their entry
/// layout varies by container revision, so this decoder records the locators
/// and leaves the child lists empty.
#[derive(Debug, Clone)]
pub struct ECUVarient {
    pub name: Option<String>,
    pub name_ctf: i32,
    pub desc_ctf: i32,
    pub unk_str1: Option<String>,
    pub unk_str2: Option<String>,
    pub unk1: i32,
    pub matching_pattern_count: i32,
    pub matching_pattern_offset: i32,
    pub subsection_b_count: i32,
    pub subsection_b_offset: i32,
    pub com_param_count: i32,
    pub com_param_offset: i32,
    pub subsection_d_count: i32,
    pub subsection_d_offset: i32,
    pub diag_services_count: i32,
    pub diag_services_offset: i32,
    pub subsection_f_count: i32,
    pub subsection_f_offset: i32,
    pub subsection_g_count: i32,
    pub subsection_g_offset: i32,
    pub subsection_h_count: i32,
    pub subsection_h_offset: i32,
    pub vc_domains_count: i32,
    pub vc_domains_offset: i32,
    pub negative_resp_name: String,
    pub unk_byte: i32,
    pub vc_domain_pool_offsets: Vec<i32>,
    pub diag_services_pool_offsets: Vec<i32>,
    pub vc_domains: Vec<VCDomain>,
    pub varient_patterns: Vec<ECUVarientPattern>,
    pub diag_services: Vec<DiagService>,
    pub base_addr: i64,
}

impl View for ECUVarient {
    type V = ECUVarientModel;

    open spec fn view(&self) -> ECUVarientModel {
        ECUVarientModel {
            name: opt_str_view(self.name),
            name_ctf: self.name_ctf as int,
            desc_ctf: self.desc_ctf as int,
            unk_str1: opt_str_view(self.unk_str1),
            unk_str2: opt_str_view(self.unk_str2),
            unk1: self.unk1 as int,
            matching_pattern_count: self.matching_pattern_count as int,
            matching_pattern_offset: self.matching_pattern_offset as int,
            subsection_b_count: self.subsection_b_count as int,
            subsection_b_offset: self.subsection_b_offset as int,
            com_param_count: self.com_param_count as int,
            com_param_offset: self.com_param_offset as int,
            subsection_d_count: self.subsection_d_count as int,
            subsection_d_offset: self.subsection_d_offset as int,
            diag_services_count: self.diag_services_count as int,
            diag_services_offset: self.diag_services_offset as int,
            subsection_f_count: self.subsection_f_count as int,
            subsection_f_offset: self.subsection_f_offset as int,
            subsection_g_count: self.subsection_g_count as int,
            subsection_g_offset: self.subsection_g_offset as int,
            subsection_h_count: self.subsection_h_count as int,
            subsection_h_offset: self.subsection_h_offset as int,
            vc_domains_count: self.vc_domains_count as int,
            vc_domains_offset: self.vc_domains_offset as int,
            negative_resp_name: self.negative_resp_name@,
            unk_byte: self.unk_byte as int,
            vc_domain_pool_offsets: Seq::new(
                self.vc_domain_pool_offsets@.len(),
                |i: int| self.vc_domain_pool_offsets@[i] as int,
            ),
            diag_services_pool_offsets: Seq::new(
                self.diag_services_pool_offsets@.len(),
                |i: int| self.diag_services_pool_offsets@[i] as int,
            ),
            vc_domains: Seq::new(self.vc_domains@.len(), |i: int| self.vc_domains@[i]@),
            varient_patterns: Seq::new(
                self.varient_patterns@.len(),
                |i: int| self.varient_patterns@[i]@,
            ),
            diag_services: Seq::new(self.diag_services@.len(), |i: int| self.diag_services@[i]@),
            base_addr: self.base_addr as int,
        }
    }
}

/// A variant's opening fields: its identity strings and one scalar.
#[verifier::ext_equal]
pub ghost struct VarStrings {
    pub name: Option<Seq<char>>,
    pub name_ctf: int,
    pub desc_ctf: int,
    pub unk_str1: Option<Seq<char>>,
    pub unk_str2: Option<Seq<char>>,
    pub unk1: int,
}

/// Decode of a variant's opening fields from its own slice. The mask seed
/// sits first, then four skipped bytes; string offsets resolve against the
/// slice's own start.
pub open spec fn sp_var_strings(sub: Seq<u8>) -> Result<(VarStrings, int, u64), DecodeError> {
    if sub.len() < 8 {
        Err(DecodeError::OutOfBounds)
    } else {
        let mask0 = le32_at(sub, 0) as u64;
        match sflag_string(sub, 8, mask0, 0) {
            Err(e) => Err(e),
            Ok((name, p1, m1)) => match sflag_i32(sub, p1, m1, -1) {
                Err(e) => Err(e),
                Ok((name_ctf, p2, m2)) => match sflag_i32(sub, p2, m2, -1) {
                    Err(e) => Err(e),
                    Ok((desc_ctf, p3, m3)) => match sflag_string(sub, p3, m3, 0) {
                        Err(e) => Err(e),
                        Ok((unk_str1, p4, m4)) => match sflag_string(sub, p4, m4, 0) {
                            Err(e) => Err(e),
                            Ok((unk_str2, p5, m5)) => match sflag_i32(sub, p5, m5, 0) {
                                Err(e) => Err(e),
                                Ok((unk1, p6, m6)) => Ok(
                                    (
                                        VarStrings { name, name_ctf, desc_ctf, unk_str1, unk_str2, unk1 },
                                        p6,
                                        m6,
                                    ),
                                ),
                            },
                        },
                    },
                },
            },
        }
    }
}

/// The first nine sub-section descriptor fields.
#[verifier::ext_equal]
pub ghost struct VarCountsA {
    pub matching_pattern_count: int,
    pub matching_pattern_offset: int,
    pub subsection_b_count: int,
    pub subsection_b_offset: int,
    pub com_param_count: int,
    pub com_param_offset: int,
    pub subsection_d_count: int,
    pub subsection_d_offset: int,
    pub diag_services_count: int,
}

pub open spec fn sp_var_counts_a(sub: Seq<u8>, pos: int, mask: u64) -> Result<
    (VarCountsA, int, u64),
    DecodeError,
> {
    match sflag_i32(sub, pos, mask, 0) {
        Err(e) => Err(e),
        Ok((mpc, p1, m1)) => match sflag_i32(sub, p1, m1, 0) {
            Err(e) => Err(e),
            Ok((mpo, p2, m2)) => match sflag_i32(sub, p2, m2, 0) {
                Err(e) => Err(e),
                Ok((sbc, p3, m3)) => match sflag_i32(sub, p3, m3, 0) {
                    Err(e) => Err(e),
                    Ok((sbo, p4, m4)) => match sflag_i32(sub, p4, m4, 0) {
                        Err(e) => Err(e),
                        Ok((cpc, p5, m5)) => match sflag_i32(sub, p5, m5, 0) {
                            Err(e) => Err(e),
                            Ok((cpo, p6, m6)) => match sflag_i32(sub, p6, m6, 0) {
                                Err(e) => Err(e),
                                Ok((sdc, p7, m7)) => match sflag_i32(sub, p7, m7, 0) {
                                    Err(e) => Err(e),
                                    Ok((sdo, p8, m8)) => match sflag_i32(sub, p8, m8, 0) {
                                        Err(e) => Err(e),
                                        Ok((dsc, p9, m9)) => Ok(
                                            (
                                                VarCountsA {
                                                    matching_pattern_count: mpc,
                                                    matching_pattern_offset: mpo,
                                                    subsection_b_count: sbc,
                                                    subsection_b_offset: sbo,
                                                    com_param_count: cpc,
                                                    com_param_offset: cpo,
                                                    subsection_d_count: sdc,
                                                    subsection_d_offset: sdo,
                                                    diag_services_count: dsc,
                                                },
                                                p9,
                                                m9,
                                            ),
                                        ),
                                    },
                                },
                            },
                        },
                    },
                },
            },
        },
    }
}

/// The remaining nine sub-section descriptor fields.
#[verifier::ext_equal]
pub ghost struct VarCountsB {
    pub diag_services_offset: int,
    pub subsection_f_count: int,
    pub subsection_f_offset: int,
    pub subsection_g_count: int,
    pub subsection_g_offset: int,
    pub subsection_h_count: int,
    pub subsection_h_offset: int,
    pub vc_domains_count: int,
    pub vc_domains_offset: int,
}

pub open spec fn sp_var_counts_b(sub: Seq<u8>, pos: int, mask: u64) -> Result<
    (VarCountsB, int, u64),
    DecodeError,
> {
    match sflag_i32(sub, pos, mask, 0) {
        Err(e) => Err(e),
        Ok((dso, p1, m1)) => match sflag_i32(sub, p1, m1, 0) {
            Err(e) => Err(e),
            Ok((sfc, p2, m2)) => match sflag_i32(sub, p2, m2, 0) {
                Err(e) => Err(e),
                Ok((sfo, p3, m3)) => match sflag_i32(sub, p3, m3, 0) {
                    Err(e) => Err(e),
                    Ok((sgc, p4, m4)) => match sflag_i32(sub, p4, m4, 0) {
                        Err(e) => Err(e),
                        Ok((sgo, p5, m5)) => match sflag_i32(sub, p5, m5, 0) {
                            Err(e) => Err(e),
                            Ok((shc, p6, m6)) => match sflag_i32(sub, p6, m6, 0) {
                                Err(e) => Err(e),
                                Ok((sho, p7, m7)) => match sflag_i32(sub, p7, m7, 0) {
                                    Err(e) => Err(e),
                                    Ok((vcc, p8, m8)) => match sflag_i32(sub, p8, m8, 0) {
                                        Err(e) => Err(e),
                                        Ok((vco, p9, m9)) => Ok(
                                            (
                                                VarCountsB {
                                                    diag_services_offset: dso,
                                                    subsection_f_count: sfc,
                                                    subsection_f_offset: sfo,
                                                    subsection_g_count: sgc,
                                                    subsection_g_offset: sgo,
                                                    subsection_h_count: shc,
                                                    subsection_h_offset: sho,
                                                    vc_domains_count: vcc,
                                                    vc_domains_offset: vco,
                                                },
                                                p9,
                                                m9,
                                            ),
                                        ),
                                    },
                                },
                            },
                        },
                    },
                },
            },
        },
    }
}

/// The signed 32-bit value at `pos`, when the four bytes are there.
pub open spec fn sp_i32_at(s: Seq<u8>, pos: int) -> Result<int, DecodeError> {
    if 0 <= pos && pos + 4 <= s.len() {
        Ok(to_signed32(le32_at(s, pos)))
    } else {
        Err(DecodeError::OutOfBounds)
    }
}

/// A table of `count` signed 32-bit entries starting at `off`. A count of
/// zero or less reads nothing; a negative start cannot be addressed.
pub open spec fn sp_i32_table(s: Seq<u8>, off: int, count: int) -> Result<Seq<int>, DecodeError>
    decreases count,
{
    if count <= 0 {
        Ok(Seq::empty())
    } else if off < 0 {
        Err(DecodeError::OutOfBounds)
    } else {
        match sp_i32_table(s, off, count - 1) {
            Err(e) => Err(e),
            Ok(prefix) => match sp_i32_at(s, off + 4 * (count - 1)) {
                Err(e) => Err(e),
                Ok(v) => Ok(prefix.push(v)),
            },
        }
    }
}

/// A fault at one table entry is the fault of every longer prefix.
proof fn lemma_sp_i32_table_err(s: Seq<u8>, off: int, i: int, c: int, e: DecodeError)
    requires
        0 <= i < c,
        0 <= off,
        sp_i32_table(s, off, i) is Ok,
        sp_i32_at(s, off + 4 * i) == Err::<int, DecodeError>(e),
    ensures
        sp_i32_table(s, off, c) == Err::<Seq<int>, DecodeError>(e),
    decreases c,
{
    if c > i + 1 {
        lemma_sp_i32_table_err(s, off, i, c - 1, e);
    }
}

/// Read a table of `count` signed 32-bit entries starting at `off`.
fn read_i32_table(reader: &mut Reader, off: i32, count: i32) -> (r: Result<Vec<i32>, DecodeError>)
    ensures
        final(reader).bytes() == old(reader).bytes(),
        match sp_i32_table(old(reader).bytes(), off as int, count as int) {
            Ok(t) => r is Ok && t.len() == r->Ok_0@.len() && (forall|k: int|
                0 <= k < t.len() ==> t[k] == r->Ok_0@[k]),
            Err(e) => r == Err::<Vec<i32>, DecodeError>(e),
        },
{
    let ghost s = reader.bytes();
    let mut out: Vec<i32> = Vec::new();
    if count <= 0 {
        return Ok(out);
    }
    reader.seek_addr(off as i128)?;
    let mut i: i32 = 0;
    while i < count
        invariant
            reader.bytes() == s,
            s == old(reader).bytes(),
            0 <= off,
            0 <= i <= count,
            reader.pos() == off + 4 * i,
            out@.len() == i,
            sp_i32_table(s, off as int, i as int) is Ok,
            sp_i32_table(s, off as int, i as int)->Ok_0.len() == i,
            forall|k: int|
                0 <= k < i ==> sp_i32_table(s, off as int, i as int)->Ok_0[k] == out@[k],
        decreases count - i,
    {
        match reader.read_i32() {
            Ok(v) => {
                out.push(v);
                proof {
                    let prev = sp_i32_table(s, off as int, i as int)->Ok_0;
                    assert(sp_i32_at(s, off + 4 * i) == Ok::<int, DecodeError>(v as int));
                    assert(sp_i32_table(s, off as int, i + 1) == Ok::<Seq<int>, DecodeError>(
                        prev.push(v as int),
                    ));
                }
            },
            Err(e) => {
                proof {
                    assert(sp_i32_at(s, off + 4 * i) == Err::<int, DecodeError>(e));
                    lemma_sp_i32_table_err(s, off as int, i as int, count as int, e);
                }
                return Err(e);
            },
        }
        i = i + 1;
    }
    Ok(out)
}

/// The whole decode of one variant: `block_size` bytes are copied out of the
/// source at `base`, and every further offset resolves inside that copy.
pub open spec fn sp_ecu_varient(s: Seq<u8>, base: int, block_size: int) -> Result<
    ECUVarientModel,
    DecodeError,
> {
    if block_size < 0 {
        Err(DecodeError::OutOfBounds)
    } else if !(0 <= base <= usize::MAX) {
        Err(DecodeError::OutOfBounds)
    } else if base + block_size > s.len() {
        Err(DecodeError::OutOfBounds)
    } else {
        let sub = s.subrange(base, base + block_size);
        match sp_var_strings(sub) {
            Err(e) => Err(e),
            Ok((h, p1, m1)) => match sp_var_counts_a(sub, p1, m1) {
                Err(e) => Err(e),
                Ok((ca, p2, m2)) => match sp_var_counts_b(sub, p2, m2) {
                    Err(e) => Err(e),
                    Ok((cb, p3, m3)) => match sflag_string(sub, p3, m3, 0) {
                        Err(e) => Err(e),
                        Ok((nrn, p4, m4)) => match sflag_i8(sub, p4, m4, 0) {
                            Err(e) => Err(e),
                            Ok((unk_byte, _p5, _m5)) => match sp_i32_table(
                                sub,
                                cb.vc_domains_offset,
                                cb.vc_domains_count,
                            ) {
                                Err(e) => Err(e),
                                Ok(vc_offsets) => match sp_i32_table(
                                    sub,
                                    cb.diag_services_offset,
                                    ca.diag_services_count,
                                ) {
                                    Err(e) => Err(e),
                                    Ok(ds_offsets) => Ok(
                                        ECUVarientModel {
                                            name: h.name,
                                            name_ctf: h.name_ctf,
                                            desc_ctf: h.desc_ctf,
                                            unk_str1: h.unk_str1,
                                            unk_str2: h.unk_str2,
                                            unk1: h.unk1,
                                            matching_pattern_count: ca.matching_pattern_count,
                                            matching_pattern_offset: ca.matching_pattern_offset,
                                            subsection_b_count: ca.subsection_b_count,
                                            subsection_b_offset: ca.subsection_b_offset,
                                            com_param_count: ca.com_param_count,
                                            com_param_offset: ca.com_param_offset,
                                            subsection_d_count: ca.subsection_d_count,
                                            subsection_d_offset: ca.subsection_d_offset,
                                            diag_services_count: ca.diag_services_count,
                                            diag_services_offset: cb.diag_services_offset,
                                            subsection_f_count: cb.subsection_f_count,
                                            subsection_f_offset: cb.subsection_f_offset,
                                            subsection_g_count: cb.subsection_g_count,
                                            subsection_g_offset: cb.subsection_g_offset,
                                            subsection_h_count: cb.subsection_h_count,
                                            subsection_h_offset: cb.subsection_h_offset,
                                            vc_domains_count: cb.vc_domains_count,
                                            vc_domains_offset: cb.vc_domains_offset,
                                            negative_resp_name: match nrn {
                                                Some(t) => t,
                                                None => Seq::empty(),
                                            },
                                            unk_byte,
                                            vc_domain_pool_offsets: vc_offsets,
                                            diag_services_pool_offsets: ds_offsets,
                                            vc_domains: Seq::empty(),
                                            varient_patterns: Seq::empty(),
                                            diag_services: Seq::empty(),
                                            base_addr: base,
                                        },
                                    ),
                                },
                            },
                        },
                    },
                },
            },
        }
    }
}

/// Executable carrier for a variant's opening fields.
struct VarStringsFields {
    name: Option<String>,
    name_ctf: i32,
    desc_ctf: i32,
    unk_str1: Option<String>,
    unk_str2: Option<String>,
    unk1: i32,
}

impl View for VarStringsFields {
    type V = VarStrings;

    closed spec fn view(&self) -> VarStrings {
        VarStrings {
            name: opt_str_view(self.name),
            name_ctf: self.name_ctf as int,
            desc_ctf: self.desc_ctf as int,
            unk_str1: opt_str_view(self.unk_str1),
            unk_str2: opt_str_view(self.unk_str2),
            unk1: self.unk1 as int,
        }
    }
}

/// Executable carrier for the first nine descriptor fields.
struct VarCountsAFields {
    matching_pattern_count: i32,
    matching_pattern_offset: i32,
    subsection_b_count: i32,
    subsection_b_offset: i32,
    com_param_count: i32,
    com_param_offset: i32,
    subsection_d_count: i32,
    subsection_d_offset: i32,
    diag_services_count: i32,
}

impl View for VarCountsAFields {
    type V = VarCountsA;

    closed spec fn view(&self) -> VarCountsA {
        VarCountsA {
            matching_pattern_count: self.matching_pattern_count as int,
            matching_pattern_offset: self.matching_pattern_offset as int,
            subsection_b_count: self.subsection_b_count as int,
            subsection_b_offset: self.subsection_b_offset as int,
            com_param_count: self.com_param_count as int,
            com_param_offset: self.com_param_offset as int,
            subsection_d_count: self.subsection_d_count as int,
            subsection_d_offset: self.subsection_d_offset as int,
            diag_services_count: self.diag_services_count as int,
        }
    }
}

/// Executable carrier for the remaining nine descriptor fields.
struct VarCountsBFields {
    diag_services_offset: i32,
    subsection_f_count: i32,
    subsection_f_offset: i32,
    subsection_g_count: i32,
    subsection_g_offset: i32,
    subsection_h_count: i32,
    subsection_h_offset: i32,
    vc_domains_count: i32,
    vc_domains_offset: i32,
}

impl View for VarCountsBFields {
    type V = VarCountsB;

    closed spec fn view(&self) -> VarCountsB {
        VarCountsB {
            diag_services_offset: self.diag_services_offset as int,
            subsection_f_count: self.subsection_f_count as int,
            subsection_f_offset: self.subsection_f_offset as int,
            subsection_g_count: self.subsection_g_count as int,
            subsection_g_offset: self.subsection_g_offset as int,
            subsection_h_count: self.subsection_h_count as int,
            subsection_h_offset: self.subsection_h_offset as int,
            vc_domains_count: self.vc_domains_count as int,
            vc_domains_offset: self.vc_domains_offset as int,
        }
    }
}

impl ECUVarient {
    /// Decode a variant's opening fields from its slice.
    #[verifier::rlimit(100)]
    fn decode_strings(reader: &mut Reader) -> (r: Result<(VarStringsFields, u64), DecodeError>)
        requires
            old(reader).pos() == 0,
        ensures
            final(reader).bytes() == old(reader).bytes(),
            match sp_var_strings(old(reader).bytes()) {
                Ok((h, p, m)) => r is Ok && r->Ok_0.0@ == h && final(reader).pos() == p
                    && r->Ok_0.1 == m,
                Err(e) => r == Err::<(VarStringsFields, u64), DecodeError>(e),
            },
    {
        let seed = reader.read_u32()?;
        let _skip = reader.read_i32()?;
        let mut bitflags: u64 = seed as u64;

        let name = read_bitflag_string(&mut bitflags, reader, 0)?;
        let name_ctf = read_bitflag_i32(&mut bitflags, reader, -1)?;
        let desc_ctf = read_bitflag_i32(&mut bitflags, reader, -1)?;
        let unk_str1 = read_bitflag_string(&mut bitflags, reader, 0)?;
        let unk_str2 = read_bitflag_string(&mut bitflags, reader, 0)?;
        let unk1 = read_bitflag_i32(&mut bitflags, reader, 0)?;

        Ok((VarStringsFields { name, name_ctf, desc_ctf, unk_str1, unk_str2, unk1 }, bitflags))
    }

    /// Decode the first nine descriptor fields.
    #[verifier::rlimit(100)]
    fn decode_counts_a(reader: &mut Reader, bitflags: &mut u64) -> (r: Result<
        VarCountsAFields,
        DecodeError,
    >)
        ensures
            final(reader).bytes() == old(reader).bytes(),
            match sp_var_counts_a(old(reader).bytes(), old(reader).pos(), *old(bitflags)) {
                Ok((c, p, m)) => r is Ok && r->Ok_0@ == c && final(reader).pos() == p
                    && *final(bitflags) == m,
                Err(e) => r == Err::<VarCountsAFields, DecodeError>(e),
            },
    {
        let matching_pattern_count = read_bitflag_i32(bitflags, reader, 0)?;
        let matching_pattern_offset = read_bitflag_i32(bitflags, reader, 0)?;
        let subsection_b_count = read_bitflag_i32(bitflags, reader, 0)?;
        let subsection_b_offset = read_bitflag_i32(bitflags, reader, 0)?;
        let com_param_count = read_bitflag_i32(bitflags, reader, 0)?;
        let com_param_offset = read_bitflag_i32(bitflags, reader, 0)?;
        let subsection_d_count = read_bitflag_i32(bitflags, reader, 0)?;
        let subsection_d_offset = read_bitflag_i32(bitflags, reader, 0)?;
        let diag_services_count = read_bitflag_i32(bitflags, reader, 0)?;

        Ok(
            VarCountsAFields {
                matching_pattern_count,
                matching_pattern_offset,
                subsection_b_count,
                subsection_b_offset,
                com_param_count,
                com_param_offset,
                subsection_d_count,
                subsection_d_offset,
                diag_services_count,
            },
        )
    }

    /// Decode the remaining nine descriptor fields.
    #[verifier::rlimit(100)]
    fn decode_counts_b(reader: &mut Reader, bitflags: &mut u64) -> (r: Result<
        VarCountsBFields,
        DecodeError,
    >)
        ensures
            final(reader).bytes() == old(reader).bytes(),
            match sp_var_counts_b(old(reader).bytes(), old(reader).pos(), *old(bitflags)) {
                Ok((c, p, m)) => r is Ok && r->Ok_0@ == c && final(reader).pos() == p
                    && *final(bitflags) == m,
                Err(e) => r == Err::<VarCountsBFields, DecodeError>(e),
            },
    {
        let diag_services_offset = read_bitflag_i32(bitflags, reader, 0)?;
        let subsection_f_count = read_bitflag_i32(bitflags, reader, 0)?;
        let subsection_f_offset = read_bitflag_i32(bitflags, reader, 0)?;
        let subsection_g_count = read_bitflag_i32(bitflags, reader, 0)?;
        let subsection_g_offset = read_bitflag_i32(bitflags, reader, 0)?;
        let subsection_h_count = read_bitflag_i32(bitflags, reader, 0)?;
        let subsection_h_offset = read_bitflag_i32(bitflags, reader, 0)?;
        let vc_domains_count = read_bitflag_i32(bitflags, reader, 0)?;
        let vc_domains_offset = read_bitflag_i32(bitflags, reader, 0)?;

        Ok(
            VarCountsBFields {
                diag_services_offset,
                subsection_f_count,
                subsection_f_offset,
                subsection_g_count,
                subsection_g_offset,
                subsection_h_count,
                subsection_h_offset,
                vc_domains_count,
                vc_domains_offset,
            },
        )
    }

    /// Decode one variant from `block_size` bytes at `base_addr`. The bytes
    /// are copied out first, so the variant's relative offsets (its pointer
    /// tables above all) resolve against its own slice and never against a
    /// sibling's.
    #[verifier::rlimit(100)]
    pub fn new(reader: &mut Reader, base_addr: i64, block_size: i32) -> (r: Result<
        ECUVarient,
        DecodeError,
    >)
        ensures
            final(reader).bytes() == old(reader).bytes(),
            match sp_ecu_varient(old(reader).bytes(), base_addr as int, block_size as int) {
                Ok(m) => r is Ok && r->Ok_0@ == m,
                Err(e) => r == Err::<ECUVarient, DecodeError>(e),
            },
            r is Ok ==> final(reader).pos() == base_addr + block_size,
    {
        if block_size < 0 {
            return Err(DecodeError::OutOfBounds);
        }
        reader.seek_addr(base_addr as i128)?;
        let varient_bytes = reader.read_bytes(block_size as usize)?;
        let mut varreader = Reader::new(varient_bytes);
        let ghost sub = varreader.bytes();

        let (h, bf) = ECUVarient::decode_strings(&mut varreader)?;
        let mut bitflags: u64 = bf;
        let ca = ECUVarient::decode_counts_a(&mut varreader, &mut bitflags)?;
        let cb = ECUVarient::decode_counts_b(&mut varreader, &mut bitflags)?;

        let nrn_opt = read_bitflag_string(&mut bitflags, &mut varreader, 0)?;
        let negative_resp_name = match nrn_opt {
            Some(t) => t,
            None => String::new(),
        };
        let unk_byte = read_bitflag_i8(&mut bitflags, &mut varreader, 0)? as i32;

        let vc_domain_pool_offsets = read_i32_table(
            &mut varreader,
            cb.vc_domains_offset,
            cb.vc_domains_count,
        )?;
        let diag_services_pool_offsets = read_i32_table(
            &mut varreader,
            cb.diag_services_offset,
            ca.diag_services_count,
        )?;

        let v = ECUVarient {
            name: h.name,
            name_ctf: h.name_ctf,
            desc_ctf: h.desc_ctf,
            unk_str1: h.unk_str1,
            unk_str2: h.unk_str2,
            unk1: h.unk1,
            matching_pattern_count: ca.matching_pattern_count,
            matching_pattern_offset: ca.matching_pattern_offset,
            subsection_b_count: ca.subsection_b_count,
            subsection_b_offset: ca.subsection_b_offset,
            com_param_count: ca.com_param_count,
            com_param_offset: ca.com_param_offset,
            subsection_d_count: ca.subsection_d_count,
            subsection_d_offset: ca.subsection_d_offset,
            diag_services_count: ca.diag_services_count,
            diag_services_offset: cb.diag_services_offset,
            subsection_f_count: cb.subsection_f_count,
            subsection_f_offset: cb.subsection_f_offset,
            subsection_g_count: cb.subsection_g_count,
            subsection_g_offset: cb.subsection_g_offset,
            subsection_h_count: cb.subsection_h_count,
            subsection_h_offset: cb.subsection_h_offset,
            vc_domains_count: cb.vc_domains_count,
            vc_domains_offset: cb.vc_domains_offset,
            negative_resp_name,
            unk_byte,
            vc_domain_pool_offsets,
            diag_services_pool_offsets,
            vc_domains: Vec::new(),
            varient_patterns: Vec::new(),
            diag_services: Vec::new(),
            base_addr,
        };
        proof {
            assert(v@ =~= sp_ecu_varient(
                old(reader).bytes(),
                base_addr as int,
                block_size as int,
            )->Ok_0);
        }
        Ok(v)
    }
}

} // verus!
