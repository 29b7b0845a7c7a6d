//! Communication parameters: the closed set of known parameter names and the
//! decoded parameter record itself. A parameter's name is not stored with the
//! record; the record carries an index into its parent interface's name
//! table, and resolution of that index is part of construction.

use vstd::prelude::*;

verus! {

use crate::DecodeError;
use crate::str_eq;
use crate::iface::ECUInterface;
use crate::reader::{Reader, le16_at, le32_at, to_signed32};
use crate::bitflag::{
    read_bitflag_i16, read_bitflag_i32, read_bitflag_dump, sflag_i16, sflag_i32, sflag_dump,
};

/// The known communication-parameter symbols, with an explicit fallback for
/// names present in a file but outside the closed set: such names are
/// tolerated, not rejected, so newer files keep loading.
#[allow(non_camel_case_types)]
#[derive(Debug, Clone, Copy, PartialEq, Eq, Structural)]
pub enum ParamName {
    CP_BAUDRATE,
    CP_GLOBAL_REQUEST_CANIDENTIFIER,
    CP_FUNCTIONAL_REQUEST_CANIDENTIFIER,
    CP_REQUEST_CANIDENTIFIER,
    CP_RESPONSE_CANIDENTIFIER,
    CP_PARTNUMBERID,
    CP_PARTBLOCK,
    CP_HWVERSIONID,
    CP_SWVERSIONID,
    CP_SWVERSIONBLOCK,
    CP_SUPPLIERID,
    CP_SWSUPPLIERBLOCK,
    CP_ADDRESSMODE,
    CP_ADDRESSEXTENSION,
    CP_ROE_RESPONSE_CANIDENTIFIER,
    CP_USE_TIMING_RECEIVED_FROM_ECU,
    CP_STMIN_SUG,
    CP_BLOCKSIZE_SUG,
    CP_P2_TIMEOUT,
    CP_S3_TP_PHYS_TIMER,
    CP_S3_TP_FUNC_TIMER,
    CP_BR_SUG,
    CP_CAN_TRANSMIT,
    CP_BS_MAX,
    CP_CS_MAX,
    CPI_ROUTINECOUNTER,
    CP_REQREPCOUNT,
    CP_P2_EXT_TIMEOUT_7F_78,
    CP_P2_EXT_TIMEOUT_7F_21,
    UNKNOWN,
}

/// The text of each known symbol; the fallback prints as `UNKNOWN`.
pub open spec fn spec_param_text(p: ParamName) -> Seq<char> {
    match p {
        ParamName::CP_BAUDRATE => "CP_BAUDRATE"@,
        ParamName::CP_GLOBAL_REQUEST_CANIDENTIFIER => "CP_GLOBAL_REQUEST_CANIDENTIFIER"@,
        ParamName::CP_FUNCTIONAL_REQUEST_CANIDENTIFIER => "CP_FUNCTIONAL_REQUEST_CANIDENTIFIER"@,
        ParamName::CP_REQUEST_CANIDENTIFIER => "CP_REQUEST_CANIDENTIFIER"@,
        ParamName::CP_RESPONSE_CANIDENTIFIER => "CP_RESPONSE_CANIDENTIFIER"@,
        ParamName::CP_PARTNUMBERID => "CP_PARTNUMBERID"@,
        ParamName::CP_PARTBLOCK => "CP_PARTBLOCK"@,
        ParamName::CP_HWVERSIONID => "CP_HWVERSIONID"@,
        ParamName::CP_SWVERSIONID => "CP_SWVERSIONID"@,
        ParamName::CP_SWVERSIONBLOCK => "CP_SWVERSIONBLOCK"@,
        ParamName::CP_SUPPLIERID => "CP_SUPPLIERID"@,
        ParamName::CP_SWSUPPLIERBLOCK => "CP_SWSUPPLIERBLOCK"@,
        ParamName::CP_ADDRESSMODE => "CP_ADDRESSMODE"@,
        ParamName::CP_ADDRESSEXTENSION => "CP_ADDRESSEXTENSION"@,
        ParamName::CP_ROE_RESPONSE_CANIDENTIFIER => "CP_ROE_RESPONSE_CANIDENTIFIER"@,
        ParamName::CP_USE_TIMING_RECEIVED_FROM_ECU => "CP_USE_TIMING_RECEIVED_FROM_ECU"@,
        ParamName::CP_STMIN_SUG => "CP_STMIN_SUG"@,
        ParamName::CP_BLOCKSIZE_SUG => "CP_BLOCKSIZE_SUG"@,
        ParamName::CP_P2_TIMEOUT => "CP_P2_TIMEOUT"@,
        ParamName::CP_S3_TP_PHYS_TIMER => "CP_S3_TP_PHYS_TIMER"@,
        ParamName::CP_S3_TP_FUNC_TIMER => "CP_S3_TP_FUNC_TIMER"@,
        ParamName::CP_BR_SUG => "CP_BR_SUG"@,
        ParamName::CP_CAN_TRANSMIT => "CP_CAN_TRANSMIT"@,
        ParamName::CP_BS_MAX => "CP_BS_MAX"@,
        ParamName::CP_CS_MAX => "CP_CS_MAX"@,
        ParamName::CPI_ROUTINECOUNTER => "CPI_ROUTINECOUNTER"@,
        ParamName::CP_REQREPCOUNT => "CP_REQREPCOUNT"@,
        ParamName::CP_P2_EXT_TIMEOUT_7F_78 => "CP_P2_EXT_TIMEOUT_7F_78"@,
        ParamName::CP_P2_EXT_TIMEOUT_7F_21 => "CP_P2_EXT_TIMEOUT_7F_21"@,
        ParamName::UNKNOWN => "UNKNOWN"@,
    }
}

/// The symbol a piece of text names, or the fallback when it names none.
pub open spec fn spec_param_from_text(t: Seq<char>) -> ParamName {
    if t == "CP_BAUDRATE"@ {
        ParamName::CP_BAUDRATE
    } else if t == "CP_GLOBAL_REQUEST_CANIDENTIFIER"@ {
        ParamName::CP_GLOBAL_REQUEST_CANIDENTIFIER
    } else if t == "CP_FUNCTIONAL_REQUEST_CANIDENTIFIER"@ {
        ParamName::CP_FUNCTIONAL_REQUEST_CANIDENTIFIER
    } else if t == "CP_REQUEST_CANIDENTIFIER"@ {
        ParamName::CP_REQUEST_CANIDENTIFIER
    } else if t == "CP_RESPONSE_CANIDENTIFIER"@ {
        ParamName::CP_RESPONSE_CANIDENTIFIER
    } else if t == "CP_PARTNUMBERID"@ {
        ParamName::CP_PARTNUMBERID
    } else if t == "CP_PARTBLOCK"@ {
        ParamName::CP_PARTBLOCK
    } else if t == "CP_HWVERSIONID"@ {
        ParamName::CP_HWVERSIONID
    } else if t == "CP_SWVERSIONID"@ {
        ParamName::CP_SWVERSIONID
    } else if t == "CP_SWVERSIONBLOCK"@ {
        ParamName::CP_SWVERSIONBLOCK
    } else if t == "CP_SUPPLIERID"@ {
        ParamName::CP_SUPPLIERID
    } else if t == "CP_SWSUPPLIERBLOCK"@ {
        ParamName::CP_SWSUPPLIERBLOCK
    } else if t == "CP_ADDRESSMODE"@ {
        ParamName::CP_ADDRESSMODE
    } else if t == "CP_ADDRESSEXTENSION"@ {
        ParamName::CP_ADDRESSEXTENSION
    } else if t == "CP_ROE_RESPONSE_CANIDENTIFIER"@ {
        ParamName::CP_ROE_RESPONSE_CANIDENTIFIER
    } else if t == "CP_USE_TIMING_RECEIVED_FROM_ECU"@ {
        ParamName::CP_USE_TIMING_RECEIVED_FROM_ECU
    } else if t == "CP_STMIN_SUG"@ {
        ParamName::CP_STMIN_SUG
    } else if t == "CP_BLOCKSIZE_SUG"@ {
        ParamName::CP_BLOCKSIZE_SUG
    } else if t == "CP_P2_TIMEOUT"@ {
        ParamName::CP_P2_TIMEOUT
    } else if t == "CP_S3_TP_PHYS_TIMER"@ {
        ParamName::CP_S3_TP_PHYS_TIMER
    } else if t == "CP_S3_TP_FUNC_TIMER"@ {
        ParamName::CP_S3_TP_FUNC_TIMER
    } else if t == "CP_BR_SUG"@ {
        ParamName::CP_BR_SUG
    } else if t == "CP_CAN_TRANSMIT"@ {
        ParamName::CP_CAN_TRANSMIT
    } else if t == "CP_BS_MAX"@ {
        ParamName::CP_BS_MAX
    } else if t == "CP_CS_MAX"@ {
        ParamName::CP_CS_MAX
    } else if t == "CPI_ROUTINECOUNTER"@ {
        ParamName::CPI_ROUTINECOUNTER
    } else if t == "CP_REQREPCOUNT"@ {
        ParamName::CP_REQREPCOUNT
    } else if t == "CP_P2_EXT_TIMEOUT_7F_78"@ {
        ParamName::CP_P2_EXT_TIMEOUT_7F_78
    } else if t == "CP_P2_EXT_TIMEOUT_7F_21"@ {
        ParamName::CP_P2_EXT_TIMEOUT_7F_21
    } else {
        ParamName::UNKNOWN
    }
}

impl ParamName {
    /// Map a name read from the file to its symbol; a name outside the
    /// closed set maps to the fallback and decoding goes on.
    pub fn from_string(txt: &str) -> (r: Self)
        ensures
            r == spec_param_from_text(txt@),
    {
        if str_eq(txt, "CP_BAUDRATE") {
            ParamName::CP_BAUDRATE
        } else if str_eq(txt, "CP_GLOBAL_REQUEST_CANIDENTIFIER") {
            ParamName::CP_GLOBAL_REQUEST_CANIDENTIFIER
        } else if str_eq(txt, "CP_FUNCTIONAL_REQUEST_CANIDENTIFIER") {
            ParamName::CP_FUNCTIONAL_REQUEST_CANIDENTIFIER
        } else if str_eq(txt, "CP_REQUEST_CANIDENTIFIER") {
            ParamName::CP_REQUEST_CANIDENTIFIER
        } else if str_eq(txt, "CP_RESPONSE_CANIDENTIFIER") {
            ParamName::CP_RESPONSE_CANIDENTIFIER
        } else if str_eq(txt, "CP_PARTNUMBERID") {
            ParamName::CP_PARTNUMBERID
        } else if str_eq(txt, "CP_PARTBLOCK") {
            ParamName::CP_PARTBLOCK
        } else if str_eq(txt, "CP_HWVERSIONID") {
            ParamName::CP_HWVERSIONID
        } else if str_eq(txt, "CP_SWVERSIONID") {
            ParamName::CP_SWVERSIONID
        } else if str_eq(txt, "CP_SWVERSIONBLOCK") {
            ParamName::CP_SWVERSIONBLOCK
        } else if str_eq(txt, "CP_SUPPLIERID") {
            ParamName::CP_SUPPLIERID
        } else if str_eq(txt, "CP_SWSUPPLIERBLOCK") {
            ParamName::CP_SWSUPPLIERBLOCK
        } else if str_eq(txt, "CP_ADDRESSMODE") {
            ParamName::CP_ADDRESSMODE
        } else if str_eq(txt, "CP_ADDRESSEXTENSION") {
            ParamName::CP_ADDRESSEXTENSION
        } else if str_eq(txt, "CP_ROE_RESPONSE_CANIDENTIFIER") {
            ParamName::CP_ROE_RESPONSE_CANIDENTIFIER
        } else if str_eq(txt, "CP_USE_TIMING_RECEIVED_FROM_ECU") {
            ParamName::CP_USE_TIMING_RECEIVED_FROM_ECU
        } else if str_eq(txt, "CP_STMIN_SUG") {
            ParamName::CP_STMIN_SUG
        } else if str_eq(txt, "CP_BLOCKSIZE_SUG") {
            ParamName::CP_BLOCKSIZE_SUG
        } else if str_eq(txt, "CP_P2_TIMEOUT") {
            ParamName::CP_P2_TIMEOUT
        } else if str_eq(txt, "CP_S3_TP_PHYS_TIMER") {
            ParamName::CP_S3_TP_PHYS_TIMER
        } else if str_eq(txt, "CP_S3_TP_FUNC_TIMER") {
            ParamName::CP_S3_TP_FUNC_TIMER
        } else if str_eq(txt, "CP_BR_SUG") {
            ParamName::CP_BR_SUG
        } else if str_eq(txt, "CP_CAN_TRANSMIT") {
            ParamName::CP_CAN_TRANSMIT
        } else if str_eq(txt, "CP_BS_MAX") {
            ParamName::CP_BS_MAX
        } else if str_eq(txt, "CP_CS_MAX") {
            ParamName::CP_CS_MAX
        } else if str_eq(txt, "CPI_ROUTINECOUNTER") {
            ParamName::CPI_ROUTINECOUNTER
        } else if str_eq(txt, "CP_REQREPCOUNT") {
            ParamName::CP_REQREPCOUNT
        } else if str_eq(txt, "CP_P2_EXT_TIMEOUT_7F_78") {
            ParamName::CP_P2_EXT_TIMEOUT_7F_78
        } else if str_eq(txt, "CP_P2_EXT_TIMEOUT_7F_21") {
            ParamName::CP_P2_EXT_TIMEOUT_7F_21
        } else {
            ParamName::UNKNOWN
        }
    }

    /// The symbol's text, used to search an interface's name table.
    pub fn as_text(&self) -> (r: &'static str)
        ensures
            r@ == spec_param_text(*self),
    {
        match self {
            ParamName::CP_BAUDRATE => "CP_BAUDRATE",
            ParamName::CP_GLOBAL_REQUEST_CANIDENTIFIER => "CP_GLOBAL_REQUEST_CANIDENTIFIER",
            ParamName::CP_FUNCTIONAL_REQUEST_CANIDENTIFIER => "CP_FUNCTIONAL_REQUEST_CANIDENTIFIER",
            ParamName::CP_REQUEST_CANIDENTIFIER => "CP_REQUEST_CANIDENTIFIER",
            ParamName::CP_RESPONSE_CANIDENTIFIER => "CP_RESPONSE_CANIDENTIFIER",
            ParamName::CP_PARTNUMBERID => "CP_PARTNUMBERID",
            ParamName::CP_PARTBLOCK => "CP_PARTBLOCK",
            ParamName::CP_HWVERSIONID => "CP_HWVERSIONID",
            ParamName::CP_SWVERSIONID => "CP_SWVERSIONID",
            ParamName::CP_SWVERSIONBLOCK => "CP_SWVERSIONBLOCK",
            ParamName::CP_SUPPLIERID => "CP_SUPPLIERID",
            ParamName::CP_SWSUPPLIERBLOCK => "CP_SWSUPPLIERBLOCK",
            ParamName::CP_ADDRESSMODE => "CP_ADDRESSMODE",
            ParamName::CP_ADDRESSEXTENSION => "CP_ADDRESSEXTENSION",
            ParamName::CP_ROE_RESPONSE_CANIDENTIFIER => "CP_ROE_RESPONSE_CANIDENTIFIER",
            ParamName::CP_USE_TIMING_RECEIVED_FROM_ECU => "CP_USE_TIMING_RECEIVED_FROM_ECU",
            ParamName::CP_STMIN_SUG => "CP_STMIN_SUG",
            ParamName::CP_BLOCKSIZE_SUG => "CP_BLOCKSIZE_SUG",
            ParamName::CP_P2_TIMEOUT => "CP_P2_TIMEOUT",
            ParamName::CP_S3_TP_PHYS_TIMER => "CP_S3_TP_PHYS_TIMER",
            ParamName::CP_S3_TP_FUNC_TIMER => "CP_S3_TP_FUNC_TIMER",
            ParamName::CP_BR_SUG => "CP_BR_SUG",
            ParamName::CP_CAN_TRANSMIT => "CP_CAN_TRANSMIT",
            ParamName::CP_BS_MAX => "CP_BS_MAX",
            ParamName::CP_CS_MAX => "CP_CS_MAX",
            ParamName::CPI_ROUTINECOUNTER => "CPI_ROUTINECOUNTER",
            ParamName::CP_REQREPCOUNT => "CP_REQREPCOUNT",
            ParamName::CP_P2_EXT_TIMEOUT_7F_78 => "CP_P2_EXT_TIMEOUT_7F_78",
            ParamName::CP_P2_EXT_TIMEOUT_7F_21 => "CP_P2_EXT_TIMEOUT_7F_21",
            ParamName::UNKNOWN => "UNKNOWN",
        }
    }
}

/// Ghost form of one decoded communication parameter.
#[verifier::ext_equal]
pub ghost struct ComParameterModel {
    pub param_index: int,
    pub unk3: int,
    pub sub_iface_index: int,
    pub unk5: int,
    pub unk_ctf: int,
    pub phrase: int,
    pub dump_size: int,
    pub dump: Seq<u8>,
    pub com_param_value: int,
    pub com_param_name: Seq<char>,
    pub base_addr: int,
}

/// One named configuration value of an interface binding. The raw dump is
/// kept beside the decoded 32-bit value; the value is meaningful only
/// because construction insists the dump is exactly four bytes.
#[derive(Debug, Clone)]
pub struct ComParameter {
    pub param_index: i32,
    pub unk3: i32,
    pub sub_iface_index: i32,
    pub unk5: i32,
    pub unk_ctf: i32,
    pub phrase: i32,
    pub dump_size: i32,
    pub dump: Vec<u8>,
    pub com_param_value: i32,
    pub com_param_name: String,
    pub base_addr: i64,
}

impl View for ComParameter {
    type V = ComParameterModel;

    open spec fn view(&self) -> ComParameterModel {
        ComParameterModel {
            param_index: self.param_index as int,
            unk3: self.unk3 as int,
            sub_iface_index: self.sub_iface_index as int,
            unk5: self.unk5 as int,
            unk_ctf: self.unk_ctf as int,
            phrase: self.phrase as int,
            dump_size: self.dump_size as int,
            dump: self.dump@,
            com_param_value: self.com_param_value as int,
            com_param_name: self.com_param_name@,
            base_addr: self.base_addr as int,
        }
    }
}

/// The whole decode of one communication parameter at `base`, against the
/// owning interface's name table: the record and the cursor after its last
/// header field, or the terminal fault. The dump must be exactly four bytes
/// (no other width decodes), and the stored index must resolve inside the
/// name table.
pub open spec fn sp_com_parameter(s: Seq<u8>, base: int, names: Seq<Seq<char>>) -> Result<
    (ComParameterModel, int),
    DecodeError,
> {
    if !(0 <= base <= usize::MAX) {
        Err(DecodeError::OutOfBounds)
    } else if base + 2 > s.len() {
        Err(DecodeError::OutOfBounds)
    } else {
        let mask0 = le16_at(s, base) as u64;
        match sflag_i16(s, base + 2, mask0, 0) {
            Err(e) => Err(e),
            Ok((param_index, p1, m1)) => match sflag_i16(s, p1, m1, 0) {
                Err(e) => Err(e),
                Ok((unk3, p2, m2)) => match sflag_i16(s, p2, m2, 0) {
                    Err(e) => Err(e),
                    Ok((sub_iface_index, p3, m3)) => match sflag_i16(s, p3, m3, 0) {
                        Err(e) => Err(e),
                        Ok((unk5, p4, m4)) => match sflag_i32(s, p4, m4, 0) {
                            Err(e) => Err(e),
                            Ok((unk_ctf, p5, m5)) => match sflag_i16(s, p5, m5, 0) {
                                Err(e) => Err(e),
                                Ok((phrase, p6, m6)) => match sflag_i32(s, p6, m6, 0) {
                                    Err(e) => Err(e),
                                    Ok((dump_size, p7, m7)) => match sflag_dump(
                                        s,
                                        p7,
                                        m7,
                                        dump_size,
                                        base,
                                    ) {
                                        Err(e) => Err(e),
                                        Ok((dump_opt, p8, _m8)) => {
                                            if dump_opt is None {
                                                Err(DecodeError::SchemaViolation)
                                            } else if dump_size != 4 {
                                                Err(DecodeError::SchemaViolation)
                                            } else if !(0 <= param_index < names.len()) {
                                                Err(DecodeError::ReferenceOutOfRange)
                                            } else {
                                                Ok(
                                                    (
                                                        ComParameterModel {
                                                            param_index,
                                                            unk3,
                                                            sub_iface_index,
                                                            unk5,
                                                            unk_ctf,
                                                            phrase,
                                                            dump_size,
                                                            dump: dump_opt->0,
                                                            com_param_value: to_signed32(
                                                                le32_at(dump_opt->0, 0),
                                                            ),
                                                            com_param_name: names[param_index],
                                                            base_addr: base,
                                                        },
                                                        p8,
                                                    ),
                                                )
                                            }
                                        },
                                    },
                                },
                            },
                        },
                    },
                },
            },
        }
    }
}

impl ComParameter {
    /// Decode one communication parameter at `base_addr`. The parameter's
    /// stored index must resolve inside the parent interface's name table
    /// (a construction invariant), and its dump must be exactly four bytes:
    /// every other width is a terminal fault, with no narrower fallback.
    pub fn new(reader: &mut Reader, base_addr: i64, parent_iface: &ECUInterface) -> (r: Result<
        ComParameter,
        DecodeError,
    >)
        ensures
            final(reader).bytes() == old(reader).bytes(),
            match sp_com_parameter(
                old(reader).bytes(),
                base_addr as int,
                parent_iface.com_parameters.deep_view(),
            ) {
                Ok((m, p)) => r is Ok && r->Ok_0@ == m && final(reader).pos() == p,
                Err(e) => r == Err::<ComParameter, DecodeError>(e),
            },
            r is Ok ==> 0 <= r->Ok_0.param_index < parent_iface.com_parameters@.len(),
            r is Ok ==> r->Ok_0.dump_size == 4 && r->Ok_0.dump@.len() == 4,
    {
        reader.seek_addr(base_addr as i128)?;
        let seed = reader.read_u16()?;
        let mut bitflags: u64 = seed as u64;

        let param_index = read_bitflag_i16(&mut bitflags, reader, 0)? as i32;
        let unk3 = read_bitflag_i16(&mut bitflags, reader, 0)? as i32;
        let sub_iface_index = read_bitflag_i16(&mut bitflags, reader, 0)? as i32;
        let unk5 = read_bitflag_i16(&mut bitflags, reader, 0)? as i32;
        let unk_ctf = read_bitflag_i32(&mut bitflags, reader, 0)?;
        let phrase = read_bitflag_i16(&mut bitflags, reader, 0)? as i32;
        let dump_size = read_bitflag_i32(&mut bitflags, reader, 0)?;
        let dump = match read_bitflag_dump(&mut bitflags, reader, dump_size, base_addr)? {
            Some(d) => d,
            None => {
                return Err(DecodeError::SchemaViolation);
            },
        };

        if dump_size != 4 {
            return Err(DecodeError::SchemaViolation);
        }
        let com_param_value = reconstruct_i32(&dump);

        if param_index < 0 || param_index as usize >= parent_iface.com_parameters.len() {
            return Err(DecodeError::ReferenceOutOfRange);
        }
        let com_param_name = parent_iface.com_parameters[param_index as usize].clone();

        Ok(
            ComParameter {
                param_index,
                unk3,
                sub_iface_index,
                unk5,
                unk_ctf,
                phrase,
                dump_size,
                dump,
                com_param_value,
                com_param_name,
                base_addr,
            },
        )
    }
}

/// The little-endian signed 32-bit value of a four-byte dump.
fn reconstruct_i32(dump: &Vec<u8>) -> (r: i32)
    requires
        dump@.len() == 4,
    ensures
        r == to_signed32(le32_at(dump@, 0)),
{
    let v: u32 = dump[0] as u32 + 0x100 * (dump[1] as u32) + 0x10000 * (dump[2] as u32) + 0x1000000
        * (dump[3] as u32);
    if v < 0x80000000 {
        v as i32
    } else {
        -((0xffffffffu32 - v) as i32) - 1
    }
}

} // verus!
