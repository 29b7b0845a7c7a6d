//! The interface hierarchy: an `ECUInterface` is a named group of
//! communication-parameter definitions whose names are interned in a shared
//! string pool and reached through a pointer-to-pointer table; an
//! `ECUInterfaceSubType` is one concrete binding that instantiates those
//! named parameters with values.

use vstd::prelude::*;

verus! {

use crate::DecodeError;
use crate::str_eq;
use crate::params::{ComParameter, ComParameterModel, ParamName, spec_param_text};
use crate::reader::{Reader, le32_at, to_signed32, terminator_at, all_ascii, ascii_chars};
use crate::bitflag::{
    read_bitflag_u8, read_bitflag_i16, read_bitflag_i32, read_bitflag_string, mask_from_i32_seed,
    sign_extend32, sflag_u8, sflag_i16, sflag_i32, sflag_string,
};

/// Ghost form of one decoded interface.
#[verifier::ext_equal]
pub ghost struct ECUInterfaceModel {
    pub name: Option<Seq<char>>,
    pub name_ctf: int,
    pub desc_ctf: int,
    pub version: Option<Seq<char>>,
    pub com_param_count: int,
    pub com_param_list_offset: int,
    pub unk6: int,
    pub com_parameters: Seq<Seq<char>>,
    pub base_addr: int,
}

/// A named protocol-parameter group: its header and the resolved list of
/// communication-parameter names. Immutable once constructed.
#[derive(Debug, Clone)]
pub struct ECUInterface {
    pub name: Option<String>,
    pub name_ctf: i32,
    pub desc_ctf: i32,
    pub version: Option<String>,
    pub com_param_count: i32,
    pub com_param_list_offset: i32,
    pub unk6: i32,
    pub com_parameters: Vec<String>,
    pub base_addr: i64,
}

impl View for ECUInterface {
    type V = ECUInterfaceModel;

    open spec fn view(&self) -> ECUInterfaceModel {
        ECUInterfaceModel {
            name: match self.name {
                Some(n) => Some(n@),
                None => None,
            },
            name_ctf: self.name_ctf as int,
            desc_ctf: self.desc_ctf as int,
            version: match self.version {
                Some(v) => Some(v@),
                None => None,
            },
            com_param_count: self.com_param_count as int,
            com_param_list_offset: self.com_param_list_offset as int,
            unk6: self.unk6 as int,
            com_parameters: self.com_parameters.deep_view(),
            base_addr: self.base_addr as int,
        }
    }
}

/// One entry of an interface's name table: the table slot at
/// `foffset + 4 * idx` holds a relative pointer, and the name is the
/// null-terminated text at `foffset + pointer`.
pub open spec fn sp_iface_name_at(s: Seq<u8>, foffset: int, idx: int) -> Result<
    Seq<char>,
    DecodeError,
> {
    let slot = foffset + 4 * idx;
    if !(0 <= slot <= usize::MAX) {
        Err(DecodeError::OutOfBounds)
    } else if slot + 4 > s.len() {
        Err(DecodeError::OutOfBounds)
    } else {
        let target = foffset + to_signed32(le32_at(s, slot));
        if !(0 <= target <= usize::MAX) {
            Err(DecodeError::OutOfBounds)
        } else {
            let end = terminator_at(s, target);
            if end == s.len() {
                Err(DecodeError::OutOfBounds)
            } else if !all_ascii(s.subrange(target, end)) {
                Err(DecodeError::SchemaViolation)
            } else {
                Ok(ascii_chars(s.subrange(target, end)))
            }
        }
    }
}

/// The first `count` entries of the name table, in table order; the first
/// faulting entry aborts the whole decode.
pub open spec fn sp_iface_names(s: Seq<u8>, foffset: int, count: int) -> Result<
    Seq<Seq<char>>,
    DecodeError,
>
    decreases count,
{
    if count <= 0 {
        Ok(Seq::empty())
    } else {
        match sp_iface_names(s, foffset, count - 1) {
            Err(e) => Err(e),
            Ok(prefix) => match sp_iface_name_at(s, foffset, count - 1) {
                Err(e) => Err(e),
                Ok(name) => Ok(prefix.push(name)),
            },
        }
    }
}

/// An interface header with its name table attached, or the fault that the
/// table decode stopped on.
pub open spec fn sp_iface_with_names(
    hdr: ECUInterfaceModel,
    s: Seq<u8>,
    foffset: int,
    count: int,
) -> Result<ECUInterfaceModel, DecodeError> {
    match sp_iface_names(s, foffset, count) {
        Err(e) => Err(e),
        Ok(names) => Ok(ECUInterfaceModel { com_parameters: names, ..hdr }),
    }
}

/// A fault at one table entry is the fault of every longer prefix.
proof fn lemma_sp_iface_names_err(s: Seq<u8>, foffset: int, i: int, c: int, e: DecodeError)
    requires
        0 <= i < c,
        sp_iface_names(s, foffset, i) is Ok,
        sp_iface_name_at(s, foffset, i) == Err::<Seq<char>, DecodeError>(e),
    ensures
        sp_iface_names(s, foffset, c) == Err::<Seq<Seq<char>>, DecodeError>(e),
    decreases c,
{
    if c > i + 1 {
        lemma_sp_iface_names_err(s, foffset, i, c - 1, e);
    }
}

/// The header of one interface at `base`: every field before the name
/// table, which starts empty.
pub open spec fn sp_iface_header(s: Seq<u8>, base: int) -> Result<ECUInterfaceModel, DecodeError> {
    if !(0 <= base <= usize::MAX) {
        Err(DecodeError::OutOfBounds)
    } else if base + 4 > s.len() {
        Err(DecodeError::OutOfBounds)
    } else {
        let mask0 = sign_extend32(le32_at(s, base)) as u64;
        match sflag_string(s, base + 4, mask0, base) {
            Err(e) => Err(e),
            Ok((name, p1, m1)) => match sflag_i32(s, p1, m1, -1) {
                Err(e) => Err(e),
                Ok((name_ctf, p2, m2)) => match sflag_i32(s, p2, m2, -1) {
                    Err(e) => Err(e),
                    Ok((desc_ctf, p3, m3)) => match sflag_string(s, p3, m3, base) {
                        Err(e) => Err(e),
                        Ok((version, p4, m4)) => match sflag_i32(s, p4, m4, 0) {
                            Err(e) => Err(e),
                            Ok((_vcode, p5, m5)) => match sflag_i32(s, p5, m5, 0) {
                                Err(e) => Err(e),
                                Ok((com_param_count, p6, m6)) => match sflag_i32(s, p6, m6, 0) {
                                    Err(e) => Err(e),
                                    Ok((com_param_list_offset, p7, m7)) => match sflag_i32(
                                        s,
                                        p7,
                                        m7,
                                        0,
                                    ) {
                                        Err(e) => Err(e),
                                        Ok((unk6, _p8, _m8)) => Ok(
                                            ECUInterfaceModel {
                                                name,
                                                name_ctf,
                                                desc_ctf,
                                                version,
                                                com_param_count,
                                                com_param_list_offset,
                                                unk6,
                                                com_parameters: Seq::empty(),
                                                base_addr: base,
                                            },
                                        ),
                                    },
                                },
                            },
                        },
                    },
                },
            },
        }
    }
}

/// The whole decode of one interface at `base`: its header fields, then the
/// name table resolved through its pointer-to-pointer indirection.
pub open spec fn sp_ecu_interface(s: Seq<u8>, base: int) -> Result<ECUInterfaceModel, DecodeError> {
    match sp_iface_header(s, base) {
        Err(e) => Err(e),
        Ok(hdr) => sp_iface_with_names(
            hdr,
            s,
            hdr.com_param_list_offset + base,
            hdr.com_param_count,
        ),
    }
}

/// Resolve one name-table entry; `base + cplo` is the table's own base.
fn read_iface_name(reader: &mut Reader, base: i64, cplo: i32, idx: i32) -> (r: Result<
    String,
    DecodeError,
>)
    requires
        0 <= idx,
    ensures
        final(reader).bytes() == old(reader).bytes(),
        match sp_iface_name_at(old(reader).bytes(), base + cplo, idx as int) {
            Ok(t) => r is Ok && r->Ok_0@ == t,
            Err(e) => r == Err::<String, DecodeError>(e),
        },
{
    let foffset: i128 = base as i128 + cplo as i128;
    let slot: i128 = foffset + 4 * (idx as i128);
    reader.seek_addr(slot)?;
    let ptr = reader.read_i32()?;
    let target: i128 = foffset + ptr as i128;
    reader.seek_addr(target)?;
    let text = reader.read_string()?;
    Ok(text)
}

impl ECUInterface {
    /// Decode the header fields, leaving the name table empty.
    #[verifier::rlimit(100)]
    fn decode_header(reader: &mut Reader, base_addr: i64) -> (r: Result<
        ECUInterface,
        DecodeError,
    >)
        ensures
            final(reader).bytes() == old(reader).bytes(),
            match sp_iface_header(old(reader).bytes(), base_addr as int) {
                Ok(m) => r is Ok && r->Ok_0@ == m,
                Err(e) => r == Err::<ECUInterface, DecodeError>(e),
            },
    {
        reader.seek_addr(base_addr as i128)?;
        let seed = reader.read_u32()?;
        let mut bitflags: u64 = mask_from_i32_seed(seed);

        let name = read_bitflag_string(&mut bitflags, reader, base_addr)?;
        let name_ctf = read_bitflag_i32(&mut bitflags, reader, -1)?;
        let desc_ctf = read_bitflag_i32(&mut bitflags, reader, -1)?;
        let version = read_bitflag_string(&mut bitflags, reader, base_addr)?;
        let _vcode = read_bitflag_i32(&mut bitflags, reader, 0)?;
        let com_param_count = read_bitflag_i32(&mut bitflags, reader, 0)?;
        let com_param_list_offset = read_bitflag_i32(&mut bitflags, reader, 0)?;
        let unk6 = read_bitflag_i32(&mut bitflags, reader, 0)?;

        let iface = ECUInterface {
            name,
            name_ctf,
            desc_ctf,
            version,
            com_param_count,
            com_param_list_offset,
            unk6,
            com_parameters: Vec::new(),
            base_addr,
        };
        proof {
            assert(iface@ =~= sp_iface_header(old(reader).bytes(), base_addr as int)->Ok_0);
        }
        Ok(iface)
    }

    /// Decode one interface at `base_addr`: the conditional header, then one
    /// name per table entry, each reached by following a relative pointer
    /// out of the table into the shared string pool.
    pub fn new(reader: &mut Reader, base_addr: i64) -> (r: Result<ECUInterface, DecodeError>)
        ensures
            final(reader).bytes() == old(reader).bytes(),
            match sp_ecu_interface(old(reader).bytes(), base_addr as int) {
                Ok(m) => r is Ok && r->Ok_0@ == m,
                Err(e) => r == Err::<ECUInterface, DecodeError>(e),
            },
    {
        let ghost s = reader.bytes();
        let mut iface = ECUInterface::decode_header(reader, base_addr)?;
        let ghost hdr = iface@;
        let ghost foffset = hdr.com_param_list_offset + base_addr as int;

        let com_param_count = iface.com_param_count;
        let com_param_list_offset = iface.com_param_list_offset;
        let mut com_parameters: Vec<String> = Vec::new();
        proof {
            assert(com_parameters.deep_view() =~= Seq::<Seq<char>>::empty());
        }
        let mut i: i32 = 0;
        while i < com_param_count
            invariant
                reader.bytes() == old(reader).bytes(),
                s == old(reader).bytes(),
                0 <= i,
                com_param_count >= 0 ==> i <= com_param_count,
                com_param_count < 0 ==> i == 0,
                com_param_count == hdr.com_param_count,
                com_param_list_offset == hdr.com_param_list_offset,
                foffset == hdr.com_param_list_offset + base_addr as int,
                sp_iface_names(s, foffset, i as int) == Ok::<Seq<Seq<char>>, DecodeError>(
                    com_parameters.deep_view(),
                ),
                sp_ecu_interface(s, base_addr as int) == sp_iface_with_names(
                    hdr,
                    s,
                    foffset,
                    com_param_count as int,
                ),
            decreases com_param_count - i,
        {
            match read_iface_name(reader, base_addr, com_param_list_offset, i) {
                Ok(text) => {
                    com_parameters.push(text);
                    proof {
                        assert(com_parameters.deep_view() =~= sp_iface_names(
                            s,
                            foffset,
                            i as int,
                        )->Ok_0.push(text@));
                    }
                },
                Err(e) => {
                    proof {
                        lemma_sp_iface_names_err(s, foffset, i as int, com_param_count as int, e);
                    }
                    return Err(e);
                },
            }
            i = i + 1;
        }

        iface.com_parameters = com_parameters;
        proof {
            assert(iface@ =~= (ECUInterfaceModel {
                com_parameters: sp_iface_names(s, foffset, com_param_count as int)->Ok_0,
                ..hdr
            }));
        }
        Ok(iface)
    }
}

/// Ghost form of one decoded sub-interface binding.
#[verifier::ext_equal]
pub ghost struct ECUInterfaceSubTypeModel {
    pub name: Seq<char>,
    pub name_ctf: int,
    pub desc_ctf: int,
    pub base_addr: int,
    pub index: int,
    pub unk3: int,
    pub unk4: int,
    pub unk5: int,
    pub unk6: int,
    pub unk7: int,
    pub unk8: int,
    pub unk9: int,
    pub unk10: int,
    pub com_params: Seq<ComParameterModel>,
}

/// One concrete binding of an interface: its header, and the ordered
/// communication parameters that instantiate the parent interface's named
/// definitions.
#[derive(Debug, Clone)]
pub struct ECUInterfaceSubType {
    pub name: String,
    pub name_ctf: i32,
    pub desc_ctf: i32,
    pub base_addr: i64,
    pub index: i32,
    pub unk3: i32,
    pub unk4: i32,
    pub unk5: i32,
    pub unk6: i32,
    pub unk7: i32,
    pub unk8: i32,
    pub unk9: i32,
    pub unk10: i32,
    pub com_params: Vec<ComParameter>,
}

impl View for ECUInterfaceSubType {
    type V = ECUInterfaceSubTypeModel;

    open spec fn view(&self) -> ECUInterfaceSubTypeModel {
        ECUInterfaceSubTypeModel {
            name: self.name@,
            name_ctf: self.name_ctf as int,
            desc_ctf: self.desc_ctf as int,
            base_addr: self.base_addr as int,
            index: self.index as int,
            unk3: self.unk3 as int,
            unk4: self.unk4 as int,
            unk5: self.unk5 as int,
            unk6: self.unk6 as int,
            unk7: self.unk7 as int,
            unk8: self.unk8 as int,
            unk9: self.unk9 as int,
            unk10: self.unk10 as int,
            com_params: Seq::new(self.com_params@.len(), |i: int| self.com_params@[i]@),
        }
    }
}

/// The whole decode of one sub-interface header at `base`. A clear bit on
/// the name field leaves a required field missing, which is a schema fault.
/// The binding's parameter list starts empty; parameters are decoded against
/// the parent interface and added afterwards.
pub open spec fn sp_ecu_interface_subtype(s: Seq<u8>, base: int, index: int) -> Result<
    (ECUInterfaceSubTypeModel, int),
    DecodeError,
> {
    if !(0 <= base <= usize::MAX) {
        Err(DecodeError::OutOfBounds)
    } else if base + 4 > s.len() {
        Err(DecodeError::OutOfBounds)
    } else {
        let mask0 = le32_at(s, base) as u64;
        match sflag_string(s, base + 4, mask0, base) {
            Err(e) => Err(e),
            Ok((name, p1, m1)) => match sflag_i32(s, p1, m1, -1) {
                Err(e) => Err(e),
                Ok((name_ctf, p2, m2)) => match sflag_i32(s, p2, m2, -1) {
                    Err(e) => Err(e),
                    Ok((desc_ctf, p3, m3)) => match sflag_i16(s, p3, m3, 0) {
                        Err(e) => Err(e),
                        Ok((unk3, p4, m4)) => match sflag_i16(s, p4, m4, 0) {
                            Err(e) => Err(e),
                            Ok((unk4, p5, m5)) => match sflag_i32(s, p5, m5, 0) {
                                Err(e) => Err(e),
                                Ok((unk5, p6, m6)) => match sflag_i32(s, p6, m6, 0) {
                                    Err(e) => Err(e),
                                    Ok((unk6, p7, m7)) => match sflag_i32(s, p7, m7, 0) {
                                        Err(e) => Err(e),
                                        Ok((unk7, p8, m8)) => match sflag_u8(s, p8, m8, 0) {
                                            Err(e) => Err(e),
                                            Ok((unk8, p9, m9)) => match sflag_u8(s, p9, m9, 0) {
                                                Err(e) => Err(e),
                                                Ok((unk9, p10, m10)) => match sflag_u8(
                                                    s,
                                                    p10,
                                                    m10,
                                                    0,
                                                ) {
                                                    Err(e) => Err(e),
                                                    Ok((unk10, p11, _m11)) => match name {
                                                        None => Err(DecodeError::SchemaViolation),
                                                        Some(n) => Ok(
                                                            (
                                                                ECUInterfaceSubTypeModel {
                                                                    name: n,
                                                                    name_ctf,
                                                                    desc_ctf,
                                                                    base_addr: base,
                                                                    index,
                                                                    unk3,
                                                                    unk4,
                                                                    unk5,
                                                                    unk6,
                                                                    unk7,
                                                                    unk8,
                                                                    unk9,
                                                                    unk10,
                                                                    com_params: Seq::empty(),
                                                                },
                                                                p11,
                                                            ),
                                                        ),
                                                    },
                                                },
                                            },
                                        },
                                    },
                                },
                            },
                        },
                    },
                },
            },
        }
    }
}

/// Index of the first parameter bearing `name`, in decode order.
pub open spec fn sp_find_param(params: Seq<ComParameterModel>, name: Seq<char>) -> Option<int>
    decreases params.len(),
{
    if params.len() == 0 {
        None
    } else if params[0].com_param_name == name {
        Some(0)
    } else {
        match sp_find_param(params.drop_first(), name) {
            None => None,
            Some(i) => Some(i + 1),
        }
    }
}

/// What the first-match index means: the entry bears the name, nothing
/// before it does, and a `None` means nothing does at all.
pub proof fn lemma_sp_find_param(params: Seq<ComParameterModel>, name: Seq<char>)
    ensures
        match sp_find_param(params, name) {
            Some(i) => 0 <= i < params.len() && params[i].com_param_name == name && (forall|j: int|
                0 <= j < i ==> params[j].com_param_name != name),
            None => forall|j: int| 0 <= j < params.len() ==> params[j].com_param_name != name,
        },
    decreases params.len(),
{
    if params.len() > 0 && params[0].com_param_name != name {
        lemma_sp_find_param(params.drop_first(), name);
        assert(forall|j: int|
            0 <= j < params.drop_first().len() ==> params.drop_first()[j] == params[j + 1]);
        assert(forall|j: int|
            1 <= j < params.len() ==> #[trigger] params[j] == params.drop_first()[j - 1]);
    }
}

/// The first match is where the scan says it is.
proof fn lemma_sp_find_param_first(params: Seq<ComParameterModel>, name: Seq<char>, i: int)
    requires
        0 <= i < params.len(),
        params[i].com_param_name == name,
        forall|j: int| 0 <= j < i ==> params[j].com_param_name != name,
    ensures
        sp_find_param(params, name) == Some(i),
    decreases i,
{
    if i > 0 {
        assert(params[0].com_param_name != name);
        assert(forall|j: int|
            0 <= j < params.drop_first().len() ==> params.drop_first()[j] == params[j + 1]);
        assert(forall|j: int|
            1 <= j < params.len() ==> #[trigger] params[j] == params.drop_first()[j - 1]);
        lemma_sp_find_param_first(params.drop_first(), name, i - 1);
    }
}

/// A scan that saw no match yields none.
proof fn lemma_sp_find_param_none(params: Seq<ComParameterModel>, name: Seq<char>)
    requires
        forall|j: int| 0 <= j < params.len() ==> params[j].com_param_name != name,
    ensures
        sp_find_param(params, name) is None,
    decreases params.len(),
{
    if params.len() > 0 {
        assert(forall|j: int|
            0 <= j < params.drop_first().len() ==> params.drop_first()[j] == params[j + 1]);
        lemma_sp_find_param_none(params.drop_first(), name);
    }
}

impl ECUInterfaceSubType {
    /// Decode one sub-interface header at `base_addr`. Its parameter list
    /// starts empty.
    #[verifier::rlimit(100)]
    pub fn new(reader: &mut Reader, base_addr: i64, index: i32) -> (r: Result<
        ECUInterfaceSubType,
        DecodeError,
    >)
        ensures
            final(reader).bytes() == old(reader).bytes(),
            match sp_ecu_interface_subtype(old(reader).bytes(), base_addr as int, index as int) {
                Ok((m, p)) => r is Ok && r->Ok_0@ == m && final(reader).pos() == p,
                Err(e) => r == Err::<ECUInterfaceSubType, DecodeError>(e),
            },
    {
        reader.seek_addr(base_addr as i128)?;
        let seed = reader.read_u32()?;
        let mut bitflags: u64 = seed as u64;

        let name_opt = read_bitflag_string(&mut bitflags, reader, base_addr)?;
        let name_ctf = read_bitflag_i32(&mut bitflags, reader, -1)?;
        let desc_ctf = read_bitflag_i32(&mut bitflags, reader, -1)?;
        let unk3 = read_bitflag_i16(&mut bitflags, reader, 0)? as i32;
        let unk4 = read_bitflag_i16(&mut bitflags, reader, 0)? as i32;
        let unk5 = read_bitflag_i32(&mut bitflags, reader, 0)?;
        let unk6 = read_bitflag_i32(&mut bitflags, reader, 0)?;
        let unk7 = read_bitflag_i32(&mut bitflags, reader, 0)?;
        let unk8 = read_bitflag_u8(&mut bitflags, reader, 0)? as i32;
        let unk9 = read_bitflag_u8(&mut bitflags, reader, 0)? as i32;
        let unk10 = read_bitflag_u8(&mut bitflags, reader, 0)? as i32;

        let name = match name_opt {
            Some(n) => n,
            None => {
                return Err(DecodeError::SchemaViolation);
            },
        };

        Ok(
            ECUInterfaceSubType {
                name,
                name_ctf,
                desc_ctf,
                base_addr,
                index,
                unk3,
                unk4,
                unk5,
                unk6,
                unk7,
                unk8,
                unk9,
                unk10,
                com_params: Vec::new(),
            },
        )
    }

    /// Add one decoded parameter to the binding.
    pub fn push_com_param(&mut self, param: ComParameter)
        ensures
            final(self)@ == (ECUInterfaceSubTypeModel {
                com_params: old(self)@.com_params.push(param@),
                ..old(self)@
            }),
    {
        self.com_params.push(param);
        proof {
            assert(final(self)@.com_params =~= old(self)@.com_params.push(param@));
            assert(final(self)@ =~= (ECUInterfaceSubTypeModel {
                com_params: old(self)@.com_params.push(param@),
                ..old(self)@
            }));
        }
    }

    /// The first parameter bearing `name`, when the binding has one.
    pub fn get_com_param(&self, name: &str) -> (r: Option<&ComParameter>)
        ensures
            match sp_find_param(self@.com_params, name@) {
                Some(i) => r is Some && (*r->0)@ == self@.com_params[i],
                None => r is None,
            },
            (r is Some) <==> (exists|j: int|
                0 <= j < self@.com_params.len() && self@.com_params[j].com_param_name == name@),
    {
        proof {
            lemma_sp_find_param(self@.com_params, name@);
        }
        let mut idx: usize = 0;
        while idx < self.com_params.len()
            invariant
                idx <= self.com_params@.len(),
                self@.com_params.len() == self.com_params@.len(),
                forall|j: int| 0 <= j < idx ==> self@.com_params[j].com_param_name != name@,
            decreases self.com_params@.len() - idx,
        {
            if str_eq(self.com_params[idx].com_param_name.as_str(), name) {
                proof {
                    lemma_sp_find_param_first(self@.com_params, name@, idx as int);
                    assert((idx as int) < self@.com_params.len()
                        && self@.com_params[idx as int].com_param_name == name@);
                }
                return Some(&self.com_params[idx]);
            }
            idx = idx + 1;
        }
        proof {
            lemma_sp_find_param_none(self@.com_params, name@);
        }
        None
    }

    /// The decoded 32-bit value of the first parameter bearing `name`, or
    /// `None` when the binding has no such parameter: a missing optional
    /// parameter is an outcome, not a fault.
    pub fn get_com_param_value(&self, name: ParamName) -> (r: Option<i32>)
        ensures
            match sp_find_param(self@.com_params, spec_param_text(name)) {
                Some(i) => r is Some && r->0 == self@.com_params[i].com_param_value,
                None => r is None,
            },
    {
        match self.get_com_param(name.as_text()) {
            Some(p) => Some(p.com_param_value),
            None => None,
        }
    }

    /// Write the value of the first parameter bearing `name` into `result`
    /// and report whether one was found; a miss writes zero.
    pub fn get_com_param_value_res(&self, name: ParamName, result: &mut i32) -> (r: bool)
        ensures
            match sp_find_param(self@.com_params, spec_param_text(name)) {
                Some(i) => r && *final(result) == self@.com_params[i].com_param_value,
                None => !r && *final(result) == 0,
            },
    {
        match self.get_com_param(name.as_text()) {
            Some(p) => {
                *result = p.com_param_value;
                true
            },
            None => {
                *result = 0;
                false
            },
        }
    }
}

} // verus!
