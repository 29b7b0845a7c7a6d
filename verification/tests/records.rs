use cbf_parser::DecodeError;
use cbf_parser::container::CFFHeader;
use cbf_parser::ecu::{ECU, block};
use cbf_parser::iface::{ECUInterface, ECUInterfaceSubType};
use cbf_parser::params::{ComParameter, ParamName};
use cbf_parser::reader::Reader;
use cbf_parser::variant::{ECUVarient, ECUVarientPattern};

fn test_interface(names: Vec<&str>) -> ECUInterface {
    ECUInterface {
        name: None,
        name_ctf: -1,
        desc_ctf: -1,
        version: None,
        com_param_count: names.len() as i32,
        com_param_list_offset: 0,
        unk6: 0,
        com_parameters: names.into_iter().map(String::from).collect(),
        base_addr: 0,
    }
}

/// Bytes of one communication parameter: index bit, dump-size bit and dump
/// bit set; everything else defaulted.
fn com_param_bytes(param_index: i16, dump_size: i32, dump: &[u8]) -> Vec<u8> {
    let mut data = vec![0xc1u8, 0x00]; // mask: param_index, dump_size, dump
    data.extend_from_slice(&param_index.to_le_bytes());
    data.extend_from_slice(&dump_size.to_le_bytes());
    data.extend_from_slice(&12i32.to_le_bytes()); // dump payload offset
    data.extend_from_slice(dump);
    data
}

#[test]
fn com_parameter_resolves_name_and_value() {
    let iface = test_interface(vec!["CP_BAUDRATE", "CP_P2_TIMEOUT"]);
    let mut r = Reader::new(com_param_bytes(1, 4, &[0x32, 0x00, 0x00, 0x00]));
    let cp = ComParameter::new(&mut r, 0, &iface).unwrap();
    assert_eq!(cp.param_index, 1);
    assert_eq!(cp.com_param_name, "CP_P2_TIMEOUT");
    assert_eq!(cp.com_param_value, 50);
    assert_eq!(cp.dump, vec![0x32, 0x00, 0x00, 0x00]);
}

#[test]
fn com_parameter_dump_width_other_than_four_fails() {
    let iface = test_interface(vec!["CP_BAUDRATE", "CP_P2_TIMEOUT"]);
    let mut r = Reader::new(com_param_bytes(1, 2, &[0x32, 0x00]));
    assert_eq!(
        ComParameter::new(&mut r, 0, &iface).err(),
        Some(DecodeError::SchemaViolation)
    );
    let mut r8 = Reader::new(com_param_bytes(0, 8, &[1, 2, 3, 4, 5, 6, 7, 8]));
    assert_eq!(
        ComParameter::new(&mut r8, 0, &iface).err(),
        Some(DecodeError::SchemaViolation)
    );
}

#[test]
fn com_parameter_index_outside_name_table_fails() {
    let iface = test_interface(vec!["CP_BAUDRATE", "CP_P2_TIMEOUT"]);
    let mut r = Reader::new(com_param_bytes(5, 4, &[0, 0, 0, 0]));
    assert_eq!(
        ComParameter::new(&mut r, 0, &iface).err(),
        Some(DecodeError::ReferenceOutOfRange)
    );
}

#[test]
fn sub_interface_lookup_by_symbol() {
    let iface = test_interface(vec!["CP_BAUDRATE", "CP_P2_TIMEOUT"]);
    let mut r = Reader::new(com_param_bytes(1, 4, &[0x32, 0x00, 0x00, 0x00]));
    let cp = ComParameter::new(&mut r, 0, &iface).unwrap();

    let mut sub = ECUInterfaceSubType {
        name: String::from("HSCAN"),
        name_ctf: -1,
        desc_ctf: -1,
        base_addr: 0,
        index: 0,
        unk3: 0,
        unk4: 0,
        unk5: 0,
        unk6: 0,
        unk7: 0,
        unk8: 0,
        unk9: 0,
        unk10: 0,
        com_params: Vec::new(),
    };
    sub.push_com_param(cp);

    assert_eq!(sub.get_com_param_value(ParamName::CP_P2_TIMEOUT), Some(50));
    assert_eq!(sub.get_com_param_value(ParamName::CP_BAUDRATE), None);
    assert!(sub.get_com_param("CP_P2_TIMEOUT").is_some());

    let mut out: i32 = 99;
    assert!(sub.get_com_param_value_res(ParamName::CP_P2_TIMEOUT, &mut out));
    assert_eq!(out, 50);
    assert!(!sub.get_com_param_value_res(ParamName::CP_STMIN_SUG, &mut out));
    assert_eq!(out, 0);
}

#[test]
fn interface_decodes_unrecognized_name() {
    // Mask: com_param_count and com_param_list_offset present.
    let mut data = Vec::new();
    data.extend_from_slice(&0x60u32.to_le_bytes());
    data.extend_from_slice(&1i32.to_le_bytes()); // one name
    data.extend_from_slice(&12i32.to_le_bytes()); // table at base + 12
    data.extend_from_slice(&4i32.to_le_bytes()); // slot: string at table + 4
    data.extend_from_slice(b"CP_FOOBAR\0");
    let mut r = Reader::new(data);
    let iface = ECUInterface::new(&mut r, 0).unwrap();
    assert_eq!(iface.com_param_count, 1);
    assert_eq!(iface.com_parameters, vec![String::from("CP_FOOBAR")]);
    // The name is outside the closed set, mapped but not rejected.
    assert_eq!(ParamName::from_string(&iface.com_parameters[0]), ParamName::UNKNOWN);
}

#[test]
fn sub_interface_header_decode() {
    let mut data = Vec::new();
    data.extend_from_slice(&1u32.to_le_bytes()); // mask: name only
    data.extend_from_slice(&8i32.to_le_bytes()); // name at base + 8
    data.extend_from_slice(b"SUB1\0");
    let mut r = Reader::new(data);
    let sub = ECUInterfaceSubType::new(&mut r, 0, 3).unwrap();
    assert_eq!(sub.name, "SUB1");
    assert_eq!(sub.index, 3);
    assert_eq!(sub.name_ctf, -1);
    assert_eq!(sub.unk5, 0);
    assert!(sub.com_params.is_empty());
}

#[test]
fn block_offset_is_raw_plus_base() {
    let mut data = Vec::new();
    data.extend_from_slice(&0x20i32.to_le_bytes()); // raw offset
    data.extend_from_slice(&3i32.to_le_bytes());
    data.extend_from_slice(&16i32.to_le_bytes());
    data.extend_from_slice(&999i32.to_le_bytes());
    let mut r = Reader::new(data);
    let mut mask: u64 = 0b1111;
    let b = block::new(&mut r, &mut mask, 0x400).unwrap();
    assert_eq!(b.block_offset, 0x420);
    assert_eq!(b.entry_count, 3);
    assert_eq!(b.entry_size, 16);
    assert_eq!(b.block_size, 999);
}

#[test]
fn pool_read_is_count_times_entry_size() {
    // The stored total size says 999; the pool is still count * entry_size.
    let blk = block { block_offset: 4, entry_count: 3, entry_size: 16, block_size: 999 };
    let mut data = vec![0u8; 4];
    for i in 0..48 {
        data.push(i as u8);
    }
    data.push(0xff);
    let mut r = Reader::new(data);
    let pool = ECU::read_ecu_pool(&mut r, &blk).unwrap();
    assert_eq!(pool.len(), 48);
    assert_eq!(pool[0], 0);
    assert_eq!(pool[47], 47);
}

/// A variant slice with only the VC-domain count and offset present, whose
/// pointer table holds the given entries at slice offset 16.
fn variant_slice(entries: [i32; 2]) -> Vec<u8> {
    let mut s = Vec::new();
    s.extend_from_slice(&0xc00000u32.to_le_bytes()); // mask: vc count + offset
    s.extend_from_slice(&0i32.to_le_bytes()); // skipped word
    s.extend_from_slice(&2i32.to_le_bytes()); // vc_domains_count
    s.extend_from_slice(&0x10i32.to_le_bytes()); // vc_domains_offset
    s.extend_from_slice(&entries[0].to_le_bytes());
    s.extend_from_slice(&entries[1].to_le_bytes());
    s
}

#[test]
fn sibling_variants_resolve_offsets_in_their_own_slices() {
    let mut data = vec![0u8; 224];
    data.splice(100..124, variant_slice([0x111, 0x222]));
    data.splice(200..224, variant_slice([0x333, 0x444]));
    let mut r = Reader::new(data);

    let a = ECUVarient::new(&mut r, 100, 24).unwrap();
    let b = ECUVarient::new(&mut r, 200, 24).unwrap();

    // Both variants carry the same relative pointer...
    assert_eq!(a.vc_domains_offset, 0x10);
    assert_eq!(b.vc_domains_offset, 0x10);
    // ...but each resolved it against its own byte range.
    assert_eq!(a.vc_domain_pool_offsets, vec![0x111, 0x222]);
    assert_eq!(b.vc_domain_pool_offsets, vec![0x333, 0x444]);
    assert!(a.vc_domains.is_empty());
    assert!(a.varient_patterns.is_empty());
    assert!(a.diag_services.is_empty());
}

#[test]
fn variant_diag_table_sized_by_its_own_count() {
    // Only the diagnostic-service count and offset are present; the
    // VC-domain count stays zero, so its table must stay empty while the
    // diagnostic-service table holds exactly one entry.
    let mut s = Vec::new();
    s.extend_from_slice(&0xc000u32.to_le_bytes()); // mask: ds count + offset
    s.extend_from_slice(&0i32.to_le_bytes()); // skipped word
    s.extend_from_slice(&1i32.to_le_bytes()); // diag_services_count
    s.extend_from_slice(&0x10i32.to_le_bytes()); // diag_services_offset
    s.extend_from_slice(&0x77i32.to_le_bytes()); // the one table entry
    let mut r = Reader::new(s);
    let v = ECUVarient::new(&mut r, 0, 20).unwrap();
    assert_eq!(v.diag_services_count, 1);
    assert_eq!(v.vc_domains_count, 0);
    assert_eq!(v.diag_services_pool_offsets, vec![0x77]);
    assert!(v.vc_domain_pool_offsets.is_empty());
    // The decode consumed exactly the variant's slice.
    assert_eq!(r.position(), 20);
}

#[test]
fn variant_pattern_decode() {
    let mut data = Vec::new();
    // Mask: the fixed five-byte buffer and the variant identifier.
    data.extend_from_slice(&0x808000u32.to_le_bytes());
    data.extend_from_slice(&12i32.to_le_bytes()); // buffer at base + 12
    data.extend_from_slice(&0x1234i32.to_le_bytes()); // variant_id
    data.extend_from_slice(&[1, 2, 3, 4, 5]);
    let mut r = Reader::new(data);
    let p = ECUVarientPattern::new(&mut r, 0).unwrap();
    assert_eq!(p.unk_16, vec![1, 2, 3, 4, 5]);
    assert_eq!(p.variant_id, 0x1234);
    assert_eq!(p.vendor_name, None);
    assert!(p.unk_buffer.is_empty());
}

#[test]
fn variant_pattern_missing_fixed_buffer_fails() {
    let mut data = Vec::new();
    data.extend_from_slice(&0x800000u32.to_le_bytes()); // variant_id only
    data.extend_from_slice(&0x1234i32.to_le_bytes());
    let mut r = Reader::new(data);
    assert_eq!(
        ECUVarientPattern::new(&mut r, 0).err(),
        Some(DecodeError::SchemaViolation)
    );
}

/// A minimal whole-ECU image: name, version and class strings present,
/// every table and pool empty.
fn ecu_image() -> Vec<u8> {
    let mut data = vec![0u8; 1100];
    let mask_low: u32 = (1 << 0) | (1 << 3) | (1 << 8);
    data.splice(0..4, mask_low.to_le_bytes());
    // extension (two bytes) and skipped word stay zero
    data.splice(10..14, 600i32.to_le_bytes()); // name offset
    data.splice(14..18, 620i32.to_le_bytes()); // xml version offset
    data.splice(18..22, 640i32.to_le_bytes()); // class name offset
    data.splice(600..608, *b"TESTECU\0");
    data.splice(620..624, *b"1.0\0");
    data.splice(640..649, *b"ECUCLASS\0");
    data
}

#[test]
fn ecu_decode_minimal_image() {
    let header = CFFHeader { size_of_str_pool: 0, cff_header_size: 0 };
    let mut r = Reader::new(ecu_image());
    let ecu = ECU::new(&mut r, &header, 0).unwrap();
    assert_eq!(ecu.name, "TESTECU");
    assert_eq!(ecu.xml_version, "1.0");
    assert_eq!(ecu.ecu_class_name, "ECUCLASS");
    assert_eq!(ecu.unk_str7, "N/A");
    assert_eq!(ecu.unk_str8, "Unknown");
    // Every block is defaulted, so each offset is the data-section base:
    // string pool 0 + stub header 0x410 + container header 0 + 4.
    assert_eq!(ecu.ecuvarient.block_offset, 0x414);
    assert_eq!(ecu.diagjob.block_offset, 0x414);
    assert_eq!(ecu.diagjob.entry_count, 0);
    assert!(ecu.ecu_ifaces.is_empty());
    assert!(ecu.ecu_ifaces_subtype.is_empty());
    assert!(ecu.ecu_varient.is_empty());
    assert!(ecu.diag_services.is_empty());
}

#[test]
fn ecu_missing_name_is_schema_violation() {
    let mut data = ecu_image();
    // Clear the name bit: only version and class remain.
    let mask_low: u32 = (1 << 3) | (1 << 8);
    data.splice(0..4, mask_low.to_le_bytes());
    // Field offsets shift: xml version now first, class second.
    data.splice(10..14, 620i32.to_le_bytes());
    data.splice(14..18, 640i32.to_le_bytes());
    let header = CFFHeader { size_of_str_pool: 0, cff_header_size: 0 };
    let mut r = Reader::new(data);
    assert_eq!(ECU::new(&mut r, &header, 0).err(), Some(DecodeError::SchemaViolation));
}

#[test]
fn decoding_twice_yields_equal_graphs() {
    let header = CFFHeader { size_of_str_pool: 0, cff_header_size: 0 };
    let mut r1 = Reader::new(ecu_image());
    let mut r2 = Reader::new(ecu_image());
    let e1 = ECU::new(&mut r1, &header, 0).unwrap();
    let e2 = ECU::new(&mut r2, &header, 0).unwrap();
    assert_eq!(format!("{:?}", e1), format!("{:?}", e2));
}
