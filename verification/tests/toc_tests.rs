use std::collections::HashMap;

use xeen_cc::cipher::encrypt_toc;
use xeen_cc::names::get_file_name;
use xeen_cc::toc::{
    decode_toc, read_record, read_toc, TocError, TocItem, MAX_OFFSET, RECORD_LEN,
};

fn table() -> HashMap<u32, String> {
    let mut names: HashMap<u32, String> = HashMap::new();
    names.insert(1, String::from("MAZE0001.DAT"));
    names.insert(0x1234, String::from("SPELLS.XEN"));
    names.insert(70000, String::from("OUT_OF_REACH"));
    names
}

#[test]
fn toc_constants() {
    assert_eq!(RECORD_LEN, 8);
    assert_eq!(MAX_OFFSET, 16_777_215);
}

#[test]
fn record_fields_sit_at_their_offsets() {
    let item = read_record(&[0x01, 0x00, 0x00, 0x00, 0x00, 0x10, 0x00, 0x00], &HashMap::new());
    assert_eq!(item.file_id, 1);
    assert_eq!(item.file_offset, 0);
    assert_eq!(item.file_length, 16);
    assert_eq!(item.padding_byte, 0);
    assert_eq!(item.file_name, "UNKNOWN_FILE1");
}

#[test]
fn record_fields_are_little_endian() {
    let item = read_record(&[0x34, 0x12, 0x56, 0x34, 0x12, 0xCD, 0xAB, 0x7F], &table());
    assert_eq!(item.file_id, 0x1234);
    assert_eq!(item.file_offset, 0x12_3456);
    assert_eq!(item.file_length, 0xABCD);
    assert_eq!(item.padding_byte, 0x7F);
    assert_eq!(item.file_name, "SPELLS.XEN");
}

#[test]
fn record_of_all_ones() {
    let item = read_record(&[0xFF; 8], &table());
    assert_eq!(item.file_id, 65535);
    assert_eq!(item.file_offset, MAX_OFFSET);
    assert_eq!(item.file_length, 65535);
    assert_eq!(item.padding_byte, 255);
    assert_eq!(item.file_name, "UNKNOWN_FILE65535");
}

#[test]
fn read_toc_two_entries() {
    let toc: Vec<u8> = vec![
        0x01, 0x00, 0x00, 0x00, 0x00, 0x10, 0x00, 0x00, //
        0x02, 0x00, 0x10, 0x00, 0x00, 0x20, 0x00, 0x00,
    ];
    let items = read_toc(2, toc, &table());
    assert_eq!(items.len(), 2);
    assert_eq!(items[0].file_id, 1);
    assert_eq!(items[0].file_offset, 0);
    assert_eq!(items[0].file_length, 16);
    assert_eq!(items[0].padding_byte, 0);
    assert_eq!(items[0].file_name, "MAZE0001.DAT");
    assert_eq!(items[1].file_id, 2);
    assert_eq!(items[1].file_offset, 16);
    assert_eq!(items[1].file_length, 32);
    assert_eq!(items[1].padding_byte, 0);
    assert_eq!(items[1].file_name, "UNKNOWN_FILE2");
}

#[test]
fn read_toc_reads_only_the_declared_records() {
    let toc: Vec<u8> = vec![
        0x01, 0x00, 0x00, 0x00, 0x00, 0x10, 0x00, 0x00, //
        0x02, 0x00, 0x10, 0x00, 0x00, 0x20, 0x00, 0x00,
    ];
    let items = read_toc(1, toc.clone(), &table());
    assert_eq!(items.len(), 1);
    assert_eq!(items[0].file_id, 1);
    assert_eq!(read_toc(0, toc, &table()).len(), 0);
    assert_eq!(read_toc(0, Vec::new(), &table()).len(), 0);
}

#[test]
fn equal_ids_give_equal_names() {
    let toc: Vec<u8> = vec![
        0x01, 0x00, 0x00, 0x00, 0x00, 0x10, 0x00, 0x00, //
        0x01, 0x00, 0x10, 0x00, 0x00, 0x20, 0x00, 0x00,
    ];
    let items = read_toc(2, toc, &table());
    assert_eq!(items[0].file_name, items[1].file_name);
    assert_eq!(items[1].file_offset, 16);
}

#[test]
fn default_item_is_all_zero() {
    let item = TocItem::default();
    assert_eq!(item.file_id, 0);
    assert_eq!(item.file_offset, 0);
    assert_eq!(item.file_length, 0);
    assert_eq!(item.padding_byte, 0);
    assert_eq!(item.file_name, "");
}

#[test]
fn decode_toc_decrypts_and_parses() {
    let plain: Vec<u8> = vec![
        0x01, 0x00, 0x12, 0x00, 0x00, 0x10, 0x00, 0x00, //
        0x34, 0x12, 0x22, 0x00, 0x01, 0x20, 0x00, 0x00,
    ];
    let raw = encrypt_toc(plain);
    let items = decode_toc(raw, 2, &table()).unwrap();
    assert_eq!(items.len(), 2);
    assert_eq!(items[0].file_id, 1);
    assert_eq!(items[0].file_offset, 0x12);
    assert_eq!(items[0].file_length, 16);
    assert_eq!(items[0].file_name, "MAZE0001.DAT");
    assert_eq!(items[1].file_id, 0x1234);
    assert_eq!(items[1].file_offset, 0x01_0022);
    assert_eq!(items[1].file_length, 32);
    assert_eq!(items[1].file_name, "SPELLS.XEN");
}

#[test]
fn decode_toc_of_no_members() {
    assert_eq!(decode_toc(Vec::new(), 0, &table()).unwrap().len(), 0);
    // Bytes after the last record are not looked at.
    assert_eq!(decode_toc(vec![0xFF; 9], 0, &table()).unwrap().len(), 0);
}

#[test]
fn decode_toc_ignores_bytes_after_the_last_record() {
    let plain: Vec<u8> = vec![0x01, 0x00, 0x12, 0x00, 0x00, 0x10, 0x00, 0x00];
    let mut raw = encrypt_toc(plain);
    raw.extend_from_slice(&[0xFF; 8]);
    let items = decode_toc(raw, 1, &table()).unwrap();
    assert_eq!(items.len(), 1);
    assert_eq!(items[0].file_offset, 0x12);
}

#[test]
fn decode_toc_rejects_a_short_buffer() {
    let raw = encrypt_toc(vec![0u8; 15]);
    assert_eq!(decode_toc(raw, 2, &table()).unwrap_err(), TocError::Truncated);
    assert_eq!(decode_toc(Vec::new(), 1, &table()).unwrap_err(), TocError::Truncated);
    assert_eq!(decode_toc(vec![0u8; 7], 1, &table()).unwrap_err(), TocError::Truncated);
}

#[test]
fn decode_toc_rejects_bad_padding() {
    let mut plain = vec![0u8; 16];
    plain[15] = 1;
    let raw = encrypt_toc(plain);
    assert_eq!(decode_toc(raw, 2, &table()).unwrap_err(), TocError::BadPadding);
    // Bytes that were never encrypted do not decrypt to zero padding.
    assert_eq!(decode_toc(vec![0u8; 8], 1, &table()).unwrap_err(), TocError::BadPadding);
}

#[test]
fn decode_toc_checks_length_before_padding() {
    // Too short and unsound: the length is what is reported.
    assert_eq!(decode_toc(vec![0u8; 12], 2, &table()).unwrap_err(), TocError::Truncated);
}

#[test]
fn known_id_resolves_to_its_name() {
    assert_eq!(get_file_name(1, &table()), "MAZE0001.DAT");
    assert_eq!(get_file_name(0x1234, &table()), "SPELLS.XEN");
}

#[test]
fn unknown_id_falls_back_to_generated_name() {
    assert_eq!(get_file_name(2, &table()), "UNKNOWN_FILE2");
    assert_eq!(get_file_name(0, &table()), "UNKNOWN_FILE0");
    assert_eq!(get_file_name(9, &table()), "UNKNOWN_FILE9");
    assert_eq!(get_file_name(10, &table()), "UNKNOWN_FILE10");
    assert_eq!(get_file_name(307, &table()), "UNKNOWN_FILE307");
    assert_eq!(get_file_name(4660, &HashMap::new()), "UNKNOWN_FILE4660");
    assert_eq!(get_file_name(10000, &table()), "UNKNOWN_FILE10000");
    assert_eq!(get_file_name(65535, &table()), "UNKNOWN_FILE65535");
}

#[test]
fn ids_are_looked_up_as_16_bit_numbers() {
    // 70000 is 4464 modulo 65536: no 16-bit id reaches the entry.
    assert_eq!(get_file_name(4464, &table()), "UNKNOWN_FILE4464");
}
