//! The table of contents: fixed-width records of eight bytes, one per member,
//! which say where in the archive the member's bytes lie and under which name
//! they are written.

use crate::cipher::{decrypt_toc, decrypted_toc, padding_is_zero, verify_decrypt};
use crate::names::{get_file_name, resolved_name};
use byteorder::{ByteOrder, LittleEndian};
use std::collections::HashMap;
use vstd::prelude::*;

verus! {

/// Number of bytes in one record of the table of contents.
pub const RECORD_LEN: usize = 8;

/// Largest offset that the three offset bytes of a record can hold.
pub const MAX_OFFSET: u32 = 0xFF_FFFF;

/// One record of the table of contents, with its display name resolved.
#[derive(Clone, Debug)]
pub struct TocItem {
    /// Key into the table of display names. Two records may share one.
    pub file_id: u16,
    /// Where the member begins, counted in bytes from the start of the
    /// archive. It is a 24-bit number.
    pub file_offset: u32,
    /// Number of bytes in the member.
    pub file_length: u16,
    /// Decrypts to zero in a sound archive. It carries no data.
    pub padding_byte: u8,
    /// Name under which the member is written.
    pub file_name: String,
}

/// What a [`TocItem`] holds, as plain values.
pub struct TocEntry {
    pub file_id: u16,
    pub file_offset: u32,
    pub file_length: u16,
    pub padding_byte: u8,
    pub file_name: Seq<char>,
}

impl View for TocItem {
    type V = TocEntry;

    open spec fn view(&self) -> TocEntry {
        TocEntry {
            file_id: self.file_id,
            file_offset: self.file_offset,
            file_length: self.file_length,
            padding_byte: self.padding_byte,
            file_name: self.file_name@,
        }
    }
}

impl TocItem {
    /// The offset fits in 24 bits.
    pub open spec fn well_formed(&self) -> bool {
        self.file_offset <= MAX_OFFSET
    }
}

impl Default for TocItem {
    /// The record of all zeros, with an empty name.
    fn default() -> (item: TocItem)
        ensures
            item@ == (TocEntry {
                file_id: 0,
                file_offset: 0,
                file_length: 0,
                padding_byte: 0,
                file_name: Seq::empty(),
            }),
    {
        TocItem {
            file_id: 0,
            file_offset: 0,
            file_length: 0,
            padding_byte: 0,
            file_name: String::new(),
        }
    }
}

/// Why a table of contents could not be decoded.
#[derive(Clone, Copy, Debug, PartialEq, Eq, Structural)]
pub enum TocError {
    /// The buffer holds fewer than eight bytes per declared member.
    Truncated,
    /// A padding byte did not decrypt to zero: the archive is corrupt, or it
    /// is no archive of this format.
    BadPadding,
}

/// The views of a sequence of items, in order.
pub open spec fn toc_entries(items: Seq<TocItem>) -> Seq<TocEntry> {
    items.map_values(|item: TocItem| item@)
}

/// The little-endian number that two bytes spell.
pub open spec fn le_u16(bytes: Seq<u8>) -> int {
    bytes[0] + 256 * bytes[1]
}

/// The little-endian number that three bytes spell.
pub open spec fn le_u24(bytes: Seq<u8>) -> int {
    bytes[0] + 256 * bytes[1] + 65536 * bytes[2]
}

/// The record with the given index in a decrypted table of contents.
pub open spec fn record_at(toc: Seq<u8>, index: int) -> Seq<u8> {
    toc.subrange(8 * index, 8 * index + 8)
}

/// The entry that one decrypted record of eight bytes spells: id in bytes 0
/// and 1, offset in bytes 2 to 4, length in bytes 5 and 6, all little-endian,
/// and the padding in byte 7. The name is that of the id under `file_names`.
pub open spec fn parsed_record(record: Seq<u8>, file_names: Map<u32, String>) -> TocEntry {
    let file_id = le_u16(record.subrange(0, 2)) as u16;
    TocEntry {
        file_id,
        file_offset: le_u24(record.subrange(2, 5)) as u32,
        file_length: le_u16(record.subrange(5, 7)) as u16,
        padding_byte: record[7],
        file_name: resolved_name(file_id, file_names),
    }
}

/// The entries that the first `file_count` records of a decrypted table of
/// contents spell.
pub open spec fn parsed_toc(toc: Seq<u8>, file_count: nat, file_names: Map<u32, String>) -> Seq<
    TocEntry,
> {
    Seq::new(file_count, |i: int| parsed_record(record_at(toc, i), file_names))
}

/// What decoding the raw table of contents of `file_count` members gives: an
/// error where the buffer is too short or where the padding of its first
/// `file_count` records does not decrypt to zero, else the entries.
pub open spec fn decoded_toc(
    raw_toc_bytes: Seq<u8>,
    file_count: nat,
    file_names: Map<u32, String>,
) -> Result<Seq<TocEntry>, TocError> {
    let plain = decrypted_toc(raw_toc_bytes.take(8 * file_count as int));
    if raw_toc_bytes.len() < 8 * file_count {
        Err(TocError::Truncated)
    } else if !padding_is_zero(plain) {
        Err(TocError::BadPadding)
    } else {
        Ok(parsed_toc(plain, file_count, file_names))
    }
}

/// What a call of [`decode_toc`] returned, with the items taken by their
/// views.
pub open spec fn toc_outcome(result: Result<Vec<TocItem>, TocError>) -> Result<
    Seq<TocEntry>,
    TocError,
> {
    match result {
        Ok(toc_items) => Ok(toc_entries(toc_items@)),
        Err(error) => Err(error),
    }
}

/// `byteorder::ByteOrder::read_u16` of `byteorder::LittleEndian`: the number
/// that the first two bytes of `buf` spell, the first the low one. It panics
/// on a shorter slice, which the precondition leaves out.
#[verifier::external_body]
pub(crate) fn read_u16_le(buf: &[u8]) -> (value: u16)
    requires
        buf@.len() >= 2,
    ensures
        value == le_u16(buf@),
{
    LittleEndian::read_u16(buf)
}

/// `byteorder::ByteOrder::read_u24` of `byteorder::LittleEndian`: the number
/// that the first three bytes of `buf` spell, the first the lowest, as a
/// `u32`. It panics on a shorter slice, which the precondition leaves out.
#[verifier::external_body]
fn read_u24_le(buf: &[u8]) -> (value: u32)
    requires
        buf@.len() >= 3,
    ensures
        value == le_u24(buf@),
{
    LittleEndian::read_u24(buf)
}

/// Parses one decrypted record and resolves its name.
pub fn read_record(record: &[u8], file_names: &HashMap<u32, String>) -> (item: TocItem)
    requires
        record@.len() == 8,
    ensures
        item@ == parsed_record(record@, file_names@),
        item.well_formed(),
{
    let file_id: u16 = read_u16_le(&record[0..2]);
    let file_offset: u32 = read_u24_le(&record[2..5]);
    let file_length: u16 = read_u16_le(&record[5..7]);
    let padding_byte: u8 = record[7];
    let file_name = get_file_name(file_id, file_names);
    TocItem { file_id, file_offset, file_length, padding_byte, file_name }
}

/// Parses the first `file_count` records of a decrypted table of contents.
pub fn read_toc(
    file_count: u16,
    table_of_content: Vec<u8>,
    file_names: &HashMap<u32, String>,
) -> (toc_items: Vec<TocItem>)
    requires
        table_of_content.len() >= 8 * file_count,
    ensures
        toc_items.len() == file_count,
        toc_entries(toc_items@) == parsed_toc(
            table_of_content@,
            file_count as nat,
            file_names@,
        ),
        forall|i: int| 0 <= i < toc_items.len() ==> #[trigger] toc_items[i].well_formed(),
{
    let mut toc_items: Vec<TocItem> = Vec::new();
    let mut i: u16 = 0;
    while i < file_count
        invariant
            i <= file_count,
            table_of_content.len() >= 8 * file_count,
            toc_items.len() == i,
            forall|j: int|
                0 <= j < i ==> (#[trigger] toc_items[j])@ == parsed_record(
                    record_at(table_of_content@, j),
                    file_names@,
                ),
            forall|j: int| 0 <= j < i ==> #[trigger] toc_items[j].well_formed(),
        decreases file_count - i,
    {
        let start: usize = RECORD_LEN * (i as usize);
        let item = read_record(&table_of_content[start..start + RECORD_LEN], file_names);
        toc_items.push(item);
        i += 1;
    }
    assert(toc_entries(toc_items@) =~= parsed_toc(
        table_of_content@,
        file_count as nat,
        file_names@,
    ));
    toc_items
}

/// Decodes the raw table of contents of an archive of `file_count` members:
/// checks that the buffer holds eight bytes for each, takes the cipher off
/// those bytes, checks the padding of every record, and parses the records.
/// Bytes after the last record are not looked at.
pub fn decode_toc(
    raw_toc_bytes: Vec<u8>,
    file_count: u16,
    file_names: &HashMap<u32, String>,
) -> (result: Result<Vec<TocItem>, TocError>)
    ensures
        toc_outcome(result) == decoded_toc(raw_toc_bytes@, file_count as nat, file_names@),
        result matches Ok(toc_items) ==> {
            &&& toc_items.len() == file_count
            &&& forall|i: int| 0 <= i < toc_items.len() ==> #[trigger] toc_items[i].well_formed()
        },
{
    let toc_len: usize = RECORD_LEN * (file_count as usize);
    if raw_toc_bytes.len() < toc_len {
        return Err(TocError::Truncated);
    }
    let mut encrypted = raw_toc_bytes;
    encrypted.truncate(toc_len);
    assert(encrypted@ =~= raw_toc_bytes@.take(8 * file_count as int));
    let plain = decrypt_toc(encrypted);
    if !verify_decrypt(&plain) {
        return Err(TocError::BadPadding);
    }
    Ok(read_toc(file_count, plain, file_names))
}

} // verus!
