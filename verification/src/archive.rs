//! The whole pipeline on an archive held in memory: header, table of
//! contents, extraction, and decryption of the members.

use crate::members::{
    decrypt_files, decrypted_members, extract_files, extracted_members, members, CcFile, Member,
};
use crate::toc::{
    decode_toc, decoded_toc, le_u16, read_u16_le, toc_entries, TocEntry, TocError, TocItem,
    RECORD_LEN,
};
use std::collections::HashMap;
use vstd::prelude::*;
use vstd::slice::slice_to_vec;

verus! {

/// Number of bytes in the header, which holds the member count.
pub const HEADER_LEN: usize = 2;

/// Why an archive could not be unpacked. Each of these ends the run: nothing
/// is extracted from an archive whose table of contents cannot be trusted.
#[derive(Clone, Copy, Debug, PartialEq, Eq, Structural)]
pub enum ArchiveError {
    /// The archive is shorter than its two-byte header.
    MissingHeader,
    /// The table of contents is cut short or does not decrypt.
    Toc(TocError),
}

/// What unpacking an archive gives: its table of contents, and one decrypted
/// member for each entry, in the same order.
#[derive(Clone, Debug)]
pub struct Unpacked {
    pub toc_items: Vec<TocItem>,
    pub cc_files: Vec<CcFile>,
}

/// The member count that the header of `archive` declares.
pub open spec fn file_count(archive: Seq<u8>) -> nat {
    le_u16(archive.subrange(0, 2)) as nat
}

/// What an [`Unpacked`] holds, as plain values.
pub struct Contents {
    pub entries: Seq<TocEntry>,
    pub files: Seq<Member>,
}

impl View for Unpacked {
    type V = Contents;

    open spec fn view(&self) -> Contents {
        Contents { entries: toc_entries(self.toc_items@), files: members(self.cc_files@) }
    }
}

/// What unpacking `archive` gives under the name table `file_names`. The
/// member count is the little-endian number in the first two bytes, and the
/// table of contents follows it. The members are read at offsets counted from
/// the first byte of the archive, and decrypted.
pub open spec fn unpacked(archive: Seq<u8>, file_names: Map<u32, String>) -> Result<
    Contents,
    ArchiveError,
> {
    if archive.len() < 2 {
        Err(ArchiveError::MissingHeader)
    } else {
        match decoded_toc(archive.skip(2), file_count(archive), file_names) {
            Err(error) => Err(ArchiveError::Toc(error)),
            Ok(entries) => Ok(
                Contents {
                    entries,
                    files: decrypted_members(extracted_members(archive, entries)),
                },
            ),
        }
    }
}

/// What a call of [`unpack_archive`] returned, with the contents taken by
/// their view.
pub open spec fn unpack_outcome(result: Result<Unpacked, ArchiveError>) -> Result<
    Contents,
    ArchiveError,
> {
    match result {
        Ok(contents) => Ok(contents@),
        Err(error) => Err(error),
    }
}

/// Reads the member count that an archive begins with: the little-endian
/// number in its first two bytes. An archive of fewer bytes has none.
pub fn read_file_count(archive: &[u8]) -> (count: Option<u16>)
    ensures
        match count {
            Some(declared) => archive@.len() >= 2 && declared == file_count(archive@),
            None => archive@.len() < 2,
        },
{
    if archive.len() < HEADER_LEN {
        None
    } else {
        Some(read_u16_le(&archive[0..HEADER_LEN]))
    }
}

/// Unpacks an archive held in memory. A short header and a table of contents
/// that is cut short or fails its padding check are errors, and nothing is
/// extracted then. An entry whose bytes do not lie within the archive is no
/// error: it leaves the empty member in its place.
pub fn unpack_archive(archive: &Vec<u8>, file_names: &HashMap<u32, String>) -> (result: Result<
    Unpacked,
    ArchiveError,
>)
    ensures
        unpack_outcome(result) == unpacked(archive@, file_names@),
        result matches Ok(contents) ==> {
            &&& contents.cc_files.len() == contents.toc_items.len()
            &&& forall|i: int|
                0 <= i < contents.toc_items.len() ==> #[trigger] contents.toc_items[i].well_formed()
        },
{
    let file_count: u16 = match read_file_count(archive.as_slice()) {
        Some(declared) => declared,
        None => {
            return Err(ArchiveError::MissingHeader);
        },
    };
    let toc_len: usize = RECORD_LEN * (file_count as usize);
    let rest_len: usize = archive.len() - HEADER_LEN;
    let raw_len: usize = if rest_len < toc_len {
        rest_len
    } else {
        toc_len
    };
    let raw_toc_bytes = slice_to_vec(&archive[HEADER_LEN..HEADER_LEN + raw_len]);
    assert(raw_toc_bytes@.take(8 * file_count as int) =~= archive@.skip(2).take(
        8 * file_count as int,
    ));
    match decode_toc(raw_toc_bytes, file_count, file_names) {
        Err(error) => Err(ArchiveError::Toc(error)),
        Ok(toc_items) => {
            let cc_files = decrypt_files(extract_files(archive.as_slice(), &toc_items));
            Ok(Unpacked { toc_items, cc_files })
        },
    }
}

/// Only the header and the table of contents decide whether an archive
/// unpacks. Where both are sound the result is one member for each entry,
/// whatever the offsets and lengths in the entries say.
pub proof fn lemma_unpack_outlives_bad_entries(archive: Seq<u8>, file_names: Map<u32, String>)
    requires
        archive.len() >= 2,
        decoded_toc(archive.skip(2), file_count(archive), file_names) is Ok,
    ensures
        unpacked(archive, file_names) is Ok,
        unpacked(archive, file_names)->Ok_0.entries == decoded_toc(
            archive.skip(2),
            file_count(archive),
            file_names,
        )->Ok_0,
        unpacked(archive, file_names)->Ok_0.files.len() == unpacked(
            archive,
            file_names,
        )->Ok_0.entries.len(),
{
}

} // verus!
