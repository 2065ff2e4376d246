//! The members of an archive: cutting their bytes out of the archive as the
//! table of contents directs, and taking the member cipher off them.

use crate::cipher::{decrypt_member, member_cipher};
use crate::toc::{toc_entries, TocEntry, TocItem, MAX_OFFSET};
use vstd::prelude::*;
use vstd::slice::slice_to_vec;

verus! {

/// One member of an archive: the name it is written under, and its bytes.
#[derive(Clone, Debug)]
pub struct CcFile {
    pub file_name: String,
    pub file_bytes: Vec<u8>,
}

/// What a [`CcFile`] holds, as plain values.
pub struct Member {
    pub file_name: Seq<char>,
    pub file_bytes: Seq<u8>,
}

impl View for CcFile {
    type V = Member;

    open spec fn view(&self) -> Member {
        Member { file_name: self.file_name@, file_bytes: self.file_bytes@ }
    }
}

impl Default for CcFile {
    /// The member without a name and without bytes.
    fn default() -> (cc_file: CcFile)
        ensures
            cc_file@ == empty_member(),
    {
        CcFile { file_name: String::new(), file_bytes: Vec::new() }
    }
}

/// The views of a sequence of members, in order.
pub open spec fn members(cc_files: Seq<CcFile>) -> Seq<Member> {
    cc_files.map_values(|cc_file: CcFile| cc_file@)
}

/// The member without a name and without bytes, which stands in the place of
/// an entry that could not be read.
pub open spec fn empty_member() -> Member {
    Member { file_name: Seq::empty(), file_bytes: Seq::empty() }
}

/// The bytes that `entry` names lie within an archive of `archive_len` bytes.
pub open spec fn in_bounds(archive_len: nat, entry: TocEntry) -> bool {
    entry.file_offset + entry.file_length <= archive_len
}

/// What reading `entry` out of `archive` gives: its name and the bytes from
/// its offset on, as many as its length says, where they lie within the
/// archive, else the empty member. The offset counts from the first byte of
/// the archive.
pub open spec fn extracted_member(archive: Seq<u8>, entry: TocEntry) -> Member {
    if in_bounds(archive.len(), entry) {
        Member {
            file_name: entry.file_name,
            file_bytes: archive.subrange(
                entry.file_offset as int,
                entry.file_offset + entry.file_length,
            ),
        }
    } else {
        empty_member()
    }
}

/// What reading each of `entries` out of `archive` gives, entry by entry.
pub open spec fn extracted_members(archive: Seq<u8>, entries: Seq<TocEntry>) -> Seq<Member> {
    entries.map_values(|entry: TocEntry| extracted_member(archive, entry))
}

/// The member with the cipher taken off its bytes.
pub open spec fn decrypted_member(member: Member) -> Member {
    Member { file_name: member.file_name, file_bytes: member_cipher(member.file_bytes) }
}

/// Each of `members_in` with the cipher taken off its bytes.
pub open spec fn decrypted_members(members_in: Seq<Member>) -> Seq<Member> {
    members_in.map_values(|member: Member| decrypted_member(member))
}

/// `ux::u24::new` and then `u64::from` on the `ux::u24` it made: the offset
/// as a 24-bit number, widened to a position in the archive. The value does
/// not change on the way. `new` panics on a number that does not fit in 24
/// bits, which the precondition leaves out.
#[verifier::external_body]
fn seek_position(file_offset: u32) -> (position: u64)
    requires
        file_offset <= MAX_OFFSET,
    ensures
        position == file_offset,
{
    u64::from(ux::u24::new(file_offset))
}

/// Tells whether the bytes that `item` names lie within an archive of
/// `archive_len` bytes.
pub fn entry_in_bounds(archive_len: usize, item: &TocItem) -> (ok: bool)
    requires
        item.well_formed(),
    ensures
        ok == in_bounds(archive_len as nat, item@),
{
    let start: u64 = seek_position(item.file_offset);
    start + item.file_length as u64 <= archive_len as u64
}

/// Reads one member out of the archive. An entry whose bytes do not lie
/// within the archive gives the empty member.
pub fn extract_file(archive: &[u8], item: &TocItem) -> (cc_file: CcFile)
    requires
        item.well_formed(),
    ensures
        cc_file@ == extracted_member(archive@, item@),
{
    if entry_in_bounds(archive.len(), item) {
        let start: usize = item.file_offset as usize;
        let end: usize = start + item.file_length as usize;
        CcFile {
            file_name: item.file_name.clone(),
            file_bytes: slice_to_vec(&archive[start..end]),
        }
    } else {
        CcFile::default()
    }
}

/// Reads every member out of the archive, in the order of the table of
/// contents. Each entry is read on its own: one whose bytes do not lie within
/// the archive leaves the empty member in its place and does not disturb the
/// others.
pub fn extract_files(archive: &[u8], toc_items: &Vec<TocItem>) -> (cc_files: Vec<CcFile>)
    requires
        forall|i: int| 0 <= i < toc_items.len() ==> #[trigger] toc_items[i].well_formed(),
    ensures
        cc_files.len() == toc_items.len(),
        members(cc_files@) == extracted_members(archive@, toc_entries(toc_items@)),
{
    let mut cc_files: Vec<CcFile> = Vec::new();
    let mut i: usize = 0;
    while i < toc_items.len()
        invariant
            i <= toc_items.len(),
            cc_files.len() == i,
            forall|j: int| 0 <= j < toc_items.len() ==> #[trigger] toc_items[j].well_formed(),
            forall|j: int|
                0 <= j < i ==> (#[trigger] cc_files[j])@ == extracted_member(
                    archive@,
                    toc_items[j]@,
                ),
        decreases toc_items.len() - i,
    {
        cc_files.push(extract_file(archive, &toc_items[i]));
        i += 1;
    }
    assert(members(cc_files@) =~= extracted_members(archive@, toc_entries(toc_items@)));
    cc_files
}

/// Takes the member cipher off every member. Names stay as they are.
pub fn decrypt_files(cc_files: Vec<CcFile>) -> (decrypted: Vec<CcFile>)
    ensures
        decrypted.len() == cc_files.len(),
        members(decrypted@) == decrypted_members(members(cc_files@)),
{
    let mut decrypted: Vec<CcFile> = Vec::new();
    let mut i: usize = 0;
    while i < cc_files.len()
        invariant
            i <= cc_files.len(),
            decrypted.len() == i,
            forall|j: int|
                0 <= j < i ==> (#[trigger] decrypted[j])@ == decrypted_member(cc_files[j]@),
        decreases cc_files.len() - i,
    {
        let cc_file = &cc_files[i];
        decrypted.push(
            CcFile {
                file_name: cc_file.file_name.clone(),
                file_bytes: decrypt_member(cc_file.file_bytes.as_slice()),
            },
        );
        i += 1;
    }
    assert(members(decrypted@) =~= decrypted_members(members(cc_files@)));
    decrypted
}

/// Extraction goes entry by entry. The member at `index` is what its own
/// entry gives, so two tables of contents that agree on one entry give the
/// same member in its place, whatever their other entries say: an entry that
/// points outside the archive costs no other entry its member.
pub proof fn lemma_extraction_is_per_entry(
    archive: Seq<u8>,
    entries: Seq<TocEntry>,
    others: Seq<TocEntry>,
    index: int,
)
    requires
        0 <= index < entries.len(),
        0 <= index < others.len(),
        entries[index] == others[index],
    ensures
        extracted_members(archive, entries).len() == entries.len(),
        extracted_members(archive, entries)[index] == extracted_member(archive, entries[index]),
        extracted_members(archive, entries)[index] == extracted_members(archive, others)[index],
{
}

} // verus!
