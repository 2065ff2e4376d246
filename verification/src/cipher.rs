//! The two ciphers of the container: the stateful stream cipher that protects
//! the table of contents, and the constant-key XOR that protects each member.

use vstd::prelude::*;

verus! {

/// Value of the running counter before the first byte of the table of contents.
pub const TOC_COUNTER_START: u8 = 0xAC;

/// Amount by which the counter advances after every byte, wrapping at 256.
pub const TOC_COUNTER_STEP: u8 = 0x67;

/// Key of the member cipher.
pub const MEMBER_KEY: u8 = 0x35;

/// Circular left shift of a byte by two bits.
pub open spec fn rotate_left_2(b: u8) -> u8 {
    (b << 2) | (b >> 6)
}

/// Circular right shift of a byte by two bits.
pub open spec fn rotate_right_2(b: u8) -> u8 {
    (b >> 2) | (b << 6)
}

/// The counter that the table-of-contents cipher applies to the byte at `index`.
pub open spec fn toc_counter(index: int) -> u8 {
    ((0xAC + 0x67 * index) % 256) as u8
}

/// Plain value of the encrypted byte `b` found at `index` of the table of contents.
pub open spec fn decrypt_toc_byte(b: u8, index: int) -> u8 {
    ((rotate_left_2(b) + toc_counter(index)) % 256) as u8
}

/// Encrypted value of the plain byte `b` that belongs at `index` of the table of contents.
pub open spec fn encrypt_toc_byte(b: u8, index: int) -> u8 {
    rotate_right_2(((b - toc_counter(index)) % 256) as u8)
}

/// The table of contents `encrypted` with the stream cipher taken off.
pub open spec fn decrypted_toc(encrypted: Seq<u8>) -> Seq<u8> {
    Seq::new(encrypted.len(), |i: int| decrypt_toc_byte(encrypted[i], i))
}

/// The table of contents `plain` with the stream cipher put on.
pub open spec fn encrypted_toc(plain: Seq<u8>) -> Seq<u8> {
    Seq::new(plain.len(), |i: int| encrypt_toc_byte(plain[i], i))
}

/// Every eighth byte, the last of each record, is zero.
pub open spec fn padding_is_zero(toc: Seq<u8>) -> bool {
    forall|i: int| 0 <= i < toc.len() && i % 8 == 7 ==> toc[i] == 0
}

/// The bytes of a member with the member cipher applied. The cipher is its
/// own inverse, so this is both directions.
pub open spec fn member_cipher(bytes: Seq<u8>) -> Seq<u8> {
    Seq::new(bytes.len(), |i: int| bytes[i] ^ MEMBER_KEY)
}

proof fn lemma_rotations_cancel(b: u8)
    by (bit_vector)
    ensures
        ((((b << 2) | (b >> 6)) >> 2) | (((b << 2) | (b >> 6)) << 6)) == b,
        ((((b >> 2) | (b << 6)) << 2) | (((b >> 2) | (b << 6)) >> 6)) == b,
{
}

proof fn lemma_member_key_cancels(b: u8)
    by (bit_vector)
    ensures
        (b ^ 0x35u8) ^ 0x35u8 == b,
{
}

proof fn lemma_counter_step(index: int)
    requires
        0 <= index,
    ensures
        toc_counter(index + 1) == (toc_counter(index) + 0x67) % 256,
{
}

/// Takes the stream cipher off a table of contents: each byte is rotated left
/// by two bits and the running counter is added, modulo 256.
pub fn decrypt_toc(table_of_content: Vec<u8>) -> (decrypted: Vec<u8>)
    ensures
        decrypted@ == decrypted_toc(table_of_content@),
{
    let mut toc = table_of_content;
    let mut counter: u8 = TOC_COUNTER_START;
    let mut i: usize = 0;
    while i < toc.len()
        invariant
            i <= toc.len(),
            toc.len() == table_of_content.len(),
            counter == toc_counter(i as int),
            forall|j: int| 0 <= j < i ==> toc[j] == decrypt_toc_byte(table_of_content[j], j),
            forall|j: int| i <= j < toc.len() ==> toc[j] == table_of_content[j],
        decreases toc.len() - i,
    {
        let el: u8 = toc[i];
        let rotated: u8 = (el << 2) | (el >> 6);
        toc.set(i, rotated.wrapping_add(counter));
        proof {
            lemma_counter_step(i as int);
        }
        counter = counter.wrapping_add(TOC_COUNTER_STEP);
        i += 1;
    }
    assert(toc@ =~= decrypted_toc(table_of_content@));
    toc
}

/// Puts the stream cipher on a plain table of contents: the running counter is
/// subtracted from each byte, modulo 256, and the result rotated right by two bits.
pub fn encrypt_toc(table_of_content: Vec<u8>) -> (encrypted: Vec<u8>)
    ensures
        encrypted@ == encrypted_toc(table_of_content@),
{
    let mut toc = table_of_content;
    let mut counter: u8 = TOC_COUNTER_START;
    let mut i: usize = 0;
    while i < toc.len()
        invariant
            i <= toc.len(),
            toc.len() == table_of_content.len(),
            counter == toc_counter(i as int),
            forall|j: int| 0 <= j < i ==> toc[j] == encrypt_toc_byte(table_of_content[j], j),
            forall|j: int| i <= j < toc.len() ==> toc[j] == table_of_content[j],
        decreases toc.len() - i,
    {
        let el: u8 = toc[i].wrapping_sub(counter);
        toc.set(i, (el >> 2) | (el << 6));
        proof {
            lemma_counter_step(i as int);
        }
        counter = counter.wrapping_add(TOC_COUNTER_STEP);
        i += 1;
    }
    assert(toc@ =~= encrypted_toc(table_of_content@));
    toc
}

/// Tells whether a decrypted table of contents is sound: the padding byte of
/// every record, at indices 7, 15, 23 and so on, must be zero.
pub fn verify_decrypt(table_of_contents: &Vec<u8>) -> (ok: bool)
    ensures
        ok == padding_is_zero(table_of_contents@),
{
    let len: usize = table_of_contents.len();
    let mut i: usize = 7;
    while i < len
        invariant
            len == table_of_contents.len(),
            i % 8 == 7,
            forall|j: int| 0 <= j < i && j < len && j % 8 == 7 ==> table_of_contents[j] == 0,
        decreases len - i,
    {
        if table_of_contents[i] != 0 {
            return false;
        }
        if len - i <= 8 {
            return true;
        }
        i += 8;
    }
    true
}

/// Takes the member cipher off the bytes of one member, into a fresh buffer.
pub fn decrypt_member(file_bytes: &[u8]) -> (decrypted: Vec<u8>)
    ensures
        decrypted@ == member_cipher(file_bytes@),
{
    let mut bytes: Vec<u8> = Vec::new();
    let mut i: usize = 0;
    while i < file_bytes.len()
        invariant
            i <= file_bytes.len(),
            bytes.len() == i,
            forall|j: int| 0 <= j < i ==> bytes[j] == file_bytes[j] ^ MEMBER_KEY,
        decreases file_bytes.len() - i,
    {
        bytes.push(file_bytes[i] ^ MEMBER_KEY);
        i += 1;
    }
    assert(bytes@ =~= member_cipher(file_bytes@));
    bytes
}

/// Puts the member cipher on plain bytes. XOR with a constant undoes itself,
/// so this is the same transform as [`decrypt_member`].
pub fn encrypt_member(file_bytes: &[u8]) -> (encrypted: Vec<u8>)
    ensures
        encrypted@ == member_cipher(file_bytes@),
{
    decrypt_member(file_bytes)
}

/// The table-of-contents cipher is a bijection on byte sequences of every
/// length: decrypting and then encrypting gives the input back, and so does
/// encrypting and then decrypting.
pub proof fn lemma_toc_cipher_round_trip(bytes: Seq<u8>)
    ensures
        encrypted_toc(decrypted_toc(bytes)) == bytes,
        decrypted_toc(encrypted_toc(bytes)) == bytes,
{
    assert forall|i: int| 0 <= i < bytes.len() implies encrypt_toc_byte(
        decrypt_toc_byte(bytes[i], i),
        i,
    ) == bytes[i] && decrypt_toc_byte(encrypt_toc_byte(bytes[i], i), i) == bytes[i] by {
        lemma_toc_byte_round_trip(bytes[i], i);
    }
    assert(encrypted_toc(decrypted_toc(bytes)) =~= bytes);
    assert(decrypted_toc(encrypted_toc(bytes)) =~= bytes);
}

proof fn lemma_toc_byte_round_trip(b: u8, index: int)
    ensures
        encrypt_toc_byte(decrypt_toc_byte(b, index), index) == b,
        decrypt_toc_byte(encrypt_toc_byte(b, index), index) == b,
{
    let c = toc_counter(index);
    let r = rotate_left_2(b);
    assert(((((r + c) % 256) as u8 - c) % 256) as u8 == r);
    lemma_rotations_cancel(b);
    let d = ((b - c) % 256) as u8;
    lemma_rotations_cancel(d);
    assert(((d + c) % 256) as u8 == b);
}

/// A table of contents that decrypts to zero bytes only, of any length,
/// passes the padding check.
pub proof fn lemma_encrypted_zeros_verify(len: nat)
    ensures
        padding_is_zero(decrypted_toc(encrypted_toc(Seq::new(len, |i: int| 0u8)))),
{
    lemma_toc_cipher_round_trip(Seq::new(len, |i: int| 0u8));
}

/// A decrypted table of contents with a padding byte that is not zero fails
/// the padding check, wherever that byte stands.
pub proof fn lemma_corrupt_padding_fails(toc: Seq<u8>, index: int)
    requires
        0 <= index < toc.len(),
        index % 8 == 7,
        toc[index] != 0,
    ensures
        !padding_is_zero(toc),
{
}

/// The member cipher undoes itself on byte sequences of every length.
pub proof fn lemma_member_cipher_round_trip(bytes: Seq<u8>)
    ensures
        member_cipher(member_cipher(bytes)) == bytes,
{
    assert forall|i: int| 0 <= i < bytes.len() implies (bytes[i] ^ MEMBER_KEY) ^ MEMBER_KEY
        == bytes[i] by {
        lemma_member_key_cancels(bytes[i]);
    }
    assert(member_cipher(member_cipher(bytes)) =~= bytes);
}

} // verus!
