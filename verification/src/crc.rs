//! The CRC-8 checksums that protect every word on the bus.
use crate::buffer::be_bytes;
use sensirion_i2c::crc8::Error as ChecksumError;
use vstd::prelude::*;

verus! {

/// The generator polynomial of the checksum, x^8 + x^5 + x^4 + 1.
pub const CRC8_POLYNOMIAL: u8 = 0x31;

/// One bit of CRC-8 division: shift the register left, and where a one
/// left it at the top, subtract (exclusive-or) the polynomial.
pub open spec fn crc8_shift(crc: u8) -> u8 {
    if crc & 0x80u8 != 0 {
        (crc << 1u8) ^ CRC8_POLYNOMIAL
    } else {
        crc << 1u8
    }
}

/// The register after taking in one byte: the byte enters by
/// exclusive-or, then eight bits of division follow.
pub open spec fn crc8_byte(crc: u8, byte: u8) -> u8 {
    crc8_shift(
        crc8_shift(
            crc8_shift(crc8_shift(crc8_shift(crc8_shift(crc8_shift(crc8_shift(crc ^ byte)))))),
        ),
    )
}

/// The register after taking in `data`, byte by byte, from `crc`.
pub open spec fn crc8_from(crc: u8, data: Seq<u8>) -> u8
    decreases data.len(),
{
    if data.len() == 0 {
        crc
    } else {
        crc8_from(crc8_byte(crc, data[0]), data.drop_first())
    }
}

/// The CRC-8 of `data`: polynomial 0x31, register starting at 0xFF, no
/// final exclusive-or.
pub open spec fn crc8(data: Seq<u8>) -> u8 {
    crc8_from(0xffu8, data)
}

/// A word as the sensor sends it: its two bytes, most significant first,
/// followed by their checksum.
pub open spec fn checked_word(w: u16) -> Seq<u8> {
    be_bytes(w).push(crc8(be_bytes(w)))
}

/// Whether the `k`-th three-byte group of `buf` carries the checksum of its
/// first two bytes.
pub open spec fn group_valid(buf: Seq<u8>, k: int) -> bool {
    crc8(buf.subrange(3 * k, 3 * k + 2)) == buf[3 * k + 2]
}

/// Whether every three-byte group of `buf` carries the checksum of its
/// first two bytes.
pub open spec fn words_valid(buf: Seq<u8>) -> bool {
    forall|k: int| 0 <= k < buf.len() / 3 ==> #[trigger] group_valid(buf, k)
}

#[verifier::external_type_specification]
#[verifier::external_body]
pub struct ExChecksumError(ChecksumError);

/// `sensirion_i2c::crc8::calculate`: the CRC-8 of `data`, polynomial 0x31,
/// initial value 0xFF, computed bit by bit as `crc8` states it.
#[verifier::external_body]
pub(crate) fn calculate(data: &[u8]) -> (crc: u8)
    ensures
        crc == crc8(data@),
{
    sensirion_i2c::crc8::calculate(data)
}

/// `sensirion_i2c::crc8::validate`: checks every three-byte group of `buf`,
/// each two data bytes followed by their checksum, with `calculate`. The
/// source panics unless the length is a multiple of three.
#[verifier::external_body]
pub(crate) fn validate(buf: &[u8]) -> (r: Result<(), ChecksumError>)
    requires
        buf@.len() % 3 == 0,
    ensures
        r is Ok <==> words_valid(buf@),
{
    sensirion_i2c::crc8::validate(buf)
}

/// Whether every word of `buf` carries a correct checksum.
///
/// `buf` holds words of three bytes: two data bytes, most significant
/// first, and their CRC-8.
pub fn words_have_valid_crc(buf: &[u8]) -> (valid: bool)
    requires
        buf@.len() % 3 == 0,
    ensures
        valid == words_valid(buf@),
{
    match validate(buf) {
        Ok(()) => true,
        Err(_) => false,
    }
}

/// The checksum of a word: the CRC-8 of its two bytes, most significant
/// first.
pub fn word_crc(w: u16) -> (crc: u8)
    ensures
        crc == crc8(be_bytes(w)),
{
    let pair: [u8; 2] = [(w / 256) as u8, (w % 256) as u8];
    proof {
        assert(pair@ =~= be_bytes(w));
    }
    calculate(pair.as_slice())
}

/// Words one after the other, each with its checksum.
pub open spec fn checked_words(words: Seq<u16>) -> Seq<u8>
    decreases words.len(),
{
    if words.len() == 0 {
        Seq::empty()
    } else {
        checked_words(words.drop_last()) + checked_word(words.last())
    }
}

/// What the library writes as checked words, it accepts when it reads them
/// back: every group of a run of checked words carries a correct checksum.
pub proof fn lemma_checked_words_valid(words: Seq<u16>)
    ensures
        checked_words(words).len() == 3 * words.len(),
        words_valid(checked_words(words)),
    decreases words.len(),
{
    if words.len() > 0 {
        let prefix = checked_words(words.drop_last());
        let last = checked_word(words.last());
        let all = checked_words(words);
        lemma_checked_words_valid(words.drop_last());
        assert(all == prefix + last);
        assert forall|k: int| 0 <= k < all.len() / 3 implies #[trigger] group_valid(all, k) by {
            if k < words.len() - 1 {
                assert(group_valid(prefix, k));
                assert(all.subrange(3 * k, 3 * k + 2) =~= prefix.subrange(3 * k, 3 * k + 2));
                assert(all[3 * k + 2] == prefix[3 * k + 2]);
            } else {
                assert(k == words.len() - 1);
                assert(all.subrange(3 * k, 3 * k + 2) =~= be_bytes(words.last()));
                assert(all[3 * k + 2] == last[2]);
            }
        }
    }
}

} // verus!
