//! Little-endian fields inside byte buffers.
//!
//! Every virtio-msg structure is a packed sequence of little-endian unsigned integers. The
//! specifications describe such a field as [`le_bytes`], and the executable accessors at the end
//! of the module read and write one field at a byte offset.

use vstd::prelude::*;
use zerocopy::byteorder::{LittleEndian, U16, U32, U64};
use zerocopy::FromBytes;

verus! {

/// Number of 64-bit registers that carry a message in an FF-A direct request.
pub const ARM_FFA_MSG_EXTENDED_ARGS_COUNT: usize = 14;

/// Number of bytes in a message buffer.
pub const MSG_BYTES: usize = 112;

/// The `n` low-order bytes of `v`, least significant byte first.
pub open spec fn le_bytes(v: nat, n: nat) -> Seq<u8>
    decreases n,
{
    if n == 0 {
        seq![]
    } else {
        seq![(v % 256) as u8] + le_bytes(v / 256, (n - 1) as nat)
    }
}

/// The number whose bytes, least significant byte first, are `s`.
pub open spec fn le_value(s: Seq<u8>) -> nat
    decreases s.len(),
{
    if s.len() == 0 {
        0
    } else {
        s[0] as nat + 256 * le_value(s.drop_first())
    }
}

/// `256` to the power `n`: one more than the largest value of `n` bytes.
pub open spec fn le_limit(n: nat) -> nat
    decreases n,
{
    if n == 0 {
        1
    } else {
        256 * le_limit((n - 1) as nat)
    }
}

/// The little-endian number in the `n` bytes of `s` from offset `at`.
pub open spec fn le_at(s: Seq<u8>, at: int, n: nat) -> nat {
    le_value(s.subrange(at, at + n))
}

/// `s` with the bytes from offset `at` replaced by `part`.
pub open spec fn splice(s: Seq<u8>, at: int, part: Seq<u8>) -> Seq<u8> {
    Seq::new(
        s.len(),
        |i: int|
            if at <= i < at + part.len() {
                part[i - at]
            } else {
                s[i]
            },
    )
}

/// `n` zero bytes.
pub open spec fn zeros(n: nat) -> Seq<u8> {
    Seq::new(n, |i: int| 0u8)
}

/// The bytes of a message buffer: each register holds eight of them, least significant byte first.
pub open spec fn msg_bytes(words: Seq<u64>) -> Seq<u8> {
    Seq::new(8 * words.len(), |i: int| le_bytes(words[i / 8] as nat, 8)[i % 8])
}

/// Whether every byte of `s` is zero.
pub open spec fn all_zero(s: Seq<u8>) -> bool {
    forall|i: int| 0 <= i < s.len() ==> s[i] == 0
}

pub broadcast proof fn lemma_le_bytes_len(v: nat, n: nat)
    ensures
        #[trigger] le_bytes(v, n).len() == n,
    decreases n,
{
    if n > 0 {
        lemma_le_bytes_len(v / 256, (n - 1) as nat);
    }
}

/// All bytes of zero are zero.
pub proof fn lemma_le_bytes_of_zero(n: nat)
    ensures
        le_bytes(0, n) == zeros(n),
    decreases n,
{
    if n > 0 {
        lemma_le_bytes_of_zero((n - 1) as nat);
    }
    assert(le_bytes(0, n) =~= zeros(n));
}

/// Reading the bytes of a number that fits gives the number back.
pub proof fn lemma_le_value_of_bytes(v: nat, n: nat)
    requires
        v < le_limit(n),
    ensures
        le_bytes(v, n).len() == n,
        le_value(le_bytes(v, n)) == v,
    decreases n,
{
    lemma_le_bytes_len(v, n);
    if n > 0 {
        let rest = le_bytes(v / 256, (n - 1) as nat);
        lemma_le_value_of_bytes(v / 256, (n - 1) as nat);
        assert(le_bytes(v, n).drop_first() =~= rest);
    }
}

/// Writing the number that some bytes stand for gives the bytes back.
pub proof fn lemma_le_bytes_of_value(s: Seq<u8>)
    ensures
        le_bytes(le_value(s), s.len()) == s,
        le_value(s) < le_limit(s.len()),
    decreases s.len(),
{
    if s.len() > 0 {
        let rest = s.drop_first();
        lemma_le_bytes_of_value(rest);
        assert(le_value(s) % 256 == s[0] as nat);
        assert(le_value(s) / 256 == le_value(rest));
        assert(le_bytes(le_value(s), s.len()) =~= s);
    } else {
        assert(le_bytes(le_value(s), s.len()) =~= s);
    }
}

pub proof fn lemma_le_limits()
    ensures
        le_limit(1) == 0x100,
        le_limit(2) == 0x1_0000,
        le_limit(4) == 0x1_0000_0000,
        le_limit(8) == 0x1_0000_0000_0000_0000,
{
    reveal_with_fuel(le_limit, 9);
}

/// A field that was written with [`le_bytes`] is read back by [`le_at`].
pub proof fn lemma_le_at(s: Seq<u8>, at: int, v: nat, n: nat)
    requires
        0 <= at,
        at + n <= s.len(),
        v < le_limit(n),
        s.subrange(at, at + n) =~= le_bytes(v, n),
    ensures
        le_at(s, at, n) == v,
{
    lemma_le_value_of_bytes(v, n);
}

/// Two message buffers with the same bytes hold the same registers.
pub proof fn law_msg_bytes_injective(a: Seq<u64>, b: Seq<u64>)
    requires
        msg_bytes(a) == msg_bytes(b),
    ensures
        a == b,
{
    assert(msg_bytes(a).len() == 8 * a.len());
    assert(msg_bytes(b).len() == 8 * b.len());
    assert forall|i: int| 0 <= i < a.len() implies a[i] == b[i] by {
        lemma_msg_bytes_word(a, i);
        lemma_msg_bytes_word(b, i);
    }
    assert(a =~= b);
}

/// Register `i` of a message buffer is the little-endian number in bytes `8 * i` and up.
pub proof fn lemma_msg_bytes_word(words: Seq<u64>, i: int)
    requires
        0 <= i < words.len(),
    ensures
        msg_bytes(words).subrange(8 * i, 8 * i + 8) == le_bytes(words[i] as nat, 8),
        le_at(msg_bytes(words), 8 * i, 8) == words[i],
{
    broadcast use lemma_le_bytes_len;

    lemma_le_limits();
    lemma_le_value_of_bytes(words[i] as nat, 8);
    assert(msg_bytes(words).subrange(8 * i, 8 * i + 8) =~= le_bytes(words[i] as nat, 8));
}

/// The `zerocopy` call `U16::<LittleEndian>::read_from_prefix`: the first two bytes of `src` as a
/// little-endian number, or an error where `src` is too short.
#[verifier::external_body]
fn read_u16_prefix(src: &[u8]) -> (value: Option<u16>)
    ensures
        src@.len() >= 2 ==> value == Some(le_at(src@, 0, 2) as u16),
        src@.len() < 2 ==> value is None,
{
    match U16::<LittleEndian>::read_from_prefix(src) {
        Ok((field, _)) => Some(field.get()),
        Err(_) => None,
    }
}

/// The `zerocopy` call `U32::<LittleEndian>::read_from_prefix`: the first four bytes of `src` as a
/// little-endian number, or an error where `src` is too short.
#[verifier::external_body]
fn read_u32_prefix(src: &[u8]) -> (value: Option<u32>)
    ensures
        src@.len() >= 4 ==> value == Some(le_at(src@, 0, 4) as u32),
        src@.len() < 4 ==> value is None,
{
    match U32::<LittleEndian>::read_from_prefix(src) {
        Ok((field, _)) => Some(field.get()),
        Err(_) => None,
    }
}

/// The `zerocopy` call `U64::<LittleEndian>::read_from_prefix`: the first eight bytes of `src` as a
/// little-endian number, or an error where `src` is too short.
#[verifier::external_body]
fn read_u64_prefix(src: &[u8]) -> (value: Option<u64>)
    ensures
        src@.len() >= 8 ==> value == Some(le_at(src@, 0, 8) as u64),
        src@.len() < 8 ==> value is None,
{
    match U64::<LittleEndian>::read_from_prefix(src) {
        Ok((field, _)) => Some(field.get()),
        Err(_) => None,
    }
}

/// The `zerocopy` call `U16::<LittleEndian>::mut_from_prefix`, followed by `set` on the field that
/// it gives access to: the first two bytes of `dst` become `value`, least significant byte first,
/// and the rest of `dst` stays.
#[verifier::external_body]
fn write_u16_prefix(dst: &mut [u8], value: u16)
    requires
        old(dst)@.len() >= 2,
    ensures
        final(dst)@ == splice(old(dst)@, 0, le_bytes(value as nat, 2)),
{
    let (field, _) = U16::<LittleEndian>::mut_from_prefix(dst).unwrap();
    field.set(value);
}

/// The `zerocopy` call `U32::<LittleEndian>::mut_from_prefix`, followed by `set` on the field that
/// it gives access to: the first four bytes of `dst` become `value`, least significant byte first,
/// and the rest of `dst` stays.
#[verifier::external_body]
fn write_u32_prefix(dst: &mut [u8], value: u32)
    requires
        old(dst)@.len() >= 4,
    ensures
        final(dst)@ == splice(old(dst)@, 0, le_bytes(value as nat, 4)),
{
    let (field, _) = U32::<LittleEndian>::mut_from_prefix(dst).unwrap();
    field.set(value);
}

/// The `zerocopy` call `U64::<LittleEndian>::mut_from_prefix`, followed by `set` on the field that
/// it gives access to: the first eight bytes of `dst` become `value`, least significant byte first,
/// and the rest of `dst` stays.
#[verifier::external_body]
fn write_u64_prefix(dst: &mut [u8], value: u64)
    requires
        old(dst)@.len() >= 8,
    ensures
        final(dst)@ == splice(old(dst)@, 0, le_bytes(value as nat, 8)),
{
    let (field, _) = U64::<LittleEndian>::mut_from_prefix(dst).unwrap();
    field.set(value);
}

/// Reads the 16-bit field at offset `at`.
pub fn get_u16(src: &[u8], at: usize) -> (value: u16)
    requires
        at + 2 <= src@.len(),
    ensures
        value == le_at(src@, at as int, 2),
{
    let (_, tail) = src.split_at(at);
    proof {
        lemma_le_limits();
        lemma_le_bytes_of_value(tail@.subrange(0, 2));
        assert(tail@.subrange(0, 2) =~= src@.subrange(at as int, at + 2));
    }
    match read_u16_prefix(tail) {
        Some(value) => value,
        None => 0,
    }
}

/// Reads the 32-bit field at offset `at`.
pub fn get_u32(src: &[u8], at: usize) -> (value: u32)
    requires
        at + 4 <= src@.len(),
    ensures
        value == le_at(src@, at as int, 4),
{
    let (_, tail) = src.split_at(at);
    proof {
        lemma_le_limits();
        lemma_le_bytes_of_value(tail@.subrange(0, 4));
        assert(tail@.subrange(0, 4) =~= src@.subrange(at as int, at + 4));
    }
    match read_u32_prefix(tail) {
        Some(value) => value,
        None => 0,
    }
}

/// Reads the 64-bit field at offset `at`.
pub fn get_u64(src: &[u8], at: usize) -> (value: u64)
    requires
        at + 8 <= src@.len(),
    ensures
        value == le_at(src@, at as int, 8),
{
    let (_, tail) = src.split_at(at);
    proof {
        lemma_le_limits();
        lemma_le_bytes_of_value(tail@.subrange(0, 8));
        assert(tail@.subrange(0, 8) =~= src@.subrange(at as int, at + 8));
    }
    match read_u64_prefix(tail) {
        Some(value) => value,
        None => 0,
    }
}

/// Writes the 16-bit field at offset `at`.
pub fn put_u16(dst: &mut [u8], at: usize, value: u16)
    requires
        at + 2 <= old(dst)@.len(),
    ensures
        final(dst)@ == splice(old(dst)@, at as int, le_bytes(value as nat, 2)),
{
    proof {
        lemma_le_bytes_len(value as nat, 2);
    }
    let (_, tail) = dst.split_at_mut(at);
    write_u16_prefix(tail, value);
}

/// Writes the 32-bit field at offset `at`.
pub fn put_u32(dst: &mut [u8], at: usize, value: u32)
    requires
        at + 4 <= old(dst)@.len(),
    ensures
        final(dst)@ == splice(old(dst)@, at as int, le_bytes(value as nat, 4)),
{
    proof {
        lemma_le_bytes_len(value as nat, 4);
    }
    let (_, tail) = dst.split_at_mut(at);
    write_u32_prefix(tail, value);
}

/// Writes the 64-bit field at offset `at`.
pub fn put_u64(dst: &mut [u8], at: usize, value: u64)
    requires
        at + 8 <= old(dst)@.len(),
    ensures
        final(dst)@ == splice(old(dst)@, at as int, le_bytes(value as nat, 8)),
{
    proof {
        lemma_le_bytes_len(value as nat, 8);
    }
    let (_, tail) = dst.split_at_mut(at);
    write_u64_prefix(tail, value);
}

/// The bytes of a message buffer.
pub fn bytes_of_msg(words: &[u64; ARM_FFA_MSG_EXTENDED_ARGS_COUNT]) -> (bytes: [u8; MSG_BYTES])
    ensures
        bytes@ == msg_bytes(words@),
{
    broadcast use lemma_le_bytes_len;

    let mut bytes: [u8; MSG_BYTES] = [0;MSG_BYTES];
    let mut i: usize = 0;
    while i < ARM_FFA_MSG_EXTENDED_ARGS_COUNT
        invariant
            i <= 14,
            forall|j: int| 0 <= j < 8 * i ==> bytes@[j] == msg_bytes(words@)[j],
        decreases 14 - i,
    {
        let word: u64 = words[i];
        put_u64(&mut bytes, 8 * i, word);
        proof {
            lemma_msg_bytes_word(words@, i as int);
            let field = msg_bytes(words@).subrange(8 * i, 8 * i + 8);
            assert forall|j: int| 8 * i <= j < 8 * i + 8 implies bytes@[j] == msg_bytes(
                words@,
            )[j] by {
                assert(bytes@[j] == field[j - 8 * i]);
            }
        }
        i = i + 1;
    }
    assert(bytes@ =~= msg_bytes(words@));
    bytes
}

/// The message buffer that holds `bytes`.
pub fn msg_of_bytes(bytes: &[u8; MSG_BYTES]) -> (words: [u64; ARM_FFA_MSG_EXTENDED_ARGS_COUNT])
    ensures
        msg_bytes(words@) == bytes@,
{
    broadcast use lemma_le_bytes_len;

    let mut words: [u64; ARM_FFA_MSG_EXTENDED_ARGS_COUNT] = [0;ARM_FFA_MSG_EXTENDED_ARGS_COUNT];
    let mut i: usize = 0;
    while i < ARM_FFA_MSG_EXTENDED_ARGS_COUNT
        invariant
            i <= 14,
            forall|j: int| 0 <= j < i ==> words@[j] == le_at(bytes@, 8 * j, 8),
        decreases 14 - i,
    {
        words[i] = get_u64(bytes, 8 * i);
        i = i + 1;
    }
    proof {
        assert forall|j: int| 0 <= j < 112 implies msg_bytes(words@)[j] == bytes@[j] by {
            let k = j / 8;
            assert(words@[k] == le_at(bytes@, 8 * k, 8));
            let field = bytes@.subrange(8 * k, 8 * k + 8);
            lemma_le_bytes_of_value(field);
            assert(field[j % 8] == bytes@[j]);
        }
        assert(msg_bytes(words@) =~= bytes@);
    }
    words
}

} // verus!
