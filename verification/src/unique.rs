//! Text that no server has a page for: random UUIDs, one after another.

use uuid::Uuid;
use vstd::prelude::*;

verus! {

/// How many characters one UUID takes up when it is written without hyphens.
pub const UUID_TEXT_LENGTH: usize = 32;

/// The lower-case hexadecimal digit for a number below sixteen.
pub open spec fn hex_digit(n: int) -> char {
    if n < 10 {
        (48 + n) as char
    } else {
        (87 + n) as char
    }
}

/// One of `0` to `9` and `a` to `f`.
pub open spec fn is_hex_digit(c: char) -> bool {
    '0' <= c <= '9' || 'a' <= c <= 'f'
}

/// Sixteen bytes with the version and variant bits of a random (version 4) UUID.
pub open spec fn is_random_uuid(bytes: Seq<u8>) -> bool {
    &&& bytes.len() == 16
    &&& bytes[6] / 16 == 4
    &&& bytes[8] / 64 == 2
}

/// Two lower-case hexadecimal digits for each byte, the upper half of the byte first.
pub open spec fn simple_text(bytes: Seq<u8>) -> Seq<char> {
    Seq::new(
        2 * bytes.len(),
        |i: int|
            if i % 2 == 0 {
                hex_digit(bytes[i / 2] as int / 16)
            } else {
                hex_digit(bytes[i / 2] as int % 16)
            },
    )
}

/// The texts of all `ids`, one behind the other.
pub open spec fn joined_text(ids: Seq<[u8; 16]>) -> Seq<char>
    decreases ids.len(),
{
    if ids.len() == 0 {
        Seq::empty()
    } else {
        joined_text(ids.drop_last()) + simple_text(ids.last()@)
    }
}

/// `text` is made of the texts of exactly `length` random UUIDs.
pub open spec fn is_unique_text(text: Seq<char>, length: nat) -> bool {
    exists|ids: Seq<[u8; 16]>| #[trigger] is_uuids_text(ids, text, length)
}

/// `ids` are `length` random UUIDs and `text` is what they spell.
pub open spec fn is_uuids_text(ids: Seq<[u8; 16]>, text: Seq<char>, length: nat) -> bool {
    &&& ids.len() == length
    &&& forall|i: int| 0 <= i < ids.len() ==> is_random_uuid(#[trigger] ids[i]@)
    &&& text == joined_text(ids)
}

/// Calls [`Uuid::new_v4`] and hands out the bytes ([`Uuid::into_bytes`]).
///
/// The bytes are random, so two calls may differ. The claim is about the bits that are not: those
/// for the version hold 4 and those for the variant hold binary 10. Like the function it calls it
/// panics where the operating system has no random numbers to give.
#[verifier::external_body]
fn random_uuid() -> (bytes: [u8; 16])
    ensures
        is_random_uuid(bytes@),
{
    Uuid::new_v4().into_bytes()
}

/// Calls [`Uuid::as_simple`] on the UUID made of `bytes` ([`Uuid::from_bytes`]) and formats it.
///
/// The claim is that this writes two lower-case hexadecimal digits for each byte, in order, and
/// nothing else.
#[verifier::external_body]
fn simple_uuid(bytes: [u8; 16]) -> (text: String)
    ensures
        text@ == simple_text(bytes@),
{
    Uuid::from_bytes(bytes).as_simple().to_string()
}

/// Writes the given UUIDs one behind the other, in lower case and without hyphens.
pub fn join_uuids(ids: &Vec<[u8; 16]>) -> (text: String)
    ensures
        text@ == joined_text(ids@),
        text@.len() == UUID_TEXT_LENGTH * ids@.len(),
{
    let mut text = String::new();
    let count: usize = ids.len();
    for i in 0..count
        invariant
            count == ids@.len(),
            text@ == joined_text(ids@.take(i as int)),
    {
        text.append(simple_uuid(ids[i]).as_str());
        assert(ids@.take(i + 1).drop_last() =~= ids@.take(i as int));
    }
    assert(ids@.take(count as int) =~= ids@);
    proof {
        joined_text_is_hexadecimal(ids@);
    }
    text
}

/// A text of `length` random UUIDs, in lower case and without hyphens.
pub fn random_text(length: usize) -> (text: String)
    ensures
        is_unique_text(text@, length as nat),
{
    let mut ids: Vec<[u8; 16]> = Vec::new();
    for i in 0..length
        invariant
            ids@.len() == i,
            forall|j: int| 0 <= j < i ==> is_random_uuid(#[trigger] ids@[j]@),
    {
        ids.push(random_uuid());
    }
    let text = join_uuids(&ids);
    assert(is_uuids_text(ids@, text@, length as nat));
    text
}

/// However many UUIDs are joined, each adds thirty-two characters, all of them lower-case
/// hexadecimal digits.
pub proof fn joined_text_is_hexadecimal(ids: Seq<[u8; 16]>)
    ensures
        joined_text(ids).len() == UUID_TEXT_LENGTH * ids.len(),
        forall|i: int|
            0 <= i < joined_text(ids).len() ==> is_hex_digit(#[trigger] joined_text(ids)[i]),
    decreases ids.len(),
{
    if ids.len() > 0 {
        joined_text_is_hexadecimal(ids.drop_last());
    }
}

/// A unique text of length `n` has thirty-two times `n` characters, all of them lower-case
/// hexadecimal digits.
pub proof fn unique_text_is_hexadecimal(text: Seq<char>, length: nat)
    requires
        is_unique_text(text, length),
    ensures
        text.len() == UUID_TEXT_LENGTH * length,
        forall|i: int| 0 <= i < text.len() ==> is_hex_digit(#[trigger] text[i]),
{
    let ids = choose|ids: Seq<[u8; 16]>| #[trigger] is_uuids_text(ids, text, length);
    joined_text_is_hexadecimal(ids);
}

/// The `k`-th run of thirty-two characters of a text.
pub open spec fn block(text: Seq<char>, k: int) -> Seq<char> {
    text.subrange(UUID_TEXT_LENGTH * k, UUID_TEXT_LENGTH * k + UUID_TEXT_LENGTH)
}

/// No two of `ids` are the same UUID.
pub open spec fn all_distinct(ids: Seq<[u8; 16]>) -> bool {
    forall|i: int, j: int|
        0 <= i < j < ids.len() ==> (#[trigger] ids[i])@ != (#[trigger] ids[j])@
}

/// No UUID is both among `ids` and among `others`.
pub open spec fn have_none_in_common(ids: Seq<[u8; 16]>, others: Seq<[u8; 16]>) -> bool {
    forall|i: int, j: int|
        0 <= i < ids.len() && 0 <= j < others.len() ==> (#[trigger] ids[i])@ != (
        #[trigger] others[j])@
}

/// Two numbers below sixteen with the same digit are the same.
proof fn hex_digit_tells_number(n: int, other: int)
    requires
        0 <= n < 16,
        0 <= other < 16,
        hex_digit(n) == hex_digit(other),
    ensures
        n == other,
{
    assert(hex_digit(n) as int == if n < 10 {
        48 + n
    } else {
        87 + n
    });
    assert(hex_digit(other) as int == if other < 10 {
        48 + other
    } else {
        87 + other
    });
}

/// Two sequences of bytes that are spelled alike are the same.
proof fn simple_text_tells_bytes(bytes: Seq<u8>, others: Seq<u8>)
    requires
        simple_text(bytes) == simple_text(others),
    ensures
        bytes == others,
{
    assert(simple_text(bytes).len() == 2 * bytes.len());
    assert(simple_text(others).len() == 2 * others.len());
    assert forall|k: int| 0 <= k < bytes.len() implies bytes[k] == others[k] by {
        assert(simple_text(bytes)[2 * k] == hex_digit(bytes[k] as int / 16));
        assert(simple_text(others)[2 * k] == hex_digit(others[k] as int / 16));
        assert(simple_text(bytes)[2 * k + 1] == hex_digit(bytes[k] as int % 16));
        assert(simple_text(others)[2 * k + 1] == hex_digit(others[k] as int % 16));
        hex_digit_tells_number(bytes[k] as int / 16, others[k] as int / 16);
        hex_digit_tells_number(bytes[k] as int % 16, others[k] as int % 16);
    }
    assert(bytes =~= others);
}

/// Each block of joined UUIDs is the text of one of them, in order.
pub proof fn blocks_spell_uuids(ids: Seq<[u8; 16]>, k: int)
    requires
        0 <= k < ids.len(),
    ensures
        block(joined_text(ids), k) == simple_text(ids[k]@),
    decreases ids.len(),
{
    let before = ids.drop_last();
    joined_text_is_hexadecimal(ids);
    joined_text_is_hexadecimal(before);
    if k < before.len() {
        blocks_spell_uuids(before, k);
        assert(block(joined_text(ids), k) =~= block(joined_text(before), k));
    } else {
        assert(block(joined_text(ids), k) =~= simple_text(ids.last()@));
    }
}

/// A text can be read as UUIDs in one way only: what spells the same text is the same UUIDs.
pub proof fn text_tells_uuids(
    text: Seq<char>,
    ids: Seq<[u8; 16]>,
    others: Seq<[u8; 16]>,
    length: nat,
)
    requires
        is_uuids_text(ids, text, length),
        is_uuids_text(others, text, length),
    ensures
        forall|k: int| 0 <= k < length ==> (#[trigger] ids[k])@ == others[k]@,
{
    assert forall|k: int| 0 <= k < length implies (#[trigger] ids[k])@ == others[k]@ by {
        blocks_spell_uuids(ids, k);
        blocks_spell_uuids(others, k);
        simple_text_tells_bytes(ids[k]@, others[k]@);
    }
}

/// Distinct UUIDs spell distinct blocks, within one text and across two, so that two texts made of
/// different UUIDs differ.
pub proof fn distinct_uuids_spell_distinct_blocks(
    text: Seq<char>,
    ids: Seq<[u8; 16]>,
    length: nat,
    other_text: Seq<char>,
    other_ids: Seq<[u8; 16]>,
    other_length: nat,
)
    requires
        is_uuids_text(ids, text, length),
        is_uuids_text(other_ids, other_text, other_length),
        all_distinct(ids),
        all_distinct(other_ids),
        have_none_in_common(ids, other_ids),
    ensures
        forall|i: int, j: int|
            0 <= i < j < length ==> #[trigger] block(text, i) != #[trigger] block(text, j),
        forall|i: int, j: int|
            0 <= i < j < other_length ==> #[trigger] block(other_text, i) != #[trigger] block(
                other_text,
                j,
            ),
        forall|i: int, j: int|
            0 <= i < length && 0 <= j < other_length ==> #[trigger] block(text, i)
                != #[trigger] block(other_text, j),
        length > 0 || other_length > 0 ==> text != other_text,
{
    distinct_blocks(ids);
    distinct_blocks(other_ids);
    assert forall|i: int, j: int| 0 <= i < length && 0 <= j < other_length implies
        #[trigger] block(text, i) != #[trigger] block(other_text, j) by {
        blocks_spell_uuids(ids, i);
        blocks_spell_uuids(other_ids, j);
        if block(text, i) == block(other_text, j) {
            simple_text_tells_bytes(ids[i]@, other_ids[j]@);
        }
    }
    joined_text_is_hexadecimal(ids);
    joined_text_is_hexadecimal(other_ids);
    if text == other_text {
        assert(length == other_length);
        if length > 0 {
            assert(block(text, 0) != block(other_text, 0));
        }
    }
}

/// Distinct UUIDs spell distinct blocks within one text.
proof fn distinct_blocks(ids: Seq<[u8; 16]>)
    requires
        all_distinct(ids),
    ensures
        forall|i: int, j: int|
            0 <= i < j < ids.len() ==> #[trigger] block(joined_text(ids), i) != #[trigger] block(
                joined_text(ids),
                j,
            ),
{
    assert forall|i: int, j: int| 0 <= i < j < ids.len() implies #[trigger] block(
        joined_text(ids),
        i,
    ) != #[trigger] block(joined_text(ids), j) by {
        blocks_spell_uuids(ids, i);
        blocks_spell_uuids(ids, j);
        if block(joined_text(ids), i) == block(joined_text(ids), j) {
            simple_text_tells_bytes(ids[i]@, ids[j]@);
        }
    }
}

/// Each byte is spelled by two characters, the first for its sixteens and the second for its ones,
/// and the character for a number below sixteen is the digit, or the letter that many places from
/// `a` on by which it exceeds ten.
pub proof fn bytes_are_spelled_in_hexadecimal(bytes: Seq<u8>, k: int)
    requires
        0 <= k < bytes.len(),
    ensures
        simple_text(bytes).len() == 2 * bytes.len(),
        ({
            let sixteens = bytes[k] as int / 16;
            let ones = bytes[k] as int % 16;
            &&& sixteens < 10 ==> simple_text(bytes)[2 * k] as int == '0' as int + sixteens
            &&& sixteens >= 10 ==> simple_text(bytes)[2 * k] as int == 'a' as int + (sixteens - 10)
            &&& ones < 10 ==> simple_text(bytes)[2 * k + 1] as int == '0' as int + ones
            &&& ones >= 10 ==> simple_text(bytes)[2 * k + 1] as int == 'a' as int + (ones - 10)
        }),
{
    assert(simple_text(bytes)[2 * k] == hex_digit(bytes[k] as int / 16));
    assert(simple_text(bytes)[2 * k + 1] == hex_digit(bytes[k] as int % 16));
}

/// One more UUID adds its text behind the others, and no UUIDs have no text.
pub proof fn each_uuid_adds_its_text(ids: Seq<[u8; 16]>, id: [u8; 16])
    ensures
        joined_text(Seq::<[u8; 16]>::empty()).len() == 0,
        joined_text(ids.push(id)) == joined_text(ids) + simple_text(id@),
{
    assert(ids.push(id).drop_last() =~= ids);
}

/// A unique text of a length has thirty-two characters for each UUID, and in each of these blocks
/// the thirteenth is a `4` and the seventeenth one of `8`, `9`, `a` and `b`.
pub proof fn unique_text_is_of_version_four(text: Seq<char>, length: nat, k: int)
    requires
        is_unique_text(text, length),
        0 <= k < length,
    ensures
        text.len() == 32 * length,
        text[32 * k + 12] == '4',
        ({
            let c = text[32 * k + 16];
            c == '8' || c == '9' || c == 'a' || c == 'b'
        }),
{
    let ids = choose|ids: Seq<[u8; 16]>| #[trigger] is_uuids_text(ids, text, length);
    joined_text_is_hexadecimal(ids);
    blocks_spell_uuids(ids, k);
    let id = ids[k]@;
    assert(is_random_uuid(id));
    assert(block(text, k)[12] == text[32 * k + 12]);
    assert(block(text, k)[16] == text[32 * k + 16]);
    bytes_are_spelled_in_hexadecimal(id, 6);
    bytes_are_spelled_in_hexadecimal(id, 8);
    assert(8 <= id[8] as int / 16 <= 11);
}

} // verus!
