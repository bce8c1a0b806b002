//! Serialization of entries into the flat strings the store holds.
//!
//! A record value is the entry's name length as eight hexadecimal digits,
//! followed by the name, followed by the payload. Decoding checks the prefix
//! and the length before splitting, so bytes that arrived from the network
//! decode to `None` rather than aborting the request loop. Encoding then
//! decoding returns the entry unchanged ([`lemma_codec_round_trip`]).

use vstd::prelude::*;
use vstd::string::StrSliceExecFns;
use vstd::string::StringExecFns;
use crate::messages::Entry;

verus! {

/// The largest entry-name length the record format can frame: the name
/// length must fit in eight hexadecimal digits.
pub open spec fn max_name_len() -> int {
    0x1_0000_0000
}

/// The hexadecimal digit character for a value below sixteen.
pub open spec fn hex_char_of(v: u32) -> char {
    if v == 0 {
        '0'
    } else if v == 1 {
        '1'
    } else if v == 2 {
        '2'
    } else if v == 3 {
        '3'
    } else if v == 4 {
        '4'
    } else if v == 5 {
        '5'
    } else if v == 6 {
        '6'
    } else if v == 7 {
        '7'
    } else if v == 8 {
        '8'
    } else if v == 9 {
        '9'
    } else if v == 10 {
        'a'
    } else if v == 11 {
        'b'
    } else if v == 12 {
        'c'
    } else if v == 13 {
        'd'
    } else if v == 14 {
        'e'
    } else {
        'f'
    }
}

/// Whether `c` is a lowercase hexadecimal digit character.
pub open spec fn is_hex_char(c: char) -> bool {
    c == '0' || c == '1' || c == '2' || c == '3' || c == '4' || c == '5' || c == '6' || c == '7'
        || c == '8' || c == '9' || c == 'a' || c == 'b' || c == 'c' || c == 'd' || c == 'e'
        || c == 'f'
}

/// The value of a hexadecimal digit character (unspecified beyond fifteen
/// for other characters).
pub open spec fn hex_val_of(c: char) -> u32 {
    if c == '0' {
        0
    } else if c == '1' {
        1
    } else if c == '2' {
        2
    } else if c == '3' {
        3
    } else if c == '4' {
        4
    } else if c == '5' {
        5
    } else if c == '6' {
        6
    } else if c == '7' {
        7
    } else if c == '8' {
        8
    } else if c == '9' {
        9
    } else if c == 'a' {
        10
    } else if c == 'b' {
        11
    } else if c == 'c' {
        12
    } else if c == 'd' {
        13
    } else if c == 'e' {
        14
    } else {
        15
    }
}

/// The `i`-th big-endian four-bit group of `n`, for `i` below eight.
pub open spec fn nibble(n: u32, i: int) -> u32 {
    (n >> ((28 - 4 * i) as u32)) & 0xf
}

/// The eight-digit hexadecimal rendering of `n`, most significant first.
pub open spec fn len_prefix(n: u32) -> Seq<char> {
    Seq::new(8, |i: int| hex_char_of(nibble(n, i)))
}

/// The number the first eight characters of `s` encode in hexadecimal.
pub open spec fn hex8_val(s: Seq<char>) -> u32 {
    (hex_val_of(s[0]) << 28u32) | (hex_val_of(s[1]) << 24u32) | (hex_val_of(s[2]) << 20u32) | (
    hex_val_of(s[3]) << 16u32) | (hex_val_of(s[4]) << 12u32) | (hex_val_of(s[5]) << 8u32) | (
    hex_val_of(s[6]) << 4u32) | hex_val_of(s[7])
}

/// Whether the first eight characters of `s` are hexadecimal digits.
pub open spec fn prefix_is_hex(s: Seq<char>) -> bool {
    forall|i: int| 0 <= i < 8 ==> is_hex_char(#[trigger] s[i])
}

/// The record value that stores an entry with this `name` and `content`.
pub open spec fn encode_spec(name: Seq<char>, content: Seq<char>) -> Seq<char> {
    len_prefix(name.len() as u32) + name + content
}

/// The entry, as a name/content pair, that the record value `s` holds, or
/// `None` if `s` is not a well-formed record value.
pub open spec fn decode_spec(s: Seq<char>) -> Option<(Seq<char>, Seq<char>)> {
    if s.len() < 8 {
        None
    } else if !prefix_is_hex(s) {
        None
    } else {
        let n = hex8_val(s) as int;
        if s.len() - 8 < n {
            None
        } else {
            Some((s.subrange(8, 8 + n), s.subrange(8 + n, s.len() as int)))
        }
    }
}

/// A four-bit group is always below sixteen.
proof fn lemma_mask_small(x: u32)
    ensures
        x & 0xf < 16,
{
    assert(x & 0xf < 16) by (bit_vector);
}

/// Rendering a value below sixteen as a digit and reading it back returns
/// the value.
proof fn lemma_hex_char_val(v: u32)
    requires
        v < 16,
    ensures
        is_hex_char(hex_char_of(v)),
        hex_val_of(hex_char_of(v)) == v,
{
}

/// The eight big-endian four-bit groups of `n` reassemble to `n`.
proof fn lemma_nibble_reassemble(n: u32)
    ensures
        (((n >> 28u32) & 0xf) << 28u32) | (((n >> 24u32) & 0xf) << 24u32) | (((n >> 20u32)
            & 0xf) << 20u32) | (((n >> 16u32) & 0xf) << 16u32) | (((n >> 12u32) & 0xf) << 12u32)
            | (((n >> 8u32) & 0xf) << 8u32) | (((n >> 4u32) & 0xf) << 4u32) | ((n >> 0u32) & 0xf)
            == n,
{
    assert((((n >> 28u32) & 0xf) << 28u32) | (((n >> 24u32) & 0xf) << 24u32) | (((n >> 20u32)
        & 0xf) << 20u32) | (((n >> 16u32) & 0xf) << 16u32) | (((n >> 12u32) & 0xf) << 12u32) | (((n
        >> 8u32) & 0xf) << 8u32) | (((n >> 4u32) & 0xf) << 4u32) | ((n >> 0u32) & 0xf) == n)
        by (bit_vector);
}

/// Reading the length prefix of `n` back yields `n`.
proof fn lemma_len_prefix_val(n: u32)
    ensures
        prefix_is_hex(len_prefix(n)),
        hex8_val(len_prefix(n)) == n,
{
    let s = len_prefix(n);
    assert forall|i: int| 0 <= i < 8 implies is_hex_char(#[trigger] s[i]) && hex_val_of(s[i])
        == nibble(n, i) by {
        lemma_mask_small(n >> ((28 - 4 * i) as u32));
        lemma_hex_char_val(nibble(n, i));
    }
    assert(nibble(n, 0) == (n >> 28u32) & 0xf);
    assert(nibble(n, 1) == (n >> 24u32) & 0xf);
    assert(nibble(n, 2) == (n >> 20u32) & 0xf);
    assert(nibble(n, 3) == (n >> 16u32) & 0xf);
    assert(nibble(n, 4) == (n >> 12u32) & 0xf);
    assert(nibble(n, 5) == (n >> 8u32) & 0xf);
    assert(nibble(n, 6) == (n >> 4u32) & 0xf);
    assert(nibble(n, 7) == (n >> 0u32) & 0xf);
    lemma_nibble_reassemble(n);
}

/// The serialization round-trip law: decoding an encoded entry returns the
/// name and the content that were encoded.
pub proof fn lemma_codec_round_trip(name: Seq<char>, content: Seq<char>)
    requires
        name.len() < max_name_len(),
    ensures
        decode_spec(encode_spec(name, content)) == Some((name, content)),
{
    let n = name.len() as u32;
    let s = encode_spec(name, content);
    lemma_len_prefix_val(n);
    assert forall|i: int| 0 <= i < 8 implies #[trigger] s[i] == len_prefix(n)[i] by {}
    assert forall|i: int| 0 <= i < 8 implies is_hex_char(#[trigger] s[i]) by {
        assert(s[i] == len_prefix(n)[i]);
    }
    assert(hex8_val(s) == hex8_val(len_prefix(n)));
    assert(hex8_val(s) == n);
    assert(s.subrange(8, 8 + n as int) =~= name);
    assert(s.subrange(8 + n as int, s.len() as int) =~= content);
}

/// Encoding is injective: distinct entries are stored as distinct record
/// values.
pub proof fn lemma_encode_injective(n1: Seq<char>, c1: Seq<char>, n2: Seq<char>, c2: Seq<char>)
    requires
        n1.len() < max_name_len(),
        n2.len() < max_name_len(),
        encode_spec(n1, c1) == encode_spec(n2, c2),
    ensures
        n1 == n2,
        c1 == c2,
{
    lemma_codec_round_trip(n1, c1);
    lemma_codec_round_trip(n2, c2);
}

/// The digit character for a value below sixteen.
fn hex_char_str(v: u32) -> (r: &'static str)
    requires
        v < 16,
    ensures
        r@ == seq![hex_char_of(v)],
{
    proof {
        reveal_strlit("0");
        reveal_strlit("1");
        reveal_strlit("2");
        reveal_strlit("3");
        reveal_strlit("4");
        reveal_strlit("5");
        reveal_strlit("6");
        reveal_strlit("7");
        reveal_strlit("8");
        reveal_strlit("9");
        reveal_strlit("a");
        reveal_strlit("b");
        reveal_strlit("c");
        reveal_strlit("d");
        reveal_strlit("e");
        reveal_strlit("f");
    }
    let r: &'static str = if v == 0 {
        "0"
    } else if v == 1 {
        "1"
    } else if v == 2 {
        "2"
    } else if v == 3 {
        "3"
    } else if v == 4 {
        "4"
    } else if v == 5 {
        "5"
    } else if v == 6 {
        "6"
    } else if v == 7 {
        "7"
    } else if v == 8 {
        "8"
    } else if v == 9 {
        "9"
    } else if v == 10 {
        "a"
    } else if v == 11 {
        "b"
    } else if v == 12 {
        "c"
    } else if v == 13 {
        "d"
    } else if v == 14 {
        "e"
    } else {
        "f"
    };
    proof {
        assert(r@ =~= seq![hex_char_of(v)]);
    }
    r
}

/// The value of a hexadecimal digit character, or `None` for any other
/// character.
fn hex_val_char(c: char) -> (r: Option<u32>)
    ensures
        r.is_some() == is_hex_char(c),
        r.is_some() ==> r->Some_0 == hex_val_of(c),
{
    if c == '0' {
        Some(0)
    } else if c == '1' {
        Some(1)
    } else if c == '2' {
        Some(2)
    } else if c == '3' {
        Some(3)
    } else if c == '4' {
        Some(4)
    } else if c == '5' {
        Some(5)
    } else if c == '6' {
        Some(6)
    } else if c == '7' {
        Some(7)
    } else if c == '8' {
        Some(8)
    } else if c == '9' {
        Some(9)
    } else if c == 'a' {
        Some(10)
    } else if c == 'b' {
        Some(11)
    } else if c == 'c' {
        Some(12)
    } else if c == 'd' {
        Some(13)
    } else if c == 'e' {
        Some(14)
    } else if c == 'f' {
        Some(15)
    } else {
        None
    }
}

/// Serializes `entry` into the record value that stores it.
pub fn encode_entry(entry: &Entry) -> (s: String)
    requires
        entry.name@.len() < max_name_len(),
    ensures
        s@ == encode_spec(entry.name@, entry.content@),
{
    let name_len: usize = entry.name.as_str().unicode_len();
    let n: u32 = name_len as u32;
    proof {
        lemma_mask_small(n >> 28u32);
        lemma_mask_small(n >> 24u32);
        lemma_mask_small(n >> 20u32);
        lemma_mask_small(n >> 16u32);
        lemma_mask_small(n >> 12u32);
        lemma_mask_small(n >> 8u32);
        lemma_mask_small(n >> 4u32);
        lemma_mask_small(n >> 0u32);
    }
    let mut s = String::new();
    s.append(hex_char_str((n >> 28u32) & 0xf));
    s.append(hex_char_str((n >> 24u32) & 0xf));
    s.append(hex_char_str((n >> 20u32) & 0xf));
    s.append(hex_char_str((n >> 16u32) & 0xf));
    s.append(hex_char_str((n >> 12u32) & 0xf));
    s.append(hex_char_str((n >> 8u32) & 0xf));
    s.append(hex_char_str((n >> 4u32) & 0xf));
    s.append(hex_char_str((n >> 0u32) & 0xf));
    proof {
        assert(s@ =~= len_prefix(n)) by {
            assert(nibble(n, 0) == (n >> 28u32) & 0xf);
            assert(nibble(n, 1) == (n >> 24u32) & 0xf);
            assert(nibble(n, 2) == (n >> 20u32) & 0xf);
            assert(nibble(n, 3) == (n >> 16u32) & 0xf);
            assert(nibble(n, 4) == (n >> 12u32) & 0xf);
            assert(nibble(n, 5) == (n >> 8u32) & 0xf);
            assert(nibble(n, 6) == (n >> 4u32) & 0xf);
            assert(nibble(n, 7) == (n >> 0u32) & 0xf);
        }
    }
    s.append(entry.name.as_str());
    s.append(entry.content.as_str());
    proof {
        assert(s@ =~= encode_spec(entry.name@, entry.content@));
    }
    s
}

/// Parses a record value back into the entry it stores, or `None` if the
/// value is not a well-formed record.
pub fn decode_entry(s: &String) -> (r: Option<Entry>)
    ensures
        r.is_some() == decode_spec(s@).is_some(),
        r.is_some() ==> r->Some_0@.name == decode_spec(s@)->Some_0.0,
        r.is_some() ==> r->Some_0@.content == decode_spec(s@)->Some_0.1,
{
    let len: usize = s.as_str().unicode_len();
    if len < 8 {
        return None;
    }
    let v0: u32 = match hex_val_char(s.as_str().get_char(0)) {
        Some(v) => v,
        None => {
            return None;
        },
    };
    let v1: u32 = match hex_val_char(s.as_str().get_char(1)) {
        Some(v) => v,
        None => {
            return None;
        },
    };
    let v2: u32 = match hex_val_char(s.as_str().get_char(2)) {
        Some(v) => v,
        None => {
            return None;
        },
    };
    let v3: u32 = match hex_val_char(s.as_str().get_char(3)) {
        Some(v) => v,
        None => {
            return None;
        },
    };
    let v4: u32 = match hex_val_char(s.as_str().get_char(4)) {
        Some(v) => v,
        None => {
            return None;
        },
    };
    let v5: u32 = match hex_val_char(s.as_str().get_char(5)) {
        Some(v) => v,
        None => {
            return None;
        },
    };
    let v6: u32 = match hex_val_char(s.as_str().get_char(6)) {
        Some(v) => v,
        None => {
            return None;
        },
    };
    let v7: u32 = match hex_val_char(s.as_str().get_char(7)) {
        Some(v) => v,
        None => {
            return None;
        },
    };
    proof {
        assert(prefix_is_hex(s@));
        lemma_mask_small(hex_val_of(s@[0]));
        lemma_mask_small(hex_val_of(s@[1]));
        lemma_mask_small(hex_val_of(s@[2]));
        lemma_mask_small(hex_val_of(s@[3]));
        lemma_mask_small(hex_val_of(s@[4]));
        lemma_mask_small(hex_val_of(s@[5]));
        lemma_mask_small(hex_val_of(s@[6]));
        lemma_mask_small(hex_val_of(s@[7]));
    }
    let n: u32 = (v0 << 28u32) | (v1 << 24u32) | (v2 << 20u32) | (v3 << 16u32) | (v4 << 12u32) | (
    v5 << 8u32) | (v6 << 4u32) | v7;
    assert(n == hex8_val(s@));
    let n_us: usize = n as usize;
    if len - 8 < n_us {
        return None;
    }
    let name_str = s.as_str().substring_char(8, 8 + n_us);
    let content_str = s.as_str().substring_char(8 + n_us, len);
    Some(Entry { name: name_str.to_owned(), content: content_str.to_owned() })
}

} // verus!
