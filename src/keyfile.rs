//! Content of a master key file: a hex-encoded AES-256 key followed by a newline.
use vstd::prelude::*;
use crate::error::KeyFileError;

verus! {

/// Bytes in a master key.
pub const MASTER_KEY_LEN: usize = 32;

/// Bytes in a master key file: two hex digits per key byte, then a newline.
pub const KEY_FILE_LEN: usize = 65;

pub open spec fn is_hex_digit(b: u8) -> bool {
    (0x30 <= b <= 0x39) || (0x61 <= b <= 0x66) || (0x41 <= b <= 0x46)
}

pub open spec fn hex_value(b: u8) -> int {
    if 0x30 <= b <= 0x39 {
        b - 0x30
    } else if 0x61 <= b <= 0x66 {
        b - 0x61 + 10
    } else {
        b - 0x41 + 10
    }
}

/// Each pair of hex digits, high digit first, gives one byte.
pub open spec fn decode_hex(s: Seq<u8>) -> Seq<u8> {
    Seq::new(s.len() / 2, |i: int| (hex_value(s[2 * i]) * 16 + hex_value(s[2 * i + 1])) as u8)
}

/// What a master key file with this content holds.
pub open spec fn key_file_key(c: Seq<u8>) -> Result<Seq<u8>, KeyFileError> {
    if c.len() != KEY_FILE_LEN {
        Err(KeyFileError::WrongSize { expected: KEY_FILE_LEN, actual: c.len() as usize })
    } else if c[KEY_FILE_LEN - 1] != 0x0a {
        Err(KeyFileError::MissingNewline)
    } else if exists|i: int| 0 <= i < KEY_FILE_LEN - 1 && !is_hex_digit(#[trigger] c[i]) {
        Err(KeyFileError::InvalidHex)
    } else {
        Ok(decode_hex(c.take(KEY_FILE_LEN - 1)))
    }
}

fn hex_digit_value(b: u8) -> (r: Option<u8>)
    ensures
        r is Some <==> is_hex_digit(b),
        r is Some ==> r->0 as int == hex_value(b) && r->0 < 16,
{
    if 0x30 <= b && b <= 0x39 {
        Some(b - 0x30)
    } else if 0x61 <= b && b <= 0x66 {
        Some(b - 0x61 + 10)
    } else if 0x41 <= b && b <= 0x46 {
        Some(b - 0x41 + 10)
    } else {
        None
    }
}

/// Reads the key out of the content of a master key file.
pub fn parse_key_file(content: &[u8]) -> (r: Result<Vec<u8>, KeyFileError>)
    ensures
        r is Ok <==> key_file_key(content@) is Ok,
        r is Ok ==> r->Ok_0@ == key_file_key(content@)->Ok_0,
        r is Err ==> key_file_key(content@) == Err::<Seq<u8>, KeyFileError>(r->Err_0),
{
    if content.len() != KEY_FILE_LEN {
        return Err(KeyFileError::WrongSize { expected: KEY_FILE_LEN, actual: content.len() });
    }
    if content[KEY_FILE_LEN - 1] != 0x0a {
        return Err(KeyFileError::MissingNewline);
    }
    let ghost digits = content@.take(KEY_FILE_LEN - 1);
    let mut key: Vec<u8> = Vec::new();
    let mut i: usize = 0;
    while i < MASTER_KEY_LEN
        invariant
            content@.len() == KEY_FILE_LEN,
            content@[KEY_FILE_LEN - 1] == 0x0a,
            digits == content@.take(KEY_FILE_LEN - 1),
            i <= MASTER_KEY_LEN,
            key@.len() == i,
            forall|j: int| 0 <= j < 2 * i ==> is_hex_digit(#[trigger] content@[j]),
            forall|j: int| 0 <= j < i ==> #[trigger] key@[j] == decode_hex(digits)[j],
        decreases MASTER_KEY_LEN - i,
    {
        let hi = hex_digit_value(content[2 * i]);
        if hi.is_none() {
            let ghost w = 2 * i as int;
            assert(0 <= w < KEY_FILE_LEN - 1 && !is_hex_digit(content@[w]));
            return Err(KeyFileError::InvalidHex);
        }
        let lo = hex_digit_value(content[2 * i + 1]);
        if lo.is_none() {
            let ghost w = 2 * i + 1;
            assert(0 <= w < KEY_FILE_LEN - 1 && !is_hex_digit(content@[w]));
            return Err(KeyFileError::InvalidHex);
        }
        key.push(hi.unwrap() * 16 + lo.unwrap());
        i = i + 1;
    }
    assert(key@ =~= decode_hex(digits));
    Ok(key)
}

} // verus!
