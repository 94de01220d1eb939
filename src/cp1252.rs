use vstd::prelude::*;

verus! {

/// The byte that Windows-1252 assigns to a character, if any.
///
/// Code points below 0x80 and from 0xA0 to 0xFF map to the byte of the same
/// value; the five bytes the code page leaves unassigned (0x81, 0x8D, 0x8F,
/// 0x90, 0x9D) stand for the control characters of the same value; the other
/// bytes from 0x80 to 0x9F stand for the typographic characters listed below.
pub open spec fn cp1252_byte(c: char) -> Option<u8> {
    let u = c as u32;
    if u < 0x80 || (0xA0 <= u && u <= 0xFF) || u == 0x81 || u == 0x8D || u == 0x8F || u == 0x90
        || u == 0x9D {
        Some(u as u8)
    } else {
        match u {
            0x20AC => Some(0x80u8),
            0x201A => Some(0x82u8),
            0x0192 => Some(0x83u8),
            0x201E => Some(0x84u8),
            0x2026 => Some(0x85u8),
            0x2020 => Some(0x86u8),
            0x2021 => Some(0x87u8),
            0x02C6 => Some(0x88u8),
            0x2030 => Some(0x89u8),
            0x0160 => Some(0x8Au8),
            0x2039 => Some(0x8Bu8),
            0x0152 => Some(0x8Cu8),
            0x017D => Some(0x8Eu8),
            0x2018 => Some(0x91u8),
            0x2019 => Some(0x92u8),
            0x201C => Some(0x93u8),
            0x201D => Some(0x94u8),
            0x2022 => Some(0x95u8),
            0x2013 => Some(0x96u8),
            0x2014 => Some(0x97u8),
            0x02DC => Some(0x98u8),
            0x2122 => Some(0x99u8),
            0x0161 => Some(0x9Au8),
            0x203A => Some(0x9Bu8),
            0x0153 => Some(0x9Cu8),
            0x017E => Some(0x9Eu8),
            0x0178 => Some(0x9Fu8),
            _ => None,
        }
    }
}

/// Whether every character of `s` has a Windows-1252 byte.
pub open spec fn cp1252_encodable(s: Seq<char>) -> bool {
    forall|i: int| 0 <= i < s.len() ==> (#[trigger] cp1252_byte(s[i])) is Some
}

/// The Windows-1252 bytes of `s`, one per character; meaningful where
/// `cp1252_encodable(s)` holds.
pub open spec fn cp1252_bytes(s: Seq<char>) -> Seq<u8> {
    Seq::new(s.len(), |i: int| cp1252_byte(s[i])->0)
}

/// The byte that Windows-1252 assigns to `c`, or `None` where it assigns none.
pub fn encode_char(c: char) -> (r: Option<u8>)
    ensures
        r == cp1252_byte(c),
{
    let u = c as u32;
    if u < 0x80 || (0xA0 <= u && u <= 0xFF) || u == 0x81 || u == 0x8D || u == 0x8F || u == 0x90
        || u == 0x9D {
        Some(u as u8)
    } else {
        match u {
            0x20AC => Some(0x80u8),
            0x201A => Some(0x82u8),
            0x0192 => Some(0x83u8),
            0x201E => Some(0x84u8),
            0x2026 => Some(0x85u8),
            0x2020 => Some(0x86u8),
            0x2021 => Some(0x87u8),
            0x02C6 => Some(0x88u8),
            0x2030 => Some(0x89u8),
            0x0160 => Some(0x8Au8),
            0x2039 => Some(0x8Bu8),
            0x0152 => Some(0x8Cu8),
            0x017D => Some(0x8Eu8),
            0x2018 => Some(0x91u8),
            0x2019 => Some(0x92u8),
            0x201C => Some(0x93u8),
            0x201D => Some(0x94u8),
            0x2022 => Some(0x95u8),
            0x2013 => Some(0x96u8),
            0x2014 => Some(0x97u8),
            0x02DC => Some(0x98u8),
            0x2122 => Some(0x99u8),
            0x0161 => Some(0x9Au8),
            0x203A => Some(0x9Bu8),
            0x0153 => Some(0x9Cu8),
            0x017E => Some(0x9Eu8),
            0x0178 => Some(0x9Fu8),
            _ => None,
        }
    }
}

/// The Windows-1252 bytes of `s`, one per character, or `None` where a
/// character has no byte in the code page.
pub fn encode_str(s: &str) -> (r: Option<Vec<u8>>)
    ensures
        cp1252_encodable(s@) <==> r is Some,
        r matches Some(b) ==> b@ == cp1252_bytes(s@),
{
    broadcast use vstd::string::group_string_axioms;

    let mut out: Vec<u8> = Vec::new();
    for c in it: s.chars()
        invariant
            it.seq() == s@,
            out@.len() == it.index(),
            forall|j: int| 0 <= j < it.index() ==> cp1252_byte(s@[j]) == Some(#[trigger] out@[j]),
    {
        match encode_char(c) {
            Some(b) => out.push(b),
            None => {
                return None;
            },
        }
    }
    assert forall|j: int| 0 <= j < s@.len() implies (#[trigger] cp1252_byte(s@[j])) is Some by {
        assert(cp1252_byte(s@[j]) == Some(out@[j]));
    }
    assert(out@ =~= cp1252_bytes(s@));
    Some(out)
}

} // verus!
