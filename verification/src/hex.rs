//! Hexadecimal account identifiers.
//!
//! A candidate account is a 64-character strict-hexadecimal string naming 32
//! bytes.  Parsing accepts either letter case; the canonical rendering is
//! always lowercase, so the canonical form of a parsed identifier may differ
//! from the raw input in case only.
use vstd::prelude::*;

verus! {

/// The value of a single hexadecimal digit, or `None` for any other
/// character.  Both letter cases are accepted.
pub open spec fn hex_digit_value(c: char) -> Option<u8> {
    match c {
        '0' => Some(0u8),
        '1' => Some(1u8),
        '2' => Some(2u8),
        '3' => Some(3u8),
        '4' => Some(4u8),
        '5' => Some(5u8),
        '6' => Some(6u8),
        '7' => Some(7u8),
        '8' => Some(8u8),
        '9' => Some(9u8),
        'a' => Some(10u8),
        'b' => Some(11u8),
        'c' => Some(12u8),
        'd' => Some(13u8),
        'e' => Some(14u8),
        'f' => Some(15u8),
        'A' => Some(10u8),
        'B' => Some(11u8),
        'C' => Some(12u8),
        'D' => Some(13u8),
        'E' => Some(14u8),
        'F' => Some(15u8),
        _ => None,
    }
}

/// Whether `c` belongs to the strict hexadecimal character class.
pub open spec fn is_hex_digit(c: char) -> bool {
    hex_digit_value(c) is Some
}

/// Whether every character of `s` is a hexadecimal digit.
pub open spec fn all_hex(s: Seq<char>) -> bool {
    forall|i: int| 0 <= i < s.len() ==> is_hex_digit(#[trigger] s[i])
}

/// The bytes named by a hexadecimal string, two digits to a byte, the first
/// digit of each pair the high nibble.
pub open spec fn hex_decode(s: Seq<char>) -> Seq<u8> {
    Seq::new(
        (s.len() / 2) as nat,
        |i: int|
            (16 * hex_digit_value(s[2 * i])->Some_0 + hex_digit_value(s[2 * i + 1])->Some_0) as u8,
    )
}

/// The lowercase character of a single hexadecimal digit value.
pub open spec fn hex_digit_char(d: u8) -> char {
    match d {
        0u8 => '0',
        1u8 => '1',
        2u8 => '2',
        3u8 => '3',
        4u8 => '4',
        5u8 => '5',
        6u8 => '6',
        7u8 => '7',
        8u8 => '8',
        9u8 => '9',
        10u8 => 'a',
        11u8 => 'b',
        12u8 => 'c',
        13u8 => 'd',
        14u8 => 'e',
        _ => 'f',
    }
}

/// The canonical, lowercase hexadecimal rendering of a byte string.
pub open spec fn hex_render(b: Seq<u8>) -> Seq<char> {
    Seq::new(
        (2 * b.len()) as nat,
        |i: int|
            if i % 2 == 0 {
                hex_digit_char(b[i / 2] / 16)
            } else {
                hex_digit_char(b[i / 2] % 16)
            },
    )
}

/// A hexadecimal digit lowered to its canonical case; any other character is
/// left as it is.
pub open spec fn lower_hex_char(c: char) -> char {
    match c {
        'A' => 'a',
        'B' => 'b',
        'C' => 'c',
        'D' => 'd',
        'E' => 'e',
        'F' => 'f',
        _ => c,
    }
}

/// The value of a single hexadecimal digit character, or `None` for any
/// other character.
fn hex_digit_value_of(c: char) -> (r: Option<u8>)
    ensures
        r == hex_digit_value(c),
{
    match c {
        '0' => Some(0u8),
        '1' => Some(1u8),
        '2' => Some(2u8),
        '3' => Some(3u8),
        '4' => Some(4u8),
        '5' => Some(5u8),
        '6' => Some(6u8),
        '7' => Some(7u8),
        '8' => Some(8u8),
        '9' => Some(9u8),
        'a' => Some(10u8),
        'b' => Some(11u8),
        'c' => Some(12u8),
        'd' => Some(13u8),
        'e' => Some(14u8),
        'f' => Some(15u8),
        'A' => Some(10u8),
        'B' => Some(11u8),
        'C' => Some(12u8),
        'D' => Some(13u8),
        'E' => Some(14u8),
        'F' => Some(15u8),
        _ => None,
    }
}

/// The lowercase character of a digit value below sixteen.
fn hex_digit_str(d: u8) -> (r: &'static str)
    requires
        d < 16,
    ensures
        r@ == seq![hex_digit_char(d)],
{
    let r: &'static str = match d {
        0u8 => "0",
        1u8 => "1",
        2u8 => "2",
        3u8 => "3",
        4u8 => "4",
        5u8 => "5",
        6u8 => "6",
        7u8 => "7",
        8u8 => "8",
        9u8 => "9",
        10u8 => "a",
        11u8 => "b",
        12u8 => "c",
        13u8 => "d",
        14u8 => "e",
        _ => "f",
    };
    proof {
        reveal_strlit("0");
        reveal_strlit("1");
        reveal_strlit("2");
        reveal_strlit("3");
        reveal_strlit("4");
        reveal_strlit("5");
        reveal_strlit("6");
        reveal_strlit("7");
        reveal_strlit("8");
        reveal_strlit("9");
        reveal_strlit("a");
        reveal_strlit("b");
        reveal_strlit("c");
        reveal_strlit("d");
        reveal_strlit("e");
        reveal_strlit("f");
        assert(r@ =~= seq![hex_digit_char(d)]);
    }
    r
}

/// A parsed account identifier: exactly 32 bytes, named by 64 hexadecimal
/// characters.
#[derive(Clone, Debug)]
pub struct AccountId {
    bytes: Vec<u8>,
}

impl View for AccountId {
    type V = Seq<u8>;

    closed spec fn view(&self) -> Seq<u8> {
        self.bytes@
    }
}

impl AccountId {
    /// Well-formedness: an account identifier names exactly 32 bytes.
    pub open spec fn wf(&self) -> bool {
        self@.len() == 32
    }

    /// Parses a candidate string as an account identifier.  Succeeds exactly
    /// when the candidate is 64 characters long and strictly hexadecimal;
    /// either letter case is accepted.
    pub fn from_hex(s: &str) -> (r: Option<AccountId>)
        ensures
            r is Some <==> s@.len() == 64 && all_hex(s@),
            r matches Some(a) ==> a.wf() && a@ == hex_decode(s@),
    {
        let n = s.unicode_len();
        if n != 64 {
            return None;
        }
        let mut bytes: Vec<u8> = Vec::new();
        let mut i: usize = 0;
        while i < 32
            invariant
                s@.len() == 64,
                i <= 32,
                bytes@.len() == i,
                forall|j: int| 0 <= j < 2 * i ==> is_hex_digit(#[trigger] s@[j]),
                bytes@ == hex_decode(s@).take(i as int),
            decreases 32 - i,
        {
            let hi = s.get_char(2 * i);
            let lo = s.get_char(2 * i + 1);
            let hv = match hex_digit_value_of(hi) {
                Some(v) => v,
                None => {
                    proof {
                        assert(!is_hex_digit(s@[2 * i as int]));
                    }
                    return None;
                },
            };
            let lv = match hex_digit_value_of(lo) {
                Some(v) => v,
                None => {
                    proof {
                        assert(!is_hex_digit(s@[2 * i as int + 1]));
                    }
                    return None;
                },
            };
            bytes.push(16 * hv + lv);
            proof {
                assert(bytes@ =~= hex_decode(s@).take(i as int + 1));
            }
            i = i + 1;
        }
        proof {
            assert(bytes@ =~= hex_decode(s@));
        }
        Some(AccountId { bytes })
    }

    /// The canonical textual rendering: 64 lowercase hexadecimal characters.
    pub fn to_hex(&self) -> (r: String)
        requires
            self.wf(),
        ensures
            r@ == hex_render(self@),
    {
        let mut out = String::new();
        let mut i: usize = 0;
        while i < self.bytes.len()
            invariant
                self.wf(),
                i <= self.bytes@.len(),
                out@ == hex_render(self@).take(2 * i as int),
            decreases self.bytes@.len() - i,
        {
            let b = self.bytes[i];
            out.append(hex_digit_str(b / 16));
            out.append(hex_digit_str(b % 16));
            proof {
                assert(out@ =~= hex_render(self@).take(2 * (i as int + 1)));
            }
            i = i + 1;
        }
        proof {
            assert(out@ =~= hex_render(self@));
        }
        out
    }

    /// The identifier's 32 bytes, for handing to the remote ledger call.
    pub fn to_bytes(&self) -> (r: Vec<u8>)
        ensures
            r@ == self@,
    {
        let mut r: Vec<u8> = Vec::new();
        let mut i: usize = 0;
        while i < self.bytes.len()
            invariant
                i <= self.bytes@.len(),
                r@ == self@.take(i as int),
            decreases self.bytes@.len() - i,
        {
            r.push(self.bytes[i]);
            proof {
                assert(r@ =~= self@.take(i as int + 1));
            }
            i = i + 1;
        }
        proof {
            assert(r@ =~= self@);
        }
        r
    }
}

/// The canonical rendering loses nothing: it is strictly hexadecimal, twice
/// as long as the byte string, and parsing it back yields the same bytes.
pub proof fn lemma_decode_of_render(b: Seq<u8>)
    ensures
        hex_render(b).len() == 2 * b.len(),
        all_hex(hex_render(b)),
        hex_decode(hex_render(b)) == b,
{
    assert forall|i: int| 0 <= i < hex_render(b).len() implies is_hex_digit(
        #[trigger] hex_render(b)[i],
    ) by {
        assert(b[i / 2] / 16 < 16 && b[i / 2] % 16 < 16);
    }
    assert forall|i: int| 0 <= i < b.len() implies #[trigger] hex_decode(hex_render(b))[i]
        == b[i] by {
        let hi = b[i] / 16;
        let lo = b[i] % 16;
        assert(hi < 16 && lo < 16);
        assert(hex_render(b)[2 * i] == hex_digit_char(hi));
        assert(hex_render(b)[2 * i + 1] == hex_digit_char(lo));
        assert(16 * hi + lo == b[i]);
    }
    assert(hex_decode(hex_render(b)) =~= b);
}

/// The canonical rendering of a parsed identifier is the input lowered in
/// case, character for character: parsing and re-rendering changes a
/// candidate's letter case at most.
pub proof fn lemma_render_of_decode(s: Seq<char>)
    requires
        s.len() % 2 == 0,
        all_hex(s),
    ensures
        hex_render(hex_decode(s)).len() == s.len(),
        forall|i: int| 0 <= i < s.len() ==> #[trigger] hex_render(hex_decode(s))[i]
            == lower_hex_char(s[i]),
{
    assert forall|i: int| 0 <= i < s.len() implies #[trigger] hex_render(hex_decode(s))[i]
        == lower_hex_char(s[i]) by {
        let b = hex_decode(s);
        let hv = hex_digit_value(s[2 * (i / 2)])->Some_0;
        let lv = hex_digit_value(s[2 * (i / 2) + 1])->Some_0;
        assert(is_hex_digit(s[2 * (i / 2)]));
        assert(is_hex_digit(s[2 * (i / 2) + 1]));
        assert(hv < 16 && lv < 16);
        assert(b[i / 2] == (16 * hv + lv) as u8);
        assert(b[i / 2] / 16 == hv && b[i / 2] % 16 == lv) by {
            assert(16 * hv + lv < 256);
        }
        if i % 2 == 0 {
            assert(2 * (i / 2) == i);
        } else {
            assert(2 * (i / 2) + 1 == i);
        }
    }
}

} // verus!
