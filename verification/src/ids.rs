//! Entity identifiers. The store addresses every document by a 24-character
//! hexadecimal id; a caller-supplied id that does not have that shape is
//! rejected before any store operation is issued.

use vstd::prelude::*;
use vstd::string::StrSliceExecFns;
use vstd::string::StringExecFns;

use crate::errors::{AppError, AppErrorType};

verus! {

/// A hexadecimal digit, either case.
pub open spec fn is_hex_char(c: char) -> bool {
    ('0' <= c && c <= '9') || ('a' <= c && c <= 'f') || ('A' <= c && c <= 'F')
}

/// A well-formed entity id: exactly 24 hexadecimal characters.
pub open spec fn is_object_id(s: Seq<char>) -> bool {
    s.len() == 24 && forall|i: int| 0 <= i < 24 ==> is_hex_char(#[trigger] s[i])
}

/// Decide whether a caller-supplied id is well-formed.
pub fn validate_object_id(id: &str) -> (ok: bool)
    ensures
        ok == is_object_id(id@),
{
    let n = id.unicode_len();
    if n != 24 {
        return false;
    }
    let mut i: usize = 0;
    while i < 24
        invariant
            id@.len() == 24,
            i <= 24,
            forall|j: int| 0 <= j < i ==> is_hex_char(#[trigger] id@[j]),
        decreases 24 - i,
    {
        let c = id.get_char(i);
        let hex = ('0' <= c && c <= '9') || ('a' <= c && c <= 'f') || ('A' <= c && c <= 'F');
        if !hex {
            return false;
        }
        i = i + 1;
    }
    true
}

/// Check a caller-supplied id, returning the error the store layer reports
/// for a malformed identifier.
pub fn check_object_id(id: &str) -> (r: Result<(), AppError>)
    ensures
        r is Ok <==> is_object_id(id@),
        r matches Err(e) ==> e.error_type == AppErrorType::InavlidId,
{
    if validate_object_id(id) {
        Ok(())
    } else {
        Err(
            AppError {
                message: Some("Invalid Id".to_owned()),
                cause: None,
                error_type: AppErrorType::InavlidId,
            },
        )
    }
}

/// The lowercase digit for one value below sixteen.
pub open spec fn hex_digit(d: u64) -> char {
    if d == 0 {
        '0'
    } else if d == 1 {
        '1'
    } else if d == 2 {
        '2'
    } else if d == 3 {
        '3'
    } else if d == 4 {
        '4'
    } else if d == 5 {
        '5'
    } else if d == 6 {
        '6'
    } else if d == 7 {
        '7'
    } else if d == 8 {
        '8'
    } else if d == 9 {
        '9'
    } else if d == 10 {
        'a'
    } else if d == 11 {
        'b'
    } else if d == 12 {
        'c'
    } else if d == 13 {
        'd'
    } else if d == 14 {
        'e'
    } else {
        'f'
    }
}

/// The j-th nibble of a counter value, counted from the least significant.
pub open spec fn nibble_of(n: u64, j: int) -> u64 {
    (n >> (4 * j) as u64) & 0xf
}

/// The id the store mints for the n-th inserted document: eight zero
/// characters, then the sixteen nibbles of the counter, most significant
/// first, in lowercase hex.
pub open spec fn minted_id(n: u64) -> Seq<char> {
    Seq::new(24, |i: int| if i < 8 { '0' } else { hex_digit(nibble_of(n, 23 - i)) })
}

fn hex_char_str(d: u64) -> (r: &'static str)
    requires
        d < 16,
    ensures
        r@ =~= seq![hex_digit(d)],
{
    proof {
        reveal_strlit("0");
        reveal_strlit("1");
        reveal_strlit("2");
        reveal_strlit("3");
        reveal_strlit("4");
        reveal_strlit("5");
        reveal_strlit("6");
        reveal_strlit("7");
        reveal_strlit("8");
        reveal_strlit("9");
        reveal_strlit("a");
        reveal_strlit("b");
        reveal_strlit("c");
        reveal_strlit("d");
        reveal_strlit("e");
        reveal_strlit("f");
    }
    if d == 0 {
        "0"
    } else if d == 1 {
        "1"
    } else if d == 2 {
        "2"
    } else if d == 3 {
        "3"
    } else if d == 4 {
        "4"
    } else if d == 5 {
        "5"
    } else if d == 6 {
        "6"
    } else if d == 7 {
        "7"
    } else if d == 8 {
        "8"
    } else if d == 9 {
        "9"
    } else if d == 10 {
        "a"
    } else if d == 11 {
        "b"
    } else if d == 12 {
        "c"
    } else if d == 13 {
        "d"
    } else if d == 14 {
        "e"
    } else {
        "f"
    }
}

/// Mint the id for counter value `n`.
pub fn mint_object_id(n: u64) -> (id: String)
    ensures
        id@ == minted_id(n),
        is_object_id(id@),
{
    proof {
        reveal_strlit("00000000");
    }
    let mut s: String = "00000000".to_owned();
    assert(s@ =~= Seq::new(8, |i: int| '0'));
    let mut j: usize = 0;
    while j < 16
        invariant
            j <= 16,
            s@.len() == 8 + j,
            forall|i: int| 0 <= i < 8 ==> s@[i] == '0',
            forall|i: int| 8 <= i < 8 + j ==> s@[i] == hex_digit(nibble_of(n, 23 - i)),
        decreases 16 - j,
    {
        let shift: u64 = 4 * (15 - j as u64);
        let d: u64 = (n >> shift) & 0xf;
        proof {
            assert(d < 16 && d == nibble_of(n, 15 - j as int)) by (bit_vector)
                requires
                    d == (n >> shift) & 0xf,
                    shift == 4 * (15 - j as u64),
                    nibble_of(n, 15 - j as int) == (n >> (4 * (15 - j as int)) as u64) & 0xf,
                    j < 16,
            ;
        }
        s.append(hex_char_str(d));
        j = j + 1;
    }
    proof {
        assert(s@ =~= minted_id(n));
        assert forall|i: int| 0 <= i < 24 implies is_hex_char(#[trigger] minted_id(n)[i]) by {
            if i >= 8 {
                let k: u64 = (4 * (23 - i)) as u64;
                assert((n >> k) & 0xf < 16) by (bit_vector);
                assert(nibble_of(n, 23 - i) == (n >> k) & 0xf);
            }
        }
    }
    s
}

} // verus!
