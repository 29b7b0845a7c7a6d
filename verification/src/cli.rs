//! Helpers for a command-line front end: validation and parsing of
//! hexadecimal arguments, and the exact text of the argument errors. The
//! printing itself (and its colouring) is the front end's business; the
//! wording and the parsed bytes are decided and proved here.

use vstd::prelude::*;

verus! {

/// Whether a character is a hexadecimal digit.
pub open spec fn is_hex_digit(c: char) -> bool {
    (48 <= c as u32 <= 57) || (97 <= c as u32 <= 102) || (65 <= c as u32 <= 70)
}

/// The numeric value of a hexadecimal digit.
pub open spec fn hex_digit_val(c: char) -> int {
    if 48 <= c as u32 <= 57 {
        c as u32 - 48
    } else if 97 <= c as u32 <= 102 {
        c as u32 - 87
    } else if 65 <= c as u32 <= 70 {
        c as u32 - 55
    } else {
        0
    }
}

/// Whether the text is `0x` followed by hexadecimal digits only.
pub open spec fn spec_is_hex(t: Seq<char>) -> bool {
    t.len() >= 2 && t[0] == '0' && t[1] == 'x' && (forall|i: int|
        2 <= i < t.len() ==> is_hex_digit(t[i]))
}

/// The digits of a hexadecimal argument: the text with a leading `0x`
/// stripped when one is there.
pub open spec fn spec_hex_body(t: Seq<char>) -> Seq<char> {
    if t.len() >= 2 && t[0] == '0' && t[1] == 'x' {
        t.subrange(2, t.len() as int)
    } else {
        t
    }
}

/// The bytes a hexadecimal argument denotes: one byte per digit pair, the
/// first digit of each pair the high nibble.
pub open spec fn spec_to_hex(t: Seq<char>) -> Seq<u8> {
    let b = spec_hex_body(t);
    Seq::new(
        (b.len() / 2) as nat,
        |k: int| (16 * hex_digit_val(b[2 * k]) + hex_digit_val(b[2 * k + 1])) as u8,
    )
}

/// Whether a character is a hexadecimal digit.
fn hex_digit(c: char) -> (r: bool)
    ensures
        r == is_hex_digit(c),
{
    let v = c as u32;
    (48 <= v && v <= 57) || (97 <= v && v <= 102) || (65 <= v && v <= 70)
}

/// The numeric value of a hexadecimal digit.
fn hex_digit_value(c: char) -> (r: u8)
    requires
        is_hex_digit(c),
    ensures
        r == hex_digit_val(c),
{
    let v = c as u32;
    if 48 <= v && v <= 57 {
        (v - 48) as u8
    } else if 97 <= v && v <= 102 {
        (v - 87) as u8
    } else {
        (v - 55) as u8
    }
}

/// Whether an argument is hexadecimal: `0x` followed by hexadecimal digits
/// only (none at all is allowed).
pub fn is_hex(value: &String) -> (r: bool)
    ensures
        r == spec_is_hex(value@),
{
    let s = value.as_str();
    let n = s.unicode_len();
    if n < 2 {
        return false;
    }
    if !(s.get_char(0) == '0' && s.get_char(1) == 'x') {
        return false;
    }
    let mut i: usize = 2;
    while i < n
        invariant
            2 <= i <= n,
            n == s@.len(),
            s@ == value@,
            s@[0] == '0',
            s@[1] == 'x',
            forall|j: int| 2 <= j < i ==> is_hex_digit(s@[j]),
        decreases n - i,
    {
        if !hex_digit(s.get_char(i)) {
            return false;
        }
        i = i + 1;
    }
    true
}

/// Parse a hexadecimal argument into bytes, a pair of digits per byte. An
/// odd number of digits, or a character that is no digit, denotes nothing.
pub fn to_hex(value: &String) -> (r: Vec<u8>)
    requires
        spec_hex_body(value@).len() % 2 == 0,
        forall|i: int|
            0 <= i < spec_hex_body(value@).len() ==> is_hex_digit(spec_hex_body(value@)[i]),
    ensures
        r@ == spec_to_hex(value@),
{
    let s = value.as_str();
    let n = s.unicode_len();
    let start: usize = if n >= 2 && s.get_char(0) == '0' && s.get_char(1) == 'x' {
        2
    } else {
        0
    };
    let ghost body = spec_hex_body(value@);
    proof {
        assert(body =~= s@.subrange(start as int, n as int));
    }
    let mut out: Vec<u8> = Vec::new();
    let mut i: usize = start;
    while i < n
        invariant
            n == s@.len(),
            s@ == value@,
            start <= i <= n,
            body == spec_hex_body(value@),
            body =~= s@.subrange(start as int, n as int),
            body.len() % 2 == 0,
            forall|j: int| 0 <= j < body.len() ==> is_hex_digit(body[j]),
            (i - start) % 2 == 0,
            out@.len() == (i - start) / 2,
            forall|k: int|
                0 <= k < out@.len() ==> out@[k] == (16 * hex_digit_val(body[2 * k])
                    + hex_digit_val(body[2 * k + 1])) as u8,
        decreases n - i,
    {
        proof {
            assert(body[i - start] == s@[i as int]);
            assert(body[i + 1 - start] == s@[i + 1]);
        }
        let hi = hex_digit_value(s.get_char(i));
        let lo = hex_digit_value(s.get_char(i + 1));
        out.push(16 * hi + lo);
        i = i + 2;
    }
    proof {
        assert(out@ =~= spec_to_hex(value@));
    }
    out
}

/// The text of each argument error: a kind of one speaks of the service
/// identifier, a kind of two of the data identifier; an empty value has its
/// own wording; any other kind produces nothing.
pub open spec fn spec_cli_error_message(kind: int, value: Seq<char>) -> Seq<char> {
    if kind == 1 && value.len() == 0 {
        "error: empty value for '--sid <SID>'"@
    } else if kind == 1 {
        "error: invalid value '"@ + value
            + "' for '--sid <SID>': expect hex format (e.g 0x11 for ECU RESET)"@
    } else if kind == 2 && value.len() == 0 {
        "error: empty value for '--did <DID>'"@
    } else if kind == 2 {
        "error: invalid value '"@ + value
            + "' for '--did <DID>': expect hex format (e.g 0xF18C for ECU Serial#)"@
    } else {
        Seq::empty()
    }
}

/// Build the text of one argument error; the front end colours and prints
/// it.
pub fn cli_error_message(kind: u8, value: &str) -> (r: String)
    ensures
        r@ == spec_cli_error_message(kind as int, value@),
{
    if kind == 1 && value.is_empty() {
        String::from_str("error: empty value for '--sid <SID>'")
    } else if kind == 1 {
        let head = String::from_str("error: invalid value '");
        head.concat(value).concat(
            "' for '--sid <SID>': expect hex format (e.g 0x11 for ECU RESET)",
        )
    } else if kind == 2 && value.is_empty() {
        String::from_str("error: empty value for '--did <DID>'")
    } else if kind == 2 {
        let head = String::from_str("error: invalid value '");
        head.concat(value).concat(
            "' for '--did <DID>': expect hex format (e.g 0xF18C for ECU Serial#)",
        )
    } else {
        proof {
            reveal_strlit("");
        }
        String::from_str("")
    }
}

} // verus!
