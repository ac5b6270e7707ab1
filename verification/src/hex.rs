//! Decoding a hexadecimal text into ROM bytes.
//!
//! A host hands the machine its program as a string of hex digits, two
//! per byte and in order.  Decoding that text is plain logic, so it
//! lives here, verified; only reading the text from wherever it comes
//! from stays with the host.

use vstd::prelude::*;

verus! {

/// Whether a byte of text is an ASCII hexadecimal digit.
pub open spec fn is_hex_digit(b: u8) -> bool {
    (0x30 <= b <= 0x39)  // '0' to '9'
    || (0x41 <= b <= 0x46)  // 'A' to 'F'
    || (0x61 <= b <= 0x66)  // 'a' to 'f'
}

/// The value of an ASCII hexadecimal digit.
pub open spec fn hex_digit_value(b: u8) -> u8 {
    if 0x30 <= b <= 0x39 {
        (b - 0x30) as u8
    } else if 0x41 <= b <= 0x46 {
        (b - 0x41 + 10) as u8
    } else if 0x61 <= b <= 0x66 {
        (b - 0x61 + 10) as u8
    } else {
        0
    }
}

/// The byte the `i`-th chunk of two hex digits denotes; a lone trailing
/// digit denotes its own value.
pub open spec fn chunk_value(text: Seq<u8>, i: int) -> u8 {
    if 2 * i + 1 < text.len() {
        (hex_digit_value(text[2 * i]) * 16 + hex_digit_value(text[2 * i + 1])) as u8
    } else {
        hex_digit_value(text[2 * i])
    }
}

/// Decodes ASCII text of hexadecimal digits into bytes, two digits per
/// byte and in order; a lone trailing digit stands for its own value.
/// Returns `None` exactly when some byte of the text is not a hex digit.
pub fn decode_hex(text: &Vec<u8>) -> (r: Option<Vec<u8>>)
    ensures
        r is Some <==> (forall|i: int| 0 <= i < text@.len() ==> is_hex_digit(text@[i])),
        r is Some ==> (r->Some_0)@.len() == (text@.len() + 1) / 2,
        r is Some ==> forall|i: int|
            0 <= i < (r->Some_0)@.len() ==> (r->Some_0)@[i] == chunk_value(text@, i),
{
    let mut out: Vec<u8> = Vec::new();
    let mut i: usize = 0;
    let n = text.len();
    while i < n
        invariant
            n == text@.len(),
            i <= n,
            i % 2 == 0 || i == n,
            out@.len() == (i + 1) / 2,
            forall|j: int| 0 <= j < i ==> is_hex_digit(text@[j]),
            forall|j: int| 0 <= j < out@.len() ==> out@[j] == chunk_value(text@, j),
        decreases n - i,
    {
        let hi = match hex_digit(text[i]) {
            Some(v) => v,
            None => {
                return None;
            },
        };
        if i + 1 < n {
            let lo = match hex_digit(text[i + 1]) {
                Some(v) => v,
                None => {
                    return None;
                },
            };
            out.push(hi * 16 + lo);
            i = i + 2;
        } else {
            out.push(hi);
            i = i + 1;
        }
    }
    Some(out)
}

/// The value of one hex digit, or `None` for any other byte.
fn hex_digit(b: u8) -> (r: Option<u8>)
    ensures
        r is Some <==> is_hex_digit(b),
        r is Some ==> r->Some_0 == hex_digit_value(b),
{
    if 0x30 <= b && b <= 0x39 {
        Some(b - 0x30)
    } else if 0x41 <= b && b <= 0x46 {
        Some(b - 0x41 + 10)
    } else if 0x61 <= b && b <= 0x66 {
        Some(b - 0x61 + 10)
    } else {
        None
    }
}

} // verus!
