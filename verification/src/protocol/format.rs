//! Rendering of raw bytes as hexadecimal, printable ASCII or UTF-8 text.
use vstd::prelude::*;
use vstd::string::*;
use crate::config::DisplayFormat;
use crate::text::{hex_joined, lossy_utf8, push_char, push_hex_joined, decode_lossy};

verus! {

/// How a byte is shown in ASCII mode: printable ASCII and space as
/// themselves, everything else as `.`.
pub open spec fn shown_char(b: u8) -> char {
    if (0x21 <= b && b <= 0x7e) || b == 0x20 {
        b as char
    } else {
        '.'
    }
}

/// The bytes in ASCII mode.
pub open spec fn ascii_shown(data: Seq<u8>) -> Seq<char> {
    Seq::new(data.len(), |i: int| shown_char(data[i]))
}

/// The text `format_bytes` gives for the bytes in the given format.
pub open spec fn formatted(data: Seq<u8>, format: DisplayFormat) -> Seq<char> {
    match format {
        DisplayFormat::Hex => hex_joined(data),
        DisplayFormat::Ascii => ascii_shown(data),
        DisplayFormat::Raw => lossy_utf8(data),
    }
}

/// Renders bytes in the given display format.
pub fn format_bytes(data: &[u8], format: DisplayFormat) -> (res: String)
    ensures
        res@ == formatted(data@, format),
{
    match format {
        DisplayFormat::Hex => {
            let mut out = String::new();
            push_hex_joined(&mut out, data, 0);
            assert(data@.subrange(0, data@.len() as int) =~= data@);
            out
        },
        DisplayFormat::Ascii => {
            let mut out = String::new();
            let n = data.len();
            let mut i: usize = 0;
            while i < n
                invariant
                    n == data@.len(),
                    i <= n,
                    out@ =~= ascii_shown(data@.subrange(0, i as int)),
                decreases n - i,
            {
                let b = data[i];
                let c = if (0x21 <= b && b <= 0x7e) || b == 0x20 {
                    b as char
                } else {
                    '.'
                };
                push_char(&mut out, c);
                i = i + 1;
            }
            assert(data@.subrange(0, n as int) =~= data@);
            out
        },
        DisplayFormat::Raw => decode_lossy(data),
    }
}

/// Law: hexadecimal output takes three characters per byte, less the
/// separator after the last one.
pub proof fn law_hex_length(data: Seq<u8>)
    ensures
        hex_joined(data).len() == if data.len() == 0 { 0 } else { 3 * data.len() - 1 },
    decreases data.len(),
{
    if data.len() > 1 {
        law_hex_length(data.drop_last());
    }
}

/// Law: ASCII output has one character per byte, and every character is
/// printable ASCII or a space.
pub proof fn law_ascii_is_printable(data: Seq<u8>)
    ensures
        ascii_shown(data).len() == data.len(),
        forall|i: int| 0 <= i < data.len() ==> 0x20 <= (#[trigger] ascii_shown(data)[i]) as u32 <= 0x7e,
{
}

} // verus!
