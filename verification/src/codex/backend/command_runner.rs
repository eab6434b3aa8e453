use vstd::prelude::*;

use crate::codex::parser::opt_view;

verus! {

/// What a finished command printed and whether it succeeded.
#[derive(Debug, Clone, PartialEq, Eq)]
pub struct CommandOutput {
    pub success: bool,
    pub stdout: String,
    pub stderr: String,
}

/// Runs `wsl.exe` with the given arguments.
pub trait CommandRunner {
    fn run(&mut self, args: &[&str]) -> std::io::Result<CommandOutput>;
}

/// The Windows process creation flag that keeps a console window from opening.
pub const CREATE_NO_WINDOW: u32 = 0x0800_0000;

/// The creation flags for `wsl.exe`: `CREATE_NO_WINDOW` on Windows, none elsewhere.
pub fn wsl_command_creation_flags_for(target_is_windows: bool) -> (r: u32)
    ensures
        r == (if target_is_windows { CREATE_NO_WINDOW } else { 0 }),
{
    if target_is_windows {
        CREATE_NO_WINDOW
    } else {
        0
    }
}

/// UTF-16 decoding as `String::from_utf16` does it: `None` on an unpaired surrogate.
pub open spec fn utf16_text(u: Seq<u16>) -> Option<Seq<char>>
    decreases u.len(),
{
    if u.len() == 0 {
        Some(Seq::empty())
    } else if u[0] < 0xD800 || u[0] > 0xDFFF {
        match utf16_text(u.drop_first()) {
            Some(rest) => Some(seq![(u[0] as int) as char] + rest),
            None => None,
        }
    } else if u[0] <= 0xDBFF && u.len() >= 2 && 0xDC00 <= u[1] <= 0xDFFF {
        match utf16_text(u.skip(2)) {
            Some(rest) => Some(seq![(0x10000 + (u[0] - 0xD800) * 0x400 + (u[1] - 0xDC00)) as char] + rest),
            None => None,
        }
    } else {
        None
    }
}

/// What `String::from_utf8_lossy` makes of bytes (invalid sequences become U+FFFD).
pub uninterp spec fn utf8_lossy_text(bytes: Seq<u8>) -> Seq<char>;

/// `String::from_utf16(units).ok()`; the contract states the UTF-16 decoding rule.
#[verifier::external_body]
fn decode_utf16(units: &[u16]) -> (r: Option<String>)
    ensures
        opt_view(r) == utf16_text(units@),
{
    String::from_utf16(units).ok()
}

/// `String::from_utf8_lossy(bytes).to_string()`: the named lossy decoding, which is the
/// UTF-8 decoding of bytes that are valid UTF-8.
#[verifier::external_body]
fn decode_utf8_lossy(bytes: &[u8]) -> (r: String)
    ensures
        r@ == utf8_lossy_text(bytes@),
        vstd::utf8::valid_utf8(bytes@) ==> r@ == vstd::utf8::decode_utf8(bytes@),
{
    String::from_utf8_lossy(bytes).to_string()
}

/// The output has an even length of at least two bytes with a zero byte at an odd index.
pub open spec fn looks_utf16(bytes: Seq<u8>) -> bool {
    &&& bytes.len() >= 2
    &&& bytes.len() % 2 == 0
    &&& exists|i: int| 0 <= i < bytes.len() && i % 2 == 1 && bytes[i] == 0
}

/// The little-endian 16-bit units of the bytes.
pub open spec fn le_units(bytes: Seq<u8>) -> Seq<u16> {
    Seq::new(bytes.len() / 2, |i: int| (bytes[2 * i] + 256 * bytes[2 * i + 1]) as u16)
}

/// `wsl.exe` output decoded: UTF-16LE when it looks so and decodes, else lossy UTF-8.
pub open spec fn decoded_output(bytes: Seq<u8>) -> Seq<char> {
    if looks_utf16(bytes) && utf16_text(le_units(bytes)) is Some {
        utf16_text(le_units(bytes))->0
    } else {
        utf8_lossy_text(bytes)
    }
}

pub fn decode_wsl_output(bytes: &[u8]) -> (r: String)
    ensures
        r@ == decoded_output(bytes@),
        !looks_utf16(bytes@) && vstd::utf8::valid_utf8(bytes@) ==> r@ == vstd::utf8::decode_utf8(bytes@),
{
    let n = bytes.len();
    if n >= 2 && n % 2 == 0 {
        let mut has_zero = false;
        let mut i: usize = 1;
        while i < n
            invariant
                1 <= i <= n + 1,
                n == bytes@.len(),
                n % 2 == 0,
                i % 2 == 1,
                has_zero == exists|j: int| 0 <= j < i && j % 2 == 1 && bytes@[j] == 0,
            decreases n + 1 - i,
        {
            if bytes[i] == 0 {
                has_zero = true;
            }
            proof {
                assert forall|j: int| 0 <= j < i + 2 && j % 2 == 1 && bytes@[j] == 0 implies
                    (0 <= j < i && j % 2 == 1 && bytes@[j] == 0) || (j == i as int) by {}
            }
            i += 2;
        }
        if has_zero {
            let mut units: Vec<u16> = Vec::new();
            let mut k: usize = 0;
            while k < n / 2
                invariant
                    k <= n / 2,
                    n == bytes@.len(),
                    units@ == le_units(bytes@).take(k as int),
                decreases n / 2 - k,
            {
                let unit = (bytes[2 * k] as u16) + (bytes[2 * k + 1] as u16) * 256;
                units.push(unit);
                proof {
                    assert(units@ =~= le_units(bytes@).take(k + 1));
                }
                k += 1;
            }
            assert(units@ =~= le_units(bytes@));
            if let Some(decoded) = decode_utf16(units.as_slice()) {
                return decoded;
            }
        }
    }
    decode_utf8_lossy(bytes)
}

} // verus!
