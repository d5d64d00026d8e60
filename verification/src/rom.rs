//! The programs that the interpreter knows by name.

use vstd::prelude::*;
use vstd::string::StringSliceAdditionalSpecFns;
use vstd::utf8::encode_utf8_decode_utf8;

verus! {

/// Where the program called `name` is stored, if there is a program of
/// that name.
pub open spec fn rom_path(name: Seq<char>) -> Option<Seq<char>> {
    if name == "IBM"@ {
        Some("./IBM_Logo.ch8"@)
    } else if name == "SPACE_INVADERS"@ {
        Some("./Space_Invaders.ch8"@)
    } else if name == "TEST"@ {
        Some("./chip8-test-suite.ch8"@)
    } else {
        None
    }
}

/// Whether two strings hold the same text.
fn same_text(a: &str, b: &str) -> (same: bool)
    ensures
        same == (a@ == b@),
{
    let left = a.as_bytes();
    let right = b.as_bytes();
    proof {
        // Text is determined by its UTF-8 encoding.
        encode_utf8_decode_utf8(a@);
        encode_utf8_decode_utf8(b@);
    }
    if left.len() != right.len() {
        return false;
    }
    let mut k: usize = 0;
    while k < left.len()
        invariant
            k <= left@.len(),
            left@.len() == right@.len(),
            left@ == a.spec_bytes(),
            right@ == b.spec_bytes(),
            forall|j: int| 0 <= j < k ==> left@[j] == right@[j],
        decreases left@.len() - k,
    {
        if left[k] != right[k] {
            return false;
        }
        k += 1;
    }
    assert(left@ =~= right@);
    true
}

/// Looks up the stored program called `name`. Names are matched exactly;
/// an unknown name yields nothing.
pub fn get_rom(name: &str) -> (path: Option<&'static str>)
    ensures
        match path {
            Some(p) => rom_path(name@) == Some(p@),
            None => rom_path(name@) is None,
        },
{
    if same_text(name, "IBM") {
        Some("./IBM_Logo.ch8")
    } else if same_text(name, "SPACE_INVADERS") {
        Some("./Space_Invaders.ch8")
    } else if same_text(name, "TEST") {
        Some("./chip8-test-suite.ch8")
    } else {
        None
    }
}

} // verus!
