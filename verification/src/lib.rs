//! Compiler and stager for installable module bundles.
//!
//! A declarative manifest names a module (identifier, display name, semantic
//! version, author) and a list of assets to stage. This crate validates the
//! manifest fields, encodes the version as a fixed-width ordered code,
//! resolves asset paths under the project and build-output roots while
//! rejecting unsafe path shapes, and computes the staging plan that
//! materializes the module directory.

pub mod config;
pub mod deploy;
pub mod errors;
pub mod paths;
pub mod project;
pub mod version_code;

use vstd::prelude::*;

verus! {

/// A decimal digit is one of the ten characters `'0'` through `'9'`.
pub open spec fn is_digit_char(c: char) -> bool {
    '0' <= c && c <= '9'
}

/// The numeric value of a decimal digit character.
pub open spec fn digit_char_val(c: char) -> int {
    c as int - '0' as int
}

/// Compares two strings character by character.
pub fn str_eq(a: &str, b: &str) -> (r: bool)
    ensures
        r == (a@ == b@),
{
    let la = a.unicode_len();
    let lb = b.unicode_len();
    if la != lb {
        return false;
    }
    let mut i: usize = 0;
    while i < la
        invariant
            la == a@.len(),
            la == b@.len(),
            i <= la,
            forall|j: int| 0 <= j < i ==> a@[j] == b@[j],
        decreases la - i,
    {
        if a.get_char(i) != b.get_char(i) {
            return false;
        }
        i = i + 1;
    }
    proof {
        assert(a@ =~= b@);
    }
    true
}

} // verus!
