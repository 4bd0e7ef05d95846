//! UTF-8 well-formedness over byte sequences, with a verified checker.
//!
//! The specification follows the encoding table of the Unicode standard:
//! overlong forms, surrogate code points and values above U+10FFFF are all
//! rejected, which is exactly the set of byte strings Rust accepts as `str`.

use vstd::prelude::*;

verus! {

/// A continuation byte: `10xxxxxx`.
pub open spec fn utf8_cont(b: u8) -> bool {
    0x80 <= b && b <= 0xbf
}

/// Length of the well-formed encoded scalar value beginning at `i`,
/// or 0 when no well-formed encoding begins there.
pub open spec fn utf8_step(s: Seq<u8>, i: int) -> int {
    if !(0 <= i < s.len()) {
        0
    } else {
        let b0 = s[i];
        if b0 <= 0x7f {
            1
        } else if 0xc2 <= b0 && b0 <= 0xdf {
            if i + 1 < s.len() && utf8_cont(s[i + 1]) {
                2
            } else {
                0
            }
        } else if b0 == 0xe0 {
            if i + 2 < s.len() && 0xa0 <= s[i + 1] && s[i + 1] <= 0xbf && utf8_cont(s[i + 2]) {
                3
            } else {
                0
            }
        } else if 0xe1 <= b0 && b0 <= 0xec || b0 == 0xee || b0 == 0xef {
            if i + 2 < s.len() && utf8_cont(s[i + 1]) && utf8_cont(s[i + 2]) {
                3
            } else {
                0
            }
        } else if b0 == 0xed {
            if i + 2 < s.len() && 0x80 <= s[i + 1] && s[i + 1] <= 0x9f && utf8_cont(s[i + 2]) {
                3
            } else {
                0
            }
        } else if b0 == 0xf0 {
            if i + 3 < s.len() && 0x90 <= s[i + 1] && s[i + 1] <= 0xbf && utf8_cont(s[i + 2])
                && utf8_cont(s[i + 3]) {
                4
            } else {
                0
            }
        } else if 0xf1 <= b0 && b0 <= 0xf3 {
            if i + 3 < s.len() && utf8_cont(s[i + 1]) && utf8_cont(s[i + 2]) && utf8_cont(
                s[i + 3],
            ) {
                4
            } else {
                0
            }
        } else if b0 == 0xf4 {
            if i + 3 < s.len() && 0x80 <= s[i + 1] && s[i + 1] <= 0x8f && utf8_cont(s[i + 2])
                && utf8_cont(s[i + 3]) {
                4
            } else {
                0
            }
        } else {
            0
        }
    }
}

/// The bytes from `i` to the end decompose into well-formed encodings.
pub open spec fn utf8_valid_from(s: Seq<u8>, i: int) -> bool
    decreases s.len() - i when 0 <= i <= s.len()
{
    if i >= s.len() {
        true
    } else {
        let k = utf8_step(s, i);
        k > 0 && utf8_valid_from(s, i + k)
    }
}

/// The whole byte sequence is well-formed UTF-8.
pub open spec fn is_utf8(s: Seq<u8>) -> bool {
    utf8_valid_from(s, 0)
}

/// Computes `utf8_step` executably.
fn utf8_step_at(s: &[u8], i: usize) -> (k: usize)
    requires
        i < s@.len(),
    ensures
        k == utf8_step(s@, i as int),
{
    let n: usize = s.len();
    let rem: usize = n - i;
    let b0 = s[i];
    if b0 <= 0x7f {
        1
    } else if 0xc2 <= b0 && b0 <= 0xdf {
        if rem >= 2 && 0x80 <= s[i + 1] && s[i + 1] <= 0xbf {
            2
        } else {
            0
        }
    } else if b0 == 0xe0 {
        if rem >= 3 && 0xa0 <= s[i + 1] && s[i + 1] <= 0xbf && 0x80 <= s[i + 2] && s[i + 2]
            <= 0xbf {
            3
        } else {
            0
        }
    } else if (0xe1 <= b0 && b0 <= 0xec) || b0 == 0xee || b0 == 0xef {
        if rem >= 3 && 0x80 <= s[i + 1] && s[i + 1] <= 0xbf && 0x80 <= s[i + 2] && s[i + 2]
            <= 0xbf {
            3
        } else {
            0
        }
    } else if b0 == 0xed {
        if rem >= 3 && 0x80 <= s[i + 1] && s[i + 1] <= 0x9f && 0x80 <= s[i + 2] && s[i + 2]
            <= 0xbf {
            3
        } else {
            0
        }
    } else if b0 == 0xf0 {
        if rem >= 4 && 0x90 <= s[i + 1] && s[i + 1] <= 0xbf && 0x80 <= s[i + 2] && s[i + 2]
            <= 0xbf && 0x80 <= s[i + 3] && s[i + 3] <= 0xbf {
            4
        } else {
            0
        }
    } else if 0xf1 <= b0 && b0 <= 0xf3 {
        if rem >= 4 && 0x80 <= s[i + 1] && s[i + 1] <= 0xbf && 0x80 <= s[i + 2] && s[i + 2]
            <= 0xbf && 0x80 <= s[i + 3] && s[i + 3] <= 0xbf {
            4
        } else {
            0
        }
    } else if b0 == 0xf4 {
        if rem >= 4 && 0x80 <= s[i + 1] && s[i + 1] <= 0x8f && 0x80 <= s[i + 2] && s[i + 2]
            <= 0xbf && 0x80 <= s[i + 3] && s[i + 3] <= 0xbf {
            4
        } else {
            0
        }
    } else {
        0
    }
}

/// Decides whether `s` is well-formed UTF-8.
pub fn is_utf8_bytes(s: &[u8]) -> (r: bool)
    ensures
        r == is_utf8(s@),
{
    let n: usize = s.len();
    let mut i: usize = 0;
    while i < n
        invariant
            0 <= i <= n,
            n == s@.len(),
            is_utf8(s@) == utf8_valid_from(s@, i as int),
        decreases n - i,
    {
        let k = utf8_step_at(s, i);
        if k == 0 {
            return false;
        }
        i = i + k;
    }
    true
}

} // verus!
