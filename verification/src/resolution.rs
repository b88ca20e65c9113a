//! Camera resolutions and their names.

use vstd::prelude::*;
use vstd::string::*;
use vstd::utf8::is_ascii_chars;

verus! {

/// The frame sizes the camera sensor can be switched to.
#[derive(Debug, Clone, Copy, PartialEq, Eq, Structural)]
pub enum Resolution {
    QQVGA,
    QVGA,
    VGA,
    SVGA,
    XGA,
    HD,
    SXGA,
    UXGA,
}

/// What `str::to_lowercase` returns for a string: its Unicode lowercase,
/// mostly character by character, though a capital sigma becomes a final or
/// a medial small sigma according to the characters around it.
pub uninterp spec fn unicode_lowercase(s: Seq<char>) -> Seq<char>;

/// The lowercase counterpart of an ASCII character; other characters are unchanged.
pub open spec fn ascii_lower_char(c: char) -> char {
    if 'A' <= c <= 'Z' {
        ((c as u32) + 32) as char
    } else {
        c
    }
}

/// Lowercases every ASCII letter of a character sequence.
pub open spec fn ascii_lowercase(s: Seq<char>) -> Seq<char> {
    Seq::new(s.len(), |i: int| ascii_lower_char(s[i]))
}

/// The lowercase name under which each resolution is looked up.
pub open spec fn resolution_name(r: Resolution) -> Seq<char> {
    match r {
        Resolution::QQVGA => seq!['q', 'q', 'v', 'g', 'a'],
        Resolution::QVGA => seq!['q', 'v', 'g', 'a'],
        Resolution::VGA => seq!['v', 'g', 'a'],
        Resolution::SVGA => seq!['s', 'v', 'g', 'a'],
        Resolution::XGA => seq!['x', 'g', 'a'],
        Resolution::HD => seq!['h', 'd'],
        Resolution::SXGA => seq!['s', 'x', 'g', 'a'],
        Resolution::UXGA => seq!['u', 'x', 'g', 'a'],
    }
}

/// The resolution whose lowercase name is exactly `name`, if there is one.
pub open spec fn resolution_named(name: Seq<char>) -> Option<Resolution> {
    if name == resolution_name(Resolution::QQVGA) {
        Some(Resolution::QQVGA)
    } else if name == resolution_name(Resolution::QVGA) {
        Some(Resolution::QVGA)
    } else if name == resolution_name(Resolution::VGA) {
        Some(Resolution::VGA)
    } else if name == resolution_name(Resolution::SVGA) {
        Some(Resolution::SVGA)
    } else if name == resolution_name(Resolution::XGA) {
        Some(Resolution::XGA)
    } else if name == resolution_name(Resolution::HD) {
        Some(Resolution::HD)
    } else if name == resolution_name(Resolution::SXGA) {
        Some(Resolution::SXGA)
    } else if name == resolution_name(Resolution::UXGA) {
        Some(Resolution::UXGA)
    } else {
        None
    }
}

/// Calls `str::to_lowercase`, which gives the Unicode lowercase of the
/// string (character by character, save that a capital sigma is lowercased
/// by its context). Its result is named `unicode_lowercase` of the input's
/// characters. On a string of ASCII characters that lowercase is the ASCII
/// one ('A'..='Z' to 'a'..='z', every other ASCII character unchanged), which
/// the second clause states; what it does to other characters is left unsaid.
#[verifier::external_body]
fn lowercase(s: &str) -> (r: String)
    ensures
        r@ == unicode_lowercase(s@),
        is_ascii_chars(s@) ==> r@ == ascii_lowercase(s@),
{
    s.to_lowercase()
}

fn name_matches(lower: &String, name: &str) -> (b: bool)
    ensures
        b == (lower@ == name@),
{
    let candidate = <String as StringExecFns>::from_str(name);
    *lower == candidate
}

impl Resolution {
    /// Looks a resolution up by its name, ignoring case: "qqvga", "qvga",
    /// "vga", "svga", "xga", "hd", "sxga" or "uxga".
    pub fn from_str(s: &str) -> (r: Option<Self>)
        ensures
            r == resolution_named(unicode_lowercase(s@)),
            is_ascii_chars(s@) ==> r == resolution_named(ascii_lowercase(s@)),
    {
        let lower = lowercase(s);
        proof {
            reveal_strlit("qqvga");
            assert("qqvga"@ =~= resolution_name(Resolution::QQVGA));
            reveal_strlit("qvga");
            assert("qvga"@ =~= resolution_name(Resolution::QVGA));
            reveal_strlit("vga");
            assert("vga"@ =~= resolution_name(Resolution::VGA));
            reveal_strlit("svga");
            assert("svga"@ =~= resolution_name(Resolution::SVGA));
            reveal_strlit("xga");
            assert("xga"@ =~= resolution_name(Resolution::XGA));
            reveal_strlit("hd");
            assert("hd"@ =~= resolution_name(Resolution::HD));
            reveal_strlit("sxga");
            assert("sxga"@ =~= resolution_name(Resolution::SXGA));
            reveal_strlit("uxga");
            assert("uxga"@ =~= resolution_name(Resolution::UXGA));
        }
        if name_matches(&lower, "qqvga") {
            Some(Resolution::QQVGA)
        } else if name_matches(&lower, "qvga") {
            Some(Resolution::QVGA)
        } else if name_matches(&lower, "vga") {
            Some(Resolution::VGA)
        } else if name_matches(&lower, "svga") {
            Some(Resolution::SVGA)
        } else if name_matches(&lower, "xga") {
            Some(Resolution::XGA)
        } else if name_matches(&lower, "hd") {
            Some(Resolution::HD)
        } else if name_matches(&lower, "sxga") {
            Some(Resolution::SXGA)
        } else if name_matches(&lower, "uxga") {
            Some(Resolution::UXGA)
        } else {
            None
        }
    }
}

/// Every resolution is found again under its own name, whatever the case of
/// its ASCII letters: `from_str` of a name written in any mix of upper and
/// lower case gives back the resolution it names.
pub proof fn lemma_name_round_trip(r: Resolution, s: Seq<char>)
    requires
        ascii_lowercase(s) == resolution_name(r),
    ensures
        resolution_named(ascii_lowercase(s)) == Some(r),
{
    match r {
        Resolution::QQVGA => {},
        Resolution::QVGA => {
            assert(resolution_name(Resolution::QVGA) != resolution_name(Resolution::QQVGA));
        },
        Resolution::VGA => {
            assert(resolution_name(Resolution::VGA) != resolution_name(Resolution::QQVGA));
            assert(resolution_name(Resolution::VGA)[0] != resolution_name(Resolution::QVGA)[0]);
        },
        Resolution::SVGA => {
            assert(resolution_name(Resolution::SVGA)[0] != resolution_name(Resolution::QVGA)[0]);
            assert(resolution_name(Resolution::SVGA) != resolution_name(Resolution::QQVGA));
            assert(resolution_name(Resolution::SVGA) != resolution_name(Resolution::VGA));
        },
        Resolution::XGA => {
            assert(resolution_name(Resolution::XGA)[0] != resolution_name(Resolution::VGA)[0]);
            assert(resolution_name(Resolution::XGA) != resolution_name(Resolution::QQVGA));
            assert(resolution_name(Resolution::XGA) != resolution_name(Resolution::QVGA));
            assert(resolution_name(Resolution::XGA) != resolution_name(Resolution::SVGA));
        },
        Resolution::HD => {
            assert(resolution_name(Resolution::HD) != resolution_name(Resolution::QQVGA));
            assert(resolution_name(Resolution::HD) != resolution_name(Resolution::QVGA));
            assert(resolution_name(Resolution::HD) != resolution_name(Resolution::VGA));
            assert(resolution_name(Resolution::HD) != resolution_name(Resolution::SVGA));
            assert(resolution_name(Resolution::HD) != resolution_name(Resolution::XGA));
        },
        Resolution::SXGA => {
            assert(resolution_name(Resolution::SXGA) != resolution_name(Resolution::QQVGA));
            assert(resolution_name(Resolution::SXGA)[0] != resolution_name(Resolution::QVGA)[0]);
            assert(resolution_name(Resolution::SXGA) != resolution_name(Resolution::VGA));
            assert(resolution_name(Resolution::SXGA)[1] != resolution_name(Resolution::SVGA)[1]);
            assert(resolution_name(Resolution::SXGA) != resolution_name(Resolution::XGA));
            assert(resolution_name(Resolution::SXGA) != resolution_name(Resolution::HD));
        },
        Resolution::UXGA => {
            assert(resolution_name(Resolution::UXGA) != resolution_name(Resolution::QQVGA));
            assert(resolution_name(Resolution::UXGA)[0] != resolution_name(Resolution::QVGA)[0]);
            assert(resolution_name(Resolution::UXGA) != resolution_name(Resolution::VGA));
            assert(resolution_name(Resolution::UXGA)[0] != resolution_name(Resolution::SVGA)[0]);
            assert(resolution_name(Resolution::UXGA) != resolution_name(Resolution::XGA));
            assert(resolution_name(Resolution::UXGA) != resolution_name(Resolution::HD));
            assert(resolution_name(Resolution::UXGA)[0] != resolution_name(Resolution::SXGA)[0]);
        },
    }
}

} // verus!
