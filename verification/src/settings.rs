//! Graphics quality presets. The preset names are matched without regard to
//! ASCII letter case.

use vstd::prelude::*;

verus! {

/// Quality preset levels.
#[derive(Debug, Clone, Copy, PartialEq, Eq, Structural)]
pub enum QualityPreset {
    Low,
    Medium,
    High,
}

impl Default for QualityPreset {
    fn default() -> (r: Self)
        ensures
            r == QualityPreset::Medium,
    {
        QualityPreset::Medium
    }
}

/// Lower-case image of one character, folding only the ASCII range.
pub open spec fn ascii_lower(c: char) -> char {
    if 'A' <= c && c <= 'Z' {
        (((c as u32) + 32) as u8) as char
    } else {
        c
    }
}

/// Lower-case image of a character sequence, folding only the ASCII range.
pub open spec fn ascii_lower_seq(s: Seq<char>) -> Seq<char> {
    s.map_values(|c: char| ascii_lower(c))
}

impl QualityPreset {
    /// The canonical display name of the preset.
    pub fn as_str(&self) -> (r: &'static str)
        ensures
            *self == QualityPreset::Low ==> r@ == "Low"@,
            *self == QualityPreset::Medium ==> r@ == "Medium"@,
            *self == QualityPreset::High ==> r@ == "High"@,
    {
        match self {
            QualityPreset::Low => "Low",
            QualityPreset::Medium => "Medium",
            QualityPreset::High => "High",
        }
    }

    /// Which preset a name denotes, ignoring ASCII letter case; "med" is an
    /// accepted abbreviation. Unknown names denote no preset.
    pub open spec fn spec_from_str(s: Seq<char>) -> Option<QualityPreset> {
        if ascii_lower_seq(s) == "low"@ {
            Some(QualityPreset::Low)
        } else if ascii_lower_seq(s) == "medium"@ || ascii_lower_seq(s) == "med"@ {
            Some(QualityPreset::Medium)
        } else if ascii_lower_seq(s) == "high"@ {
            Some(QualityPreset::High)
        } else {
            None
        }
    }

    /// Parse a preset name, ignoring ASCII letter case.
    pub fn from_str(s: &str) -> (r: Option<QualityPreset>)
        ensures
            r == Self::spec_from_str(s@),
    {
        proof {
            reveal_strlit("low");
            reveal_strlit("medium");
            reveal_strlit("med");
            reveal_strlit("high");
            assert(ascii_lower_seq("low"@) =~= "low"@);
            assert(ascii_lower_seq("medium"@) =~= "medium"@);
            assert(ascii_lower_seq("med"@) =~= "med"@);
            assert(ascii_lower_seq("high"@) =~= "high"@);
        }
        if str_eq_ignore_ascii_case(s, "low") {
            Some(QualityPreset::Low)
        } else if str_eq_ignore_ascii_case(s, "medium") || str_eq_ignore_ascii_case(s, "med") {
            Some(QualityPreset::Medium)
        } else if str_eq_ignore_ascii_case(s, "high") {
            Some(QualityPreset::High)
        } else {
            None
        }
    }

    /// Maximum live particles rendered under this preset.
    pub open spec fn spec_max_particles(self) -> usize {
        match self {
            QualityPreset::Low => 100usize,
            QualityPreset::Medium => 500usize,
            QualityPreset::High => 2000usize,
        }
    }

    /// Maximum live particles rendered under this preset.
    pub fn max_particles(&self) -> (r: usize)
        ensures
            r == self.spec_max_particles(),
    {
        match self {
            QualityPreset::Low => 100,
            QualityPreset::Medium => 500,
            QualityPreset::High => 2000,
        }
    }

    /// Whether the starfield parallax background is rendered.
    pub fn starfield_enabled(&self) -> (r: bool)
        ensures
            r == (*self != QualityPreset::Low),
    {
        match self {
            QualityPreset::Low => false,
            QualityPreset::Medium => true,
            QualityPreset::High => true,
        }
    }

    /// Whether the nebula background is rendered.
    pub fn nebula_enabled(&self) -> (r: bool)
        ensures
            r == (*self == QualityPreset::High),
    {
        match self {
            QualityPreset::Low => false,
            QualityPreset::Medium => false,
            QualityPreset::High => true,
        }
    }
}

/// Compare a string against a pattern, folding ASCII upper case on both
/// sides; the patterns used here are all-lower-case literals.
fn str_eq_ignore_ascii_case(s: &str, pattern: &str) -> (r: bool)
    ensures
        r == (ascii_lower_seq(s@) == ascii_lower_seq(pattern@)),
{
    let n = s.unicode_len();
    let m = pattern.unicode_len();
    if n != m {
        assert(ascii_lower_seq(s@).len() == s@.len());
        assert(ascii_lower_seq(pattern@).len() == pattern@.len());
        return false;
    }
    let mut i: usize = 0;
    while i < n
        invariant
            i <= n,
            n == s@.len(),
            n == pattern@.len(),
            forall|j: int| 0 <= j < i ==> ascii_lower(s@[j]) == ascii_lower(pattern@[j]),
        decreases n - i,
    {
        let a = char_lower(s.get_char(i));
        let b = char_lower(pattern.get_char(i));
        if a != b {
            assert(ascii_lower_seq(s@)[i as int] != ascii_lower_seq(pattern@)[i as int]);
            return false;
        }
        i += 1;
    }
    assert(ascii_lower_seq(s@) =~= ascii_lower_seq(pattern@));
    true
}

/// Fold one character to lower case within the ASCII range.
fn char_lower(c: char) -> (r: char)
    ensures
        r == ascii_lower(c),
{
    if 'A' <= c && c <= 'Z' {
        let code = c as u32;
        ((code + 32) as u8) as char
    } else {
        c
    }
}

} // verus!
