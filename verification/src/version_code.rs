//! Deterministic version-code encoding of semantic version strings.
//!
//! The grammar is `major.minor.patch[-pretype[.precode]]` where `major`,
//! `minor` and `patch` are one or two decimal digits each (0–99),
//! `pretype` is one of `alpha`, `beta`, `rc`, and `precode` is one or two
//! decimal digits (0–99, default 0). The encoding is a sequence of exactly
//! nine decimal digits: two for each of major, minor and patch, one
//! release-type weight (`alpha`=1, `beta`=2, `rc`=3, no suffix=9), and two
//! for the pre-release number. Comparing the nine digits as an unsigned
//! integer agrees with the intended release ordering: for equal
//! `(major,minor,patch)`, no suffix > `rc` > `beta` > `alpha`, and within
//! one release type a higher pre-release number sorts higher.

use vstd::prelude::*;

use crate::digit_char_val;
use crate::errors::ConfigError;
use crate::errors::VersionPart;
use crate::is_digit_char;
use crate::str_eq;

verus! {

/// The release type named by a version's pre-release qualifier, or
/// `Stable` when the version has none.
#[derive(Clone, Copy, Debug, PartialEq, Eq, Structural)]
pub enum ReleaseType {
    Alpha,
    Beta,
    Rc,
    Stable,
}

impl ReleaseType {
    /// The weight digit of this release type in the encoded version code.
    /// Weights order release types as releases are ordered: a stable
    /// release outranks every pre-release of the same version.
    pub open spec fn spec_weight(self) -> int {
        match self {
            ReleaseType::Alpha => 1,
            ReleaseType::Beta => 2,
            ReleaseType::Rc => 3,
            ReleaseType::Stable => 9,
        }
    }

    /// The weight digit of this release type.
    pub fn weight(&self) -> (w: u8)
        ensures
            w as int == self.spec_weight(),
    {
        match self {
            ReleaseType::Alpha => 1,
            ReleaseType::Beta => 2,
            ReleaseType::Rc => 3,
            ReleaseType::Stable => 9,
        }
    }

    /// Maps a pre-release label to its release type: only `alpha`, `beta`
    /// and `rc` may be written in a version string.
    pub open spec fn spec_of_label(s: Seq<char>) -> Option<ReleaseType> {
        if s == "alpha"@ {
            Some(ReleaseType::Alpha)
        } else if s == "beta"@ {
            Some(ReleaseType::Beta)
        } else if s == "rc"@ {
            Some(ReleaseType::Rc)
        } else {
            None
        }
    }

    /// Parses a pre-release label.
    pub fn try_from(name: &str) -> (r: Result<ReleaseType, ConfigError>)
        ensures
            match r {
                Ok(t) => Self::spec_of_label(name@) == Some(t),
                Err(e) => Self::spec_of_label(name@) is None && e == ConfigError::VersionFormat(
                    VersionPart::PreType,
                ),
            },
    {
        if str_eq(name, "alpha") {
            Ok(ReleaseType::Alpha)
        } else if str_eq(name, "beta") {
            Ok(ReleaseType::Beta)
        } else if str_eq(name, "rc") {
            Ok(ReleaseType::Rc)
        } else {
            Err(ConfigError::VersionFormat(VersionPart::PreType))
        }
    }
}

/// The parsed numeric content of a version string: the three version
/// groups, the release-type weight and the pre-release number.
pub struct SemVer {
    pub major: int,
    pub minor: int,
    pub patch: int,
    pub weight: int,
    pub pre_code: int,
}

impl SemVer {
    /// Each group fits in two decimal digits, the weight is one of the
    /// four release-type weights, and a version without a pre-release
    /// suffix has pre-release number zero.
    pub open spec fn wf(self) -> bool {
        &&& 0 <= self.major <= 99
        &&& 0 <= self.minor <= 99
        &&& 0 <= self.patch <= 99
        &&& (self.weight == 1 || self.weight == 2 || self.weight == 3 || self.weight == 9)
        &&& 0 <= self.pre_code <= 99
        &&& (self.weight == 9 ==> self.pre_code == 0)
    }
}

/// Semantic-version precedence: lexicographic on major, minor, patch,
/// release-type weight, pre-release number. Because the weights order the
/// release types as releases are ordered, this is the intended release
/// ordering.
pub open spec fn semver_lt(a: SemVer, b: SemVer) -> bool {
    ||| a.major < b.major
    ||| (a.major == b.major && a.minor < b.minor)
    ||| (a.major == b.major && a.minor == b.minor && a.patch < b.patch)
    ||| (a.major == b.major && a.minor == b.minor && a.patch == b.patch && a.weight < b.weight)
    ||| (a.major == b.major && a.minor == b.minor && a.patch == b.patch && a.weight == b.weight
        && a.pre_code < b.pre_code)
}

/// The nine digits that encode a parsed version, most significant first:
/// major (2), minor (2), patch (2), weight (1), pre-release number (2).
pub open spec fn encode_digits(v: SemVer) -> Seq<u8> {
    seq![
        (v.major / 10) as u8,
        (v.major % 10) as u8,
        (v.minor / 10) as u8,
        (v.minor % 10) as u8,
        (v.patch / 10) as u8,
        (v.patch % 10) as u8,
        v.weight as u8,
        (v.pre_code / 10) as u8,
        (v.pre_code % 10) as u8,
    ]
}

/// The value of a nine-digit code read as one decimal number.
pub open spec fn code_value(ds: Seq<u8>) -> int
    recommends
        ds.len() == 9,
{
    ds[0] * 100000000 + ds[1] * 10000000 + ds[2] * 1000000 + ds[3] * 100000 + ds[4] * 10000 + ds[5]
        * 1000 + ds[6] * 100 + ds[7] * 10 + ds[8]
}

/// An encoded version is nine decimal digits.
pub proof fn lemma_encode_digits_wf(v: SemVer)
    requires
        v.wf(),
    ensures
        encode_digits(v).len() == 9,
        forall|i: int| 0 <= i < 9 ==> encode_digits(v)[i] < 10,
{
    let ds = encode_digits(v);
    assert(ds[0] < 10 && ds[1] < 10);
    assert(ds[2] < 10 && ds[3] < 10);
    assert(ds[4] < 10 && ds[5] < 10);
    assert(ds[6] < 10 && ds[7] < 10 && ds[8] < 10);
}

/// Read as one decimal number, the encoded digits are the positional sum
/// of the parsed fields.
pub proof fn lemma_code_value_positional(v: SemVer)
    requires
        v.wf(),
    ensures
        code_value(encode_digits(v)) == v.major * 10000000 + v.minor * 100000 + v.patch * 1000
            + v.weight * 100 + v.pre_code,
{
    vstd::arithmetic::div_mod::lemma_fundamental_div_mod(v.major, 10);
    vstd::arithmetic::div_mod::lemma_fundamental_div_mod(v.minor, 10);
    vstd::arithmetic::div_mod::lemma_fundamental_div_mod(v.patch, 10);
    vstd::arithmetic::div_mod::lemma_fundamental_div_mod(v.pre_code, 10);
}

/// Scans a group of one or two decimal digits at position `i`. The group
/// is two digits exactly when two digits stand there; a third digit makes
/// the following separator check fail, so three-digit groups are rejected.
/// Returns the group's value and the position after it.
pub open spec fn scan_num(s: Seq<char>, i: int) -> Option<(int, int)> {
    if 0 <= i < s.len() && is_digit_char(s[i]) {
        if i + 1 < s.len() && is_digit_char(s[i + 1]) {
            Some((digit_char_val(s[i]) * 10 + digit_char_val(s[i + 1]), i + 2))
        } else {
            Some((digit_char_val(s[i]), i + 1))
        }
    } else {
        None
    }
}

/// The position of the first `.` at or after `i`, or the end of the
/// string if none follows.
pub open spec fn label_end(s: Seq<char>, i: int) -> int
    recommends
        0 <= i <= s.len(),
    decreases s.len() - i,
{
    if i < s.len() {
        if s[i] == '.' {
            i
        } else {
            label_end(s, i + 1)
        }
    } else {
        s.len() as int
    }
}

/// Parses the optional pre-release suffix standing at position `i`, which
/// is just past the patch group. An empty rest encodes as `Stable` with
/// pre-release number zero; otherwise the rest must be `-` followed by a
/// recognized label and an optional `.` and one or two digits.
pub open spec fn spec_parse_suffix(s: Seq<char>, i: int) -> Result<(int, int), VersionPart> {
    if i == s.len() {
        Ok((ReleaseType::Stable.spec_weight(), 0))
    } else if s[i] != '-' {
        Err(VersionPart::PreType)
    } else {
        let le = label_end(s, i + 1);
        match ReleaseType::spec_of_label(s.subrange(i + 1, le)) {
            None => Err(VersionPart::PreType),
            Some(t) => if le == s.len() {
                Ok((t.spec_weight(), 0))
            } else {
                // label_end stopped at a '.', so a pre-release number must follow
                match scan_num(s, le + 1) {
                    None => Err(VersionPart::PreCode),
                    Some((pc, j)) => if j == s.len() {
                        Ok((t.spec_weight(), pc))
                    } else {
                        Err(VersionPart::PreCode)
                    },
                }
            },
        }
    }
}

/// Parses a whole version string, or names the subcomponent that made it
/// fail. A group's trailing separator is attributed to that group; text
/// after the patch group that is not a `-` suffix is attributed to the
/// pre-release label.
pub open spec fn spec_parse_version(s: Seq<char>) -> Result<SemVer, VersionPart> {
    match scan_num(s, 0) {
        None => Err(VersionPart::Major),
        Some((major, i1)) => if !(i1 < s.len() && s[i1] == '.') {
            Err(VersionPart::Major)
        } else {
            match scan_num(s, i1 + 1) {
                None => Err(VersionPart::Minor),
                Some((minor, i2)) => if !(i2 < s.len() && s[i2] == '.') {
                    Err(VersionPart::Minor)
                } else {
                    match scan_num(s, i2 + 1) {
                        None => Err(VersionPart::Patch),
                        Some((patch, i3)) => match spec_parse_suffix(s, i3) {
                            Err(p) => Err(p),
                            Ok((weight, pre_code)) => Ok(
                                SemVer { major, minor, patch, weight, pre_code },
                            ),
                        },
                    }
                },
            }
        },
    }
}

/// A successfully parsed version is well formed.
pub proof fn lemma_parse_version_wf(s: Seq<char>)
    requires
        spec_parse_version(s) is Ok,
    ensures
        spec_parse_version(s)->Ok_0.wf(),
{
}

/// The encoding is strictly monotonic: a version that precedes another in
/// semantic-version order encodes to a strictly smaller number. The
/// consuming platform may therefore order installed modules purely by
/// comparing encoded codes.
pub proof fn lemma_encode_monotonic(a: SemVer, b: SemVer)
    requires
        a.wf(),
        b.wf(),
        semver_lt(a, b),
    ensures
        code_value(encode_digits(a)) < code_value(encode_digits(b)),
{
    lemma_code_value_positional(a);
    lemma_code_value_positional(b);
}

/// The character that writes a decimal digit; values above nine clamp to
/// `'9'`, which no well-formed code contains.
pub open spec fn digit_char(d: u8) -> char {
    if d == 0 {
        '0'
    } else if d == 1 {
        '1'
    } else if d == 2 {
        '2'
    } else if d == 3 {
        '3'
    } else if d == 4 {
        '4'
    } else if d == 5 {
        '5'
    } else if d == 6 {
        '6'
    } else if d == 7 {
        '7'
    } else if d == 8 {
        '8'
    } else {
        '9'
    }
}

/// The characters that write a digit sequence.
pub open spec fn code_chars(ds: Seq<u8>) -> Seq<char> {
    Seq::new(ds.len(), |i: int| digit_char(ds[i]))
}

/// The one-character string that writes a decimal digit.
fn digit_str(d: u8) -> (r: &'static str)
    ensures
        r@ =~= seq![digit_char(d)],
{
    match d {
        0 => {
            proof {
                reveal_strlit("0");
            }
            "0"
        },
        1 => {
            proof {
                reveal_strlit("1");
            }
            "1"
        },
        2 => {
            proof {
                reveal_strlit("2");
            }
            "2"
        },
        3 => {
            proof {
                reveal_strlit("3");
            }
            "3"
        },
        4 => {
            proof {
                reveal_strlit("4");
            }
            "4"
        },
        5 => {
            proof {
                reveal_strlit("5");
            }
            "5"
        },
        6 => {
            proof {
                reveal_strlit("6");
            }
            "6"
        },
        7 => {
            proof {
                reveal_strlit("7");
            }
            "7"
        },
        8 => {
            proof {
                reveal_strlit("8");
            }
            "8"
        },
        _ => {
            proof {
                reveal_strlit("9");
            }
            "9"
        },
    }
}

/// Two version strings that both parse are ordered by their codes as
/// their versions are ordered: the encoding never reorders releases.
pub proof fn lemma_version_codes_ordered(s1: Seq<char>, s2: Seq<char>)
    requires
        spec_parse_version(s1) is Ok,
        spec_parse_version(s2) is Ok,
        semver_lt(spec_parse_version(s1)->Ok_0, spec_parse_version(s2)->Ok_0),
    ensures
        code_value(encode_digits(spec_parse_version(s1)->Ok_0)) < code_value(
            encode_digits(spec_parse_version(s2)->Ok_0),
        ),
{
    lemma_parse_version_wf(s1);
    lemma_parse_version_wf(s2);
    lemma_encode_monotonic(spec_parse_version(s1)->Ok_0, spec_parse_version(s2)->Ok_0);
}

/// The numeric value of a decimal digit character.
fn digit_val(c: char) -> (r: u8)
    requires
        is_digit_char(c),
    ensures
        r as int == digit_char_val(c),
        r < 10,
{
    (c as u32 - '0' as u32) as u8
}

/// Scans a group of one or two decimal digits at position `i`.
fn scan_num_at(s: &str, i: usize, n: usize) -> (r: Option<(u8, usize)>)
    requires
        n == s@.len(),
        i <= n,
    ensures
        match r {
            Some(p) => scan_num(s@, i as int) == Some((p.0 as int, p.1 as int)) && p.0 <= 99 && i
                < p.1 <= n,
            None => scan_num(s@, i as int) is None,
        },
{
    if i < n {
        let c0 = s.get_char(i);
        if '0' <= c0 && c0 <= '9' {
            let d0 = digit_val(c0);
            if i + 1 < n {
                let c1 = s.get_char(i + 1);
                if '0' <= c1 && c1 <= '9' {
                    let d1 = digit_val(c1);
                    return Some((d0 * 10 + d1, i + 2));
                }
            }
            return Some((d0, i + 1));
        }
    }
    None
}

/// Walks to the first `.` at or after `i`, or to the end of the string.
fn label_end_at(s: &str, i: usize, n: usize) -> (r: usize)
    requires
        n == s@.len(),
        i <= n,
    ensures
        r as int == label_end(s@, i as int),
        i <= r <= n,
        r < n ==> s@[r as int] == '.',
{
    let mut j: usize = i;
    while j < n && s.get_char(j) != '.'
        invariant
            n == s@.len(),
            i <= j <= n,
            label_end(s@, i as int) == label_end(s@, j as int),
        decreases n - j,
    {
        j = j + 1;
    }
    j
}

/// A fixed-width ordered encoding of a semantic version: a sequence of
/// exactly nine decimal digits, most significant first.
#[derive(Debug)]
pub struct VersionCode {
    digits: Vec<u8>,
}

impl View for VersionCode {
    type V = Seq<u8>;

    closed spec fn view(&self) -> Seq<u8> {
        self.digits@
    }
}

impl VersionCode {
    /// Nine decimal digits.
    pub open spec fn wf(self) -> bool {
        self@.len() == 9 && forall|i: int| 0 <= i < 9 ==> self@[i] < 10
    }

    /// The nine digits, most significant first.
    pub fn digits(&self) -> (r: Vec<u8>)
        ensures
            r@ == self@,
    {
        let mut r: Vec<u8> = Vec::new();
        let mut i: usize = 0;
        while i < self.digits.len()
            invariant
                i <= self.digits.len(),
                r@ == self.digits@.subrange(0, i as int),
            decreases self.digits.len() - i,
        {
            r.push(self.digits[i]);
            assert(r@ =~= self.digits@.subrange(0, i + 1));
            i = i + 1;
        }
        proof {
            assert(r@ =~= self@);
        }
        r
    }

    /// Writes `value` as two decimal digits at `start_arr` and
    /// `start_arr + 1`, leaving the other positions unchanged.
    pub fn set_two_digits(value: u8, arr: &mut Vec<u8>, start_arr: usize)
        requires
            value <= 99,
            old(arr)@.len() == 9,
            start_arr + 1 < 9,
        ensures
            final(arr)@.len() == 9,
            final(arr)@[start_arr as int] == value / 10,
            final(arr)@[start_arr as int + 1] == value % 10,
            forall|k: int|
                0 <= k < 9 && k != start_arr && k != start_arr + 1 ==> final(arr)@[k] == old(
                    arr,
                )@[k],
    {
        if value >= 10 {
            arr.set(start_arr, value / 10);
            arr.set(start_arr + 1, value % 10);
        } else {
            arr.set(start_arr, 0);
            arr.set(start_arr + 1, value);
        }
    }

    /// Parses a version string into its nine-digit code, or names the
    /// subcomponent of the string that made parsing fail.
    pub fn try_from(value: &str) -> (r: Result<VersionCode, ConfigError>)
        ensures
            match r {
                Ok(vc) => spec_parse_version(value@) is Ok && vc.wf() && vc@ == encode_digits(
                    spec_parse_version(value@)->Ok_0,
                ),
                Err(e) => spec_parse_version(value@) is Err && e == ConfigError::VersionFormat(
                    spec_parse_version(value@)->Err_0,
                ),
            },
    {
        let n = value.unicode_len();
        let (major, i1) = match scan_num_at(value, 0, n) {
            Some(p) => p,
            None => {
                return Err(ConfigError::VersionFormat(VersionPart::Major));
            },
        };
        if !(i1 < n && value.get_char(i1) == '.') {
            return Err(ConfigError::VersionFormat(VersionPart::Major));
        }
        let (minor, i2) = match scan_num_at(value, i1 + 1, n) {
            Some(p) => p,
            None => {
                return Err(ConfigError::VersionFormat(VersionPart::Minor));
            },
        };
        if !(i2 < n && value.get_char(i2) == '.') {
            return Err(ConfigError::VersionFormat(VersionPart::Minor));
        }
        let (patch, i3) = match scan_num_at(value, i2 + 1, n) {
            Some(p) => p,
            None => {
                return Err(ConfigError::VersionFormat(VersionPart::Patch));
            },
        };
        let (release_type, pre_code) = if i3 == n {
            (ReleaseType::Stable, 0u8)
        } else {
            if value.get_char(i3) != '-' {
                return Err(ConfigError::VersionFormat(VersionPart::PreType));
            }
            let le = label_end_at(value, i3 + 1, n);
            let label = value.substring_char(i3 + 1, le);
            let release_type = match ReleaseType::try_from(label) {
                Ok(t) => t,
                Err(e) => {
                    return Err(e);
                },
            };
            if le == n {
                (release_type, 0u8)
            } else {
                let (pc, j) = match scan_num_at(value, le + 1, n) {
                    Some(p) => p,
                    None => {
                        return Err(ConfigError::VersionFormat(VersionPart::PreCode));
                    },
                };
                if j != n {
                    return Err(ConfigError::VersionFormat(VersionPart::PreCode));
                }
                (release_type, pc)
            }
        };
        let mut digits: Vec<u8> = Vec::new();
        let mut k: usize = 0;
        while k < 9
            invariant
                k <= 9,
                digits@.len() == k,
            decreases 9 - k,
        {
            digits.push(0);
            k = k + 1;
        }
        Self::set_two_digits(major, &mut digits, 0);
        Self::set_two_digits(minor, &mut digits, 2);
        Self::set_two_digits(patch, &mut digits, 4);
        digits.set(6, release_type.weight());
        Self::set_two_digits(pre_code, &mut digits, 7);
        proof {
            let v = spec_parse_version(value@)->Ok_0;
            assert(digits@ =~= encode_digits(v));
        }
        Ok(VersionCode { digits })
    }

    /// Writes the nine digits as a string of nine characters.
    pub fn code_string(&self) -> (r: String)
        ensures
            r@ == code_chars(self@),
    {
        let mut acc = String::new();
        let mut i: usize = 0;
        while i < self.digits.len()
            invariant
                i <= self.digits.len(),
                acc@ =~= code_chars(self.digits@.subrange(0, i as int)),
            decreases self.digits.len() - i,
        {
            acc.append(digit_str(self.digits[i]));
            proof {
                assert(acc@ =~= code_chars(self.digits@.subrange(0, i + 1)));
            }
            i = i + 1;
        }
        proof {
            assert(self.digits@.subrange(0, self.digits@.len() as int) =~= self.digits@);
        }
        acc
    }
}

} // verus!

