//! What a self-update decides: which version is newer, which release
//! asset fits the platform, and which archive entry is the program.
//! Fetching and unpacking are left to the caller.

use crate::text::{
    chars_of,
    ends_with,
    has_suffix,
    same_text,
    split,
    split_chars,
    str_eq,
    string_of,
};
use vstd::prelude::*;
use vstd::string::StringExecFns;

verus! {

/// A version: major, minor and patch number.
#[derive(Debug, Clone, Copy, PartialEq, Eq, Structural)]
pub struct Version {
    pub major: u64,
    pub minor: u64,
    pub patch: u64,
}

/// Why a text is no version.
#[derive(Debug, Clone, Copy, PartialEq, Eq, Structural)]
pub enum VersionError {
    /// The text does not have three parts between dots.
    InvalidFormat,
    InvalidMajor,
    InvalidMinor,
    InvalidPatch,
}

impl VersionError {
    pub open spec fn spec_message(&self) -> Seq<char> {
        match self {
            VersionError::InvalidFormat => "Invalid version format"@,
            VersionError::InvalidMajor => "Invalid major version"@,
            VersionError::InvalidMinor => "Invalid minor version"@,
            VersionError::InvalidPatch => "Invalid patch version"@,
        }
    }

    /// The error in words.
    pub fn message(&self) -> (text: &'static str)
        ensures
            text@ == self.spec_message(),
    {
        match self {
            VersionError::InvalidFormat => "Invalid version format",
            VersionError::InvalidMajor => "Invalid major version",
            VersionError::InvalidMinor => "Invalid minor version",
            VersionError::InvalidPatch => "Invalid patch version",
        }
    }

    /// The error in words, for the version text `text`: a text of the
    /// wrong format is quoted, without the `v` that may stand before it.
    pub open spec fn spec_describe(&self, text: Seq<char>) -> Seq<char> {
        match self {
            VersionError::InvalidFormat => self.spec_message() + ": "@ + without_v(text),
            _ => self.spec_message(),
        }
    }

    pub fn describe(&self, text: &str) -> (description: String)
        ensures
            description@ == self.spec_describe(text@),
    {
        let mut description = self.message().to_owned();
        match self {
            VersionError::InvalidFormat => {
                let mut chars = chars_of(text);
                if chars.len() > 0 && chars[0] == 'v' {
                    chars.remove(0);
                    assert(chars@ =~= without_v(text@));
                }
                description.append(": ");
                description.append(string_of(&chars).as_str());
            },
            _ => {},
        }
        description
    }
}

/// Whether `c` is one of the digits 0 to 9.
pub open spec fn is_digit(c: char) -> bool {
    '0' <= c <= '9'
}

/// The number that a digit stands for.
pub open spec fn digit_value(c: char) -> nat {
    (c as u32 - '0' as u32) as nat
}

/// The number that a row of digits stands for in base ten.
pub open spec fn decimal_value(digits: Seq<char>) -> nat
    decreases digits.len(),
{
    if digits.len() == 0 {
        0
    } else {
        decimal_value(digits.drop_last()) * 10 + digit_value(digits.last())
    }
}

/// The digits of a number written with or without a plus sign before it.
pub open spec fn unsigned_digits(text: Seq<char>) -> Seq<char> {
    if text.len() > 0 && text[0] == '+' {
        text.subrange(1, text.len() as int)
    } else {
        text
    }
}

/// The number that `text` is the decimal notation of: one digit at least,
/// digits only behind an optional plus sign, and a value within 64 bits.
pub open spec fn spec_parse_u64(text: Seq<char>) -> Option<u64> {
    let digits = unsigned_digits(text);
    if digits.len() > 0 && (forall|i: int| 0 <= i < digits.len() ==> is_digit(#[trigger] digits[i]))
        && decimal_value(digits) <= u64::MAX {
        Some(decimal_value(digits) as u64)
    } else {
        None
    }
}

/// A row of digits stands for no less than any of its beginnings.
pub proof fn lemma_decimal_value_grows(digits: Seq<char>, upto: int)
    requires
        0 <= upto <= digits.len(),
    ensures
        decimal_value(digits.subrange(0, upto)) <= decimal_value(digits),
    decreases digits.len(),
{
    if upto == digits.len() {
        assert(digits.subrange(0, upto) =~= digits);
    } else {
        lemma_decimal_value_grows(digits.drop_last(), upto);
        assert(digits.drop_last().subrange(0, upto) =~= digits.subrange(0, upto));
    }
}

/// The number that `text` is the decimal notation of, if it is one.
pub fn parse_u64(text: &Vec<char>) -> (value: Option<u64>)
    ensures
        value == spec_parse_u64(text@),
{
    let start: usize = if text.len() > 0 && text[0] == '+' {
        1
    } else {
        0
    };
    let ghost digits = unsigned_digits(text@);
    assert(digits =~= text@.subrange(start as int, text@.len() as int));
    if start == text.len() {
        return None;
    }
    let mut value: u64 = 0;
    let mut i: usize = start;
    assert(digits.subrange(0, 0) =~= Seq::<char>::empty());
    while i < text.len()
        invariant
            start <= i <= text.len(),
            digits == unsigned_digits(text@),
            digits == text@.subrange(start as int, text@.len() as int),
            forall|j: int| 0 <= j < i - start ==> is_digit(#[trigger] digits[j]),
            value == decimal_value(digits.subrange(0, i - start)),
        decreases text.len() - i,
    {
        let c = text[i];
        assert(digits[i - start] == c);
        if c < '0' || c > '9' {
            assert(!is_digit(digits[i - start]));
            return None;
        }
        let digit: u64 = (c as u32 - '0' as u32) as u64;
        proof {
            let next = digits.subrange(0, i + 1 - start);
            assert(next.drop_last() =~= digits.subrange(0, i - start));
            assert(next.last() == c);
            assert(decimal_value(next) == value * 10 + digit);
            lemma_decimal_value_grows(digits, i + 1 - start);
        }
        let scaled = match value.checked_mul(10) {
            Some(scaled) => scaled,
            None => {
                return None;
            },
        };
        value = match scaled.checked_add(digit) {
            Some(sum) => sum,
            None => {
                return None;
            },
        };
        i += 1;
    }
    assert(digits.subrange(0, digits.len() as int) =~= digits);
    Some(value)
}

/// The text of a version without the `v` that may stand before it.
pub open spec fn without_v(text: Seq<char>) -> Seq<char> {
    if text.len() > 0 && text[0] == 'v' {
        text.subrange(1, text.len() as int)
    } else {
        text
    }
}

/// The version that `text` denotes: three numbers between two dots, with
/// or without a `v` before them. The first number that is none decides the
/// error.
pub open spec fn spec_parse_version(text: Seq<char>) -> Result<Version, VersionError> {
    let parts = split(without_v(text), '.');
    if parts.len() != 3 {
        Err(VersionError::InvalidFormat)
    } else if spec_parse_u64(parts[0]) is None {
        Err(VersionError::InvalidMajor)
    } else if spec_parse_u64(parts[1]) is None {
        Err(VersionError::InvalidMinor)
    } else if spec_parse_u64(parts[2]) is None {
        Err(VersionError::InvalidPatch)
    } else {
        Ok(
            Version {
                major: spec_parse_u64(parts[0])->0,
                minor: spec_parse_u64(parts[1])->0,
                patch: spec_parse_u64(parts[2])->0,
            },
        )
    }
}

/// The version that `text` denotes, or why it denotes none.
pub fn parse_version(text: &str) -> (r: Result<Version, VersionError>)
    ensures
        r == spec_parse_version(text@),
{
    let mut chars = chars_of(text);
    if chars.len() > 0 && chars[0] == 'v' {
        chars.remove(0);
        assert(chars@ =~= without_v(text@));
    }
    let parts = split_chars(&chars, '.');
    if parts.len() != 3 {
        return Err(VersionError::InvalidFormat);
    }
    let major = match parse_u64(&parts[0]) {
        Some(n) => n,
        None => {
            return Err(VersionError::InvalidMajor);
        },
    };
    let minor = match parse_u64(&parts[1]) {
        Some(n) => n,
        None => {
            return Err(VersionError::InvalidMinor);
        },
    };
    let patch = match parse_u64(&parts[2]) {
        Some(n) => n,
        None => {
            return Err(VersionError::InvalidPatch);
        },
    };
    Ok(Version { major, minor, patch })
}

impl Version {
    /// Whether `self` comes after `other`: by the major number first, then
    /// the minor, then the patch.
    pub open spec fn spec_is_newer_than(&self, other: &Version) -> bool {
        ||| self.major > other.major
        ||| (self.major == other.major && self.minor > other.minor)
        ||| (self.major == other.major && self.minor == other.minor && self.patch > other.patch)
    }

    #[verifier::when_used_as_spec(spec_is_newer_than)]
    pub fn is_newer_than(&self, other: &Version) -> (r: bool)
        ensures
            r == self.spec_is_newer_than(other),
    {
        if self.major != other.major {
            self.major > other.major
        } else if self.minor != other.minor {
            self.minor > other.minor
        } else {
            self.patch > other.patch
        }
    }

    /// Of two different versions exactly one is newer than the other, no
    /// version is newer than itself, and being newer carries over.
    pub proof fn lemma_order(a: Version, b: Version, c: Version)
        ensures
            !a.is_newer_than(&a),
            a != b ==> (a.is_newer_than(&b) != b.is_newer_than(&a)),
            a == b ==> !a.is_newer_than(&b),
            a.is_newer_than(&b) && b.is_newer_than(&c) ==> a.is_newer_than(&c),
    {
    }
}

/// Whether the release tagged `latest` is to be installed over the
/// running version `current`: both are versions, and the release is newer.
/// The running version is read first.
pub fn update_available(current: &str, latest: &str) -> (r: Result<bool, VersionError>)
    ensures
        r == match spec_parse_version(current@) {
            Err(e) => Err::<bool, VersionError>(e),
            Ok(running) => match spec_parse_version(latest@) {
                Err(e) => Err(e),
                Ok(release) => Ok(release.is_newer_than(&running)),
            },
        },
{
    let running = match parse_version(current) {
        Ok(v) => v,
        Err(e) => {
            return Err(e);
        },
    };
    let release = match parse_version(latest) {
        Ok(v) => v,
        Err(e) => {
            return Err(e);
        },
    };
    Ok(release.is_newer_than(&running))
}

/// The target for which a release asset is built, by operating system and
/// processor: macOS and Linux, each on x86_64 and aarch64.
pub open spec fn spec_platform_target(os: Seq<char>, arch: Seq<char>) -> Option<Seq<char>> {
    if os == "macos"@ && arch == "x86_64"@ {
        Some("x86_64-apple-darwin"@)
    } else if os == "macos"@ && arch == "aarch64"@ {
        Some("aarch64-apple-darwin"@)
    } else if os == "linux"@ && arch == "x86_64"@ {
        Some("x86_64-unknown-linux-gnu"@)
    } else if os == "linux"@ && arch == "aarch64"@ {
        Some("aarch64-unknown-linux-gnu"@)
    } else {
        None
    }
}

/// The target for which a release asset is built, or nothing for a
/// platform that no asset is built for.
pub fn platform_target(os: &str, arch: &str) -> (target: Option<&'static str>)
    ensures
        match target {
            Some(t) => spec_platform_target(os@, arch@) == Some(t@),
            None => spec_platform_target(os@, arch@) is None,
        },
{
    let macos = str_eq(os, "macos");
    let linux = str_eq(os, "linux");
    let x86_64 = str_eq(arch, "x86_64");
    let aarch64 = str_eq(arch, "aarch64");
    if macos && x86_64 {
        Some("x86_64-apple-darwin")
    } else if macos && aarch64 {
        Some("aarch64-apple-darwin")
    } else if linux && x86_64 {
        Some("x86_64-unknown-linux-gnu")
    } else if linux && aarch64 {
        Some("aarch64-unknown-linux-gnu")
    } else {
        None
    }
}

/// The message for a platform that no asset is built for.
pub fn unsupported_platform() -> (text: &'static str)
    ensures
        text@
            == "Unsupported platform. Pre-built binaries are available for macOS (x86_64, aarch64) and Linux (x86_64, aarch64)."@,
{
    "Unsupported platform. Pre-built binaries are available for macOS (x86_64, aarch64) and Linux (x86_64, aarch64)."
}

/// The name of the asset of the release `tag` for `target`.
pub open spec fn spec_asset_name(tag: Seq<char>, target: Seq<char>) -> Seq<char> {
    "mahoraga-"@ + tag + "-"@ + target + ".tar.gz"@
}

/// The name of the asset of the release `tag` for `target`.
pub fn asset_name(tag: &str, target: &str) -> (name: String)
    ensures
        name@ == spec_asset_name(tag@, target@),
{
    let mut name = "mahoraga-".to_owned();
    name.append(tag);
    name.append("-");
    name.append(target);
    name.append(".tar.gz");
    name
}

/// The index of the first of `names` that is `expected`.
pub fn find_asset(names: &Vec<String>, expected: &str) -> (found: Option<usize>)
    ensures
        match found {
            Some(i) => {
                &&& i < names.len()
                &&& names[i as int]@ == expected@
                &&& forall|j: int| 0 <= j < i ==> names[j]@ != expected@
            },
            None => forall|j: int| 0 <= j < names.len() ==> names[j]@ != expected@,
        },
{
    let mut i: usize = 0;
    while i < names.len()
        invariant
            i <= names.len(),
            forall|j: int| 0 <= j < i ==> names[j]@ != expected@,
        decreases names.len() - i,
    {
        if str_eq(names[i].as_str(), expected) {
            return Some(i);
        }
        i += 1;
    }
    None
}

/// Whether an archive entry at `path` is the program: it is named
/// `mahoraga`, in whatever directory.
pub open spec fn spec_is_binary_entry(path: Seq<char>) -> bool {
    path == "mahoraga"@ || ends_with(path, "/mahoraga"@)
}

/// Whether an archive entry at `path` is the program.
pub fn is_binary_entry(path: &str) -> (r: bool)
    ensures
        r == spec_is_binary_entry(path@),
{
    let chars = chars_of(path);
    same_text(&chars, &chars_of("mahoraga")) || has_suffix(&chars, &chars_of("/mahoraga"))
}

} // verus!
