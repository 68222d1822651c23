//! Upstream tags and the versions they stand for.
//!
//! A tag of the upstream repository names a version as
//! `[v]MAJOR.MINOR[.PATCH][(a|b|c|rc)N]`, for example `v3.11.4`, `v2.7` or
//! `v3.12.0rc2`. The version it stands for is written
//! `MAJOR.MINOR.PATCH[-(alpha|beta|rc).N]`: a patch number that the tag leaves
//! out is `0`, and the stage of a pre-release is spelled out and set apart.
//! Each number is written in decimal digits without a zero in front, and is
//! at most `u64::MAX`. A tag that is written otherwise names no version.

use crate::grammar::lemma_normalized_version_is_semantic;
use crate::text::{chars_of, option_view};
use vstd::prelude::*;

verus! {

/// Whether `c` is a decimal digit.
pub open spec fn is_digit(c: char) -> bool {
    '0' <= c <= '9'
}

/// The number that the digit `c` stands for.
pub open spec fn digit_value(c: char) -> int {
    c as int - '0' as int
}

/// The number that the decimal digits `s` stand for.
pub open spec fn decimal_value(s: Seq<char>) -> int
    decreases s.len(),
{
    if s.len() == 0 {
        0
    } else {
        10 * decimal_value(s.drop_last()) + digit_value(s.last())
    }
}

/// Whether `s` is a number in decimal digits: at least one digit, no zero
/// in front of another digit, and a value of at most `u64::MAX`.
pub open spec fn is_number(s: Seq<char>) -> bool {
    &&& s.len() > 0
    &&& forall|i: int| 0 <= i < s.len() ==> is_digit(#[trigger] s[i])
    &&& s.len() > 1 ==> s[0] != '0'
    &&& decimal_value(s) <= u64::MAX
}

/// The stage of a pre-release, as a tag marks it.
#[derive(Clone, Copy, Debug, PartialEq, Eq)]
pub enum PreMarker {
    /// `a`: an alpha release.
    A,
    /// `b`: a beta release.
    B,
    /// `c`: a release candidate, in the older spelling.
    C,
    /// `rc`: a release candidate.
    Rc,
}

impl PreMarker {
    /// How a tag spells the marker.
    pub open spec fn tag_text(self) -> Seq<char> {
        match self {
            PreMarker::A => "a"@,
            PreMarker::B => "b"@,
            PreMarker::C => "c"@,
            PreMarker::Rc => "rc"@,
        }
    }

    /// How a version spells the stage.
    pub open spec fn label(self) -> Seq<char> {
        match self {
            PreMarker::A => "alpha"@,
            PreMarker::B => "beta"@,
            PreMarker::C => "rc"@,
            PreMarker::Rc => "rc"@,
        }
    }
}

/// A version as it is listed: three numbers and, for a pre-release, its
/// stage and its number.
pub struct SemanticVersion {
    pub major: Seq<char>,
    pub minor: Seq<char>,
    pub patch: Seq<char>,
    pub pre: Option<(Seq<char>, Seq<char>)>,
}

impl SemanticVersion {
    /// Whether the numbers are numbers and the stage is one of `alpha`,
    /// `beta` and `rc`.
    pub open spec fn well_formed(self) -> bool {
        &&& is_number(self.major)
        &&& is_number(self.minor)
        &&& is_number(self.patch)
        &&& self.pre matches Some((stage, number)) ==> {
            &&& stage == "alpha"@ || stage == "beta"@ || stage == "rc"@
            &&& is_number(number)
        }
    }

    /// How the version is written.
    pub open spec fn text(self) -> Seq<char> {
        self.major + "."@ + self.minor + "."@ + self.patch + (match self.pre {
            Some((stage, number)) => "-"@ + stage + "."@ + number,
            None => ""@,
        })
    }
}

/// Whether `text` is written as a version is listed: `MAJOR.MINOR.PATCH`,
/// and after it `-STAGE.N` for a pre-release.
pub open spec fn is_semantic_version(text: Seq<char>) -> bool {
    exists|version: SemanticVersion| version.well_formed() && #[trigger] version.text() == text
}

/// The parts that a tag names.
pub struct PythonVersion {
    /// Whether the tag starts with `v`.
    pub prefixed: bool,
    pub major: Seq<char>,
    pub minor: Seq<char>,
    /// The patch number, where the tag has one.
    pub patch: Option<Seq<char>>,
    /// The stage and the number of a pre-release.
    pub pre: Option<(PreMarker, Seq<char>)>,
}

impl PythonVersion {
    /// Whether every part is a number.
    pub open spec fn well_formed(self) -> bool {
        &&& is_number(self.major)
        &&& is_number(self.minor)
        &&& self.patch matches Some(patch) ==> is_number(patch)
        &&& self.pre matches Some((_, number)) ==> is_number(number)
    }

    /// The tag that names these parts.
    pub open spec fn tag_text(self) -> Seq<char> {
        (if self.prefixed {
            "v"@
        } else {
            ""@
        }) + self.major + "."@ + self.minor + (match self.patch {
            Some(patch) => "."@ + patch,
            None => ""@,
        }) + (match self.pre {
            Some((marker, number)) => marker.tag_text() + number,
            None => ""@,
        })
    }

    /// The version that these parts stand for, part by part: the patch
    /// number is `0` where the tag has none, and the stage of a pre-release
    /// is spelled out.
    pub open spec fn normalized(self) -> SemanticVersion {
        SemanticVersion {
            major: self.major,
            minor: self.minor,
            patch: match self.patch {
                Some(patch) => patch,
                None => "0"@,
            },
            pre: match self.pre {
                Some((marker, number)) => Some((marker.label(), number)),
                None => None,
            },
        }
    }

    /// The version that these parts stand for, as it is written.
    pub open spec fn version_text(self) -> Seq<char> {
        self.normalized().text()
    }
}

/// The number of digits that `s` holds from `from` on, up to the first
/// character that is no digit.
pub open spec fn digits_from(s: Seq<char>, from: int) -> nat
    decreases s.len() - from,
{
    if 0 <= from < s.len() && is_digit(s[from]) {
        1 + digits_from(s, from + 1)
    } else {
        0
    }
}

/// The run of digits that `s` holds from `from` on.
pub open spec fn digits_at(s: Seq<char>, from: int) -> Seq<char> {
    if 0 <= from <= s.len() {
        s.subrange(from, from + digits_from(s, from))
    } else {
        Seq::empty()
    }
}

/// Whether `s` holds `c` at `at`.
pub open spec fn has_char_at(s: Seq<char>, at: int, c: char) -> bool {
    0 <= at < s.len() && s[at] == c
}

/// The pre-release marker that `s` holds at `at`, if it holds one.
pub open spec fn marker_at(s: Seq<char>, at: int) -> Option<PreMarker> {
    if has_char_at(s, at, 'a') {
        Some(PreMarker::A)
    } else if has_char_at(s, at, 'b') {
        Some(PreMarker::B)
    } else if has_char_at(s, at, 'c') {
        Some(PreMarker::C)
    } else if has_char_at(s, at, 'r') && has_char_at(s, at + 1, 'c') {
        Some(PreMarker::Rc)
    } else {
        None
    }
}

/// The number of characters of a marker in a tag.
pub open spec fn marker_len(marker: PreMarker) -> int {
    match marker {
        PreMarker::Rc => 2,
        _ => 1,
    }
}

/// The parts that `tag` names, read from left to right; `None` where `tag`
/// is not written as a tag of a version is.
pub open spec fn parse_tag(tag: Seq<char>) -> Option<PythonVersion> {
    let prefixed = has_char_at(tag, 0, 'v');
    let major_at = if prefixed {
        1int
    } else {
        0int
    };
    let major = digits_at(tag, major_at);
    let dot_at = major_at + major.len();
    let minor = digits_at(tag, dot_at + 1);
    let minor_end = dot_at + 1 + minor.len();
    let has_patch = has_char_at(tag, minor_end, '.');
    let patch = digits_at(tag, minor_end + 1);
    let patch_end = if has_patch {
        minor_end + 1 + patch.len()
    } else {
        minor_end
    };
    let marker = marker_at(tag, patch_end);
    let number = match marker {
        Some(marker) => digits_at(tag, patch_end + marker_len(marker)),
        None => Seq::empty(),
    };
    let end = match marker {
        Some(marker) => patch_end + marker_len(marker) + number.len(),
        None => patch_end,
    };
    let version = PythonVersion {
        prefixed,
        major,
        minor,
        patch: if has_patch {
            Some(patch)
        } else {
            None
        },
        pre: match marker {
            Some(marker) => Some((marker, number)),
            None => None,
        },
    };
    if has_char_at(tag, dot_at, '.') && end == tag.len() && version.well_formed() {
        Some(version)
    } else {
        None
    }
}

/// The version that `tag` stands for, if it names one.
pub open spec fn normalized_version(tag: Seq<char>) -> Option<Seq<char>> {
    match parse_tag(tag) {
        Some(version) => Some(version.version_text()),
        None => None,
    }
}

/// Every character that `digits_from` counts is a digit, and the one after
/// them is none.
pub proof fn lemma_digits_from(s: Seq<char>, from: int)
    requires
        0 <= from <= s.len(),
    ensures
        from + digits_from(s, from) <= s.len(),
        forall|i: int| from <= i < from + digits_from(s, from) ==> is_digit(#[trigger] s[i]),
        from + digits_from(s, from) < s.len() ==> !is_digit(s[from + digits_from(s, from)]),
    decreases s.len() - from,
{
    if from < s.len() && is_digit(s[from]) {
        lemma_digits_from(s, from + 1);
    }
}

/// The value of digits is not negative.
pub proof fn lemma_decimal_value_is_not_negative(s: Seq<char>)
    requires
        forall|i: int| 0 <= i < s.len() ==> is_digit(#[trigger] s[i]),
    ensures
        0 <= decimal_value(s),
    decreases s.len(),
{
    if s.len() > 0 {
        lemma_decimal_value_is_not_negative(s.drop_last());
        assert(is_digit(s[s.len() - 1]));
    }
}

/// The value of digits is no smaller than the value of the first `count`
/// of them.
pub proof fn lemma_decimal_value_grows(s: Seq<char>, count: int)
    requires
        0 <= count <= s.len(),
        forall|i: int| 0 <= i < s.len() ==> is_digit(#[trigger] s[i]),
    ensures
        decimal_value(s.take(count)) <= decimal_value(s),
    decreases s.len() - count,
{
    if count < s.len() {
        lemma_decimal_value_grows(s, count + 1);
        lemma_decimal_value_is_not_negative(s.take(count));
        assert(s.take(count + 1).drop_last() =~= s.take(count));
        assert(is_digit(s[count]));
        assert(s.take(count + 1).last() == s[count]);
    } else {
        assert(s.take(count) =~= s);
    }
}

fn scan_digits(chars: &Vec<char>, from: usize) -> (end: usize)
    requires
        from <= chars.len(),
    ensures
        end == from + digits_from(chars@, from as int),
        end <= chars.len(),
{
    let mut end = from;
    while end < chars.len() && '0' <= chars[end] && chars[end] <= '9'
        invariant
            from <= end <= chars.len(),
            end + digits_from(chars@, end as int) == from + digits_from(chars@, from as int),
        decreases chars.len() - end,
    {
        end += 1;
    }
    end
}

fn is_number_at(chars: &Vec<char>, from: usize, end: usize) -> (number: bool)
    requires
        from <= chars.len(),
        end == from + digits_from(chars@, from as int),
    ensures
        number == is_number(digits_at(chars@, from as int)),
{
    proof {
        lemma_digits_from(chars@, from as int);
    }
    if end == from || (end - from > 1 && chars[from] == '0') {
        return false;
    }
    let ghost digits = digits_at(chars@, from as int);
    let mut value: u64 = 0;
    for i in from..end
        invariant
            from < end <= chars.len(),
            digits == digits_at(chars@, from as int),
            digits == chars@.subrange(from as int, end as int),
            forall|j: int| 0 <= j < digits.len() ==> is_digit(#[trigger] digits[j]),
            value == decimal_value(digits.take(i - from)),
    {
        proof {
            assert(digits.take(i + 1 - from).drop_last() =~= digits.take(i - from));
            assert(digits.take(i + 1 - from).last() == chars@[i as int]);
            assert(is_digit(digits[i - from]));
            lemma_decimal_value_grows(digits, i + 1 - from);
        }
        let digit = (chars[i] as u32 - '0' as u32) as u64;
        let next = match value.checked_mul(10) {
            Some(tens) => tens.checked_add(digit),
            None => None,
        };
        match next {
            Some(next) => {
                value = next;
            },
            None => {
                return false;
            },
        }
    }
    assert(digits.take(end - from) =~= digits);
    true
}

fn has_char(chars: &Vec<char>, at: usize, c: char) -> (found: bool)
    ensures
        found == has_char_at(chars@, at as int, c),
{
    at < chars.len() && chars[at] == c
}

/// Where the parts of a tag stand among its characters.
struct TagSpans {
    prefixed: bool,
    major_at: usize,
    major_end: usize,
    minor_at: usize,
    minor_end: usize,
    patch: Option<(usize, usize)>,
    pre: Option<(PreMarker, usize, usize)>,
}

impl TagSpans {
    spec fn in_bounds(self, len: int) -> bool {
        &&& self.major_at <= self.major_end <= len
        &&& self.minor_at <= self.minor_end <= len
        &&& self.patch matches Some((at, end)) ==> at <= end <= len
        &&& self.pre matches Some((_, at, end)) ==> at <= end <= len
    }

    spec fn parts(self, tag: Seq<char>) -> PythonVersion {
        PythonVersion {
            prefixed: self.prefixed,
            major: tag.subrange(self.major_at as int, self.major_end as int),
            minor: tag.subrange(self.minor_at as int, self.minor_end as int),
            patch: match self.patch {
                Some((at, end)) => Some(tag.subrange(at as int, end as int)),
                None => None,
            },
            pre: match self.pre {
                Some((marker, at, end)) => Some((marker, tag.subrange(at as int, end as int))),
                None => None,
            },
        }
    }
}

fn scan_marker(chars: &Vec<char>, at: usize) -> (marker: Option<PreMarker>)
    ensures
        marker == marker_at(chars@, at as int),
{
    if at >= chars.len() {
        return None;
    }
    let c = chars[at];
    if c == 'a' {
        Some(PreMarker::A)
    } else if c == 'b' {
        Some(PreMarker::B)
    } else if c == 'c' {
        Some(PreMarker::C)
    } else if c == 'r' && has_char(chars, at + 1, 'c') {
        Some(PreMarker::Rc)
    } else {
        None
    }
}

fn scan_tag(chars: &Vec<char>) -> (spans: Option<TagSpans>)
    ensures
        match spans {
            Some(spans) => spans.in_bounds(chars@.len() as int) && parse_tag(chars@) == Some(
                spans.parts(chars@),
            ),
            None => parse_tag(chars@) is None,
        },
{
    let prefixed = has_char(chars, 0, 'v');
    let major_at: usize = if prefixed {
        1
    } else {
        0
    };
    let major_end = scan_digits(chars, major_at);
    if !is_number_at(chars, major_at, major_end) || !has_char(chars, major_end, '.') {
        return None;
    }
    let minor_at = major_end + 1;
    let minor_end = scan_digits(chars, minor_at);
    if !is_number_at(chars, minor_at, minor_end) {
        return None;
    }
    let mut patch: Option<(usize, usize)> = None;
    let mut patch_end = minor_end;
    if has_char(chars, minor_end, '.') {
        patch_end = scan_digits(chars, minor_end + 1);
        if !is_number_at(chars, minor_end + 1, patch_end) {
            return None;
        }
        patch = Some((minor_end + 1, patch_end));
    }
    let mut pre: Option<(PreMarker, usize, usize)> = None;
    let mut end = patch_end;
    match scan_marker(chars, patch_end) {
        Some(marker) => {
            let number_at = match marker {
                PreMarker::Rc => patch_end + 2,
                _ => patch_end + 1,
            };
            end = scan_digits(chars, number_at);
            if !is_number_at(chars, number_at, end) {
                return None;
            }
            pre = Some((marker, number_at, end));
        },
        None => {},
    }
    if end != chars.len() {
        return None;
    }
    Some(TagSpans { prefixed, major_at, major_end, minor_at, minor_end, patch, pre })
}

impl PreMarker {
    fn label_str(&self) -> (label: &'static str)
        ensures
            label@ == self.label(),
    {
        match self {
            PreMarker::A => "alpha",
            PreMarker::B => "beta",
            PreMarker::C => "rc",
            PreMarker::Rc => "rc",
        }
    }
}

fn render_version(tag: &str, spans: &TagSpans) -> (version: String)
    requires
        spans.in_bounds(tag@.len() as int),
    ensures
        version@ == spans.parts(tag@).version_text(),
{
    let mut version = String::from_str(tag.substring_char(spans.major_at, spans.major_end));
    version.append(".");
    version.append(tag.substring_char(spans.minor_at, spans.minor_end));
    version.append(".");
    match spans.patch {
        Some((at, end)) => {
            version.append(tag.substring_char(at, end));
        },
        None => {
            version.append("0");
        },
    }
    match spans.pre {
        Some((marker, at, end)) => {
            version.append("-");
            version.append(marker.label_str());
            version.append(".");
            version.append(tag.substring_char(at, end));
            assert(version@ =~= spans.parts(tag@).version_text());
        },
        None => {
            assert(version@ =~= spans.parts(tag@).version_text()) by {
                reveal_strlit("");
            }
        },
    }
    version
}

/// Converts a tag of the upstream repository into the version that it stands
/// for. A tag that does not name a version gives `None`.
pub fn from_python_version(tag: &str) -> (version: Option<String>)
    ensures
        option_view(version) == normalized_version(tag@),
        version matches Some(version) ==> is_semantic_version(version@),
{
    let chars = chars_of(tag);
    match scan_tag(&chars) {
        Some(spans) => {
            proof {
                lemma_normalized_version_is_semantic(tag@);
            }
            Some(render_version(tag, &spans))
        },
        None => None,
    }
}

} // verus!
