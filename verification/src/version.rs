//! Semantic versions.

use vstd::prelude::*;

use crate::grammar;

verus! {

/// The numbers of a semantic version.
#[derive(Debug, PartialEq, Eq, Clone, Copy, Structural)]
pub struct Version {
    pub major: u64,
    pub minor: u64,
    pub patch: u64,
}

/// The largest number that a version may hold.
pub const MAX_NUMBER: u64 = 900_719_925_474_099;

/// The length in bytes that a version may have.
pub const MAX_LENGTH: usize = 256;

/// The number that a run of ASCII digits stands for.
pub open spec fn decimal_value(digits: Seq<char>) -> nat
    decreases digits.len(),
{
    if digits.len() == 0 {
        0
    } else {
        decimal_value(digits.drop_last()) * 10 + (digits.last() as nat - '0' as nat) as nat
    }
}

/// Whether `c` is one of the ten ASCII digits.
pub open spec fn is_ascii_digit(c: char) -> bool {
    '0' <= c <= '9'
}

/// Where the run of ASCII digits that begins at `i` ends.
pub open spec fn ascii_digits_end(s: Seq<char>, i: int) -> int
    decreases s.len() - i,
{
    if 0 <= i < s.len() && is_ascii_digit(s[i]) {
        ascii_digits_end(s, i + 1)
    } else {
        i
    }
}

/// The three numbers at the beginning of a version, in ASCII digits, and where they end.
pub open spec fn version_core(s: Seq<char>) -> Option<((nat, nat, nat), int)> {
    let major = ascii_digits_end(s, 0);
    let minor = ascii_digits_end(s, major + 1);
    let patch = ascii_digits_end(s, minor + 1);
    if 0 < major < s.len() && s[major] == '.' && major + 1 < minor < s.len() && s[minor] == '.'
        && minor + 1 < patch {
        Some(
            (
                (
                    decimal_value(s.subrange(0, major)),
                    decimal_value(s.subrange(major + 1, minor)),
                    decimal_value(s.subrange(minor + 1, patch)),
                ),
                patch,
            ),
        )
    } else {
        None
    }
}

/// Whether none of the numbers is above [`MAX_NUMBER`].
pub open spec fn in_bounds(numbers: (nat, nat, nat)) -> bool {
    numbers.0 <= MAX_NUMBER && numbers.1 <= MAX_NUMBER && numbers.2 <= MAX_NUMBER
}

/// Whether `label` is a list of identifiers out of ASCII letters, digits and `-`, with a `.`
/// between neighbours.
pub open spec fn is_label(label: Seq<char>) -> bool {
    &&& label.len() > 0
    &&& label[0] != '.'
    &&& label.last() != '.'
    &&& forall|i: int|
        0 <= i < label.len() ==> {
            let c = #[trigger] label[i];
            ||| 'a' <= c <= 'z'
            ||| 'A' <= c <= 'Z'
            ||| is_ascii_digit(c)
            ||| c == '-'
            ||| c == '.' && label[i + 1] != '.'
        }
}

/// Whether `s` is three numbers, alone or with a label behind a `-`.
pub open spec fn is_plain_version(s: Seq<char>) -> bool {
    match version_core(s) {
        Some((numbers, end)) => {
            &&& in_bounds(numbers)
            &&& s.len() <= MAX_LENGTH
            &&& end == s.len() || s[end] == '-' && is_label(s.skip(end + 1))
        },
        None => false,
    }
}

/// Whether a version may begin with `c`.
pub open spec fn begins_version(c: char) -> bool {
    is_ascii_digit(c) || c == 'v' || c == 'V' || c == ' ' || c == '\t'
}

/// What `node_semver::Version::parse` makes of a text: the three numbers, or the text of its
/// error.
pub uninterp spec fn parsed_version(text: Seq<char>) -> Result<(u64, u64, u64), Seq<char>>;

impl Version {
    /// The three numbers as a tuple.
    pub open spec fn numbers(self) -> (u64, u64, u64) {
        (self.major, self.minor, self.patch)
    }
}

/// `parsed` with its contents taken as numbers and characters.
pub open spec fn outcome(parsed: Result<Version, String>) -> Result<(u64, u64, u64), Seq<char>> {
    match parsed {
        Ok(version) => Ok(version.numbers()),
        Err(explanation) => Err(explanation@),
    }
}

/// `node_semver::Version::parse`, with the numbers of the version taken out and the error shown
/// with its `Display`.
///
/// The result is a function of the text. A version begins with an ASCII digit, but for a `v`,
/// blanks and tabs in front. The parser takes three numbers in ASCII digits, each as far as the
/// digits go, and refuses a number above [`MAX_NUMBER`]. It accepts the numbers alone, or with a
/// label behind a `-`, in a text of at most [`MAX_LENGTH`] bytes. Which other texts it accepts,
/// and how it words an error, is left to the name.
#[verifier::external_body]
pub(crate) fn parse_version(text: &str) -> (parsed: Result<Version, String>)
    ensures
        outcome(parsed) == parsed_version(text@),
        is_plain_version(text@) ==> parsed is Ok,
        parsed is Ok ==> text@.len() > 0 && begins_version(text@[0]),
        text@.len() > 0 && is_ascii_digit(text@[0]) && parsed is Ok ==> {
            &&& version_core(text@) matches Some((numbers, _))
            &&& in_bounds(numbers)
            &&& parsed->Ok_0.major == numbers.0
            &&& parsed->Ok_0.minor == numbers.1
            &&& parsed->Ok_0.patch == numbers.2
        },
{
    match text.parse::<node_semver::Version>() {
        Ok(version) => Ok(
            Version { major: version.major, minor: version.minor, patch: version.patch },
        ),
        Err(error) => Err(error.to_string()),
    }
}

proof fn lemma_ascii_digits_end_bounds(s: Seq<char>, i: int)
    requires
        0 <= i <= s.len(),
    ensures
        i <= ascii_digits_end(s, i) <= s.len(),
    decreases s.len() - i,
{
    if i < s.len() && is_ascii_digit(s[i]) {
        lemma_ascii_digits_end_bounds(s, i + 1);
    }
}

/// A run of ASCII digits that no other digit follows is a run of digits.
proof fn lemma_ascii_digits_are_digits(s: Seq<char>, i: int)
    requires
        0 <= i <= s.len(),
        ascii_digits_end(s, i) == s.len() || !grammar::is_decimal_digit(s[ascii_digits_end(s, i)]),
    ensures
        grammar::digits_end(s, i) == ascii_digits_end(s, i),
    decreases s.len() - i,
{
    if i < s.len() && is_ascii_digit(s[i]) {
        lemma_ascii_digits_are_digits(s, i + 1);
    }
}

proof fn lemma_line_goes_on(s: Seq<char>, i: int)
    requires
        0 <= i <= s.len(),
        forall|k: int| i <= k < s.len() ==> s[k] != '\n',
    ensures
        grammar::line_end(s, i) == s.len(),
    decreases s.len() - i,
{
    if i < s.len() {
        lemma_line_goes_on(s, i + 1);
    }
}

/// A run of digits has ten times the value of the digits in front of its last one, and the last
/// one on top.
pub proof fn lemma_a_digit_more(digits: Seq<char>, digit: char)
    requires
        '0' <= digit <= '9',
    ensures
        decimal_value(Seq::empty()) == 0,
        decimal_value(digits.push(digit)) == 10 * decimal_value(digits) + (digit as int
            - '0' as int),
{
    assert(digits.push(digit).drop_last() =~= digits);
}

proof fn lemma_ascii_run(s: Seq<char>, i: int, end: int)
    requires
        0 <= i <= end <= s.len(),
        forall|k: int| i <= k < end ==> '0' <= #[trigger] s[k] <= '9',
        end == s.len() || !('0' <= s[end] <= '9'),
    ensures
        ascii_digits_end(s, i) == end,
    decreases end - i,
{
    if i < end {
        assert(is_ascii_digit(s[i]));
        lemma_ascii_run(s, i + 1, end);
    }
}

/// Three numbers with a `.` between neighbours are read as the values of their digits, each as far
/// as its digits go, whatever follows them.
pub proof fn lemma_numbers_are_read_as_written(
    major: Seq<char>,
    minor: Seq<char>,
    patch: Seq<char>,
    rest: Seq<char>,
)
    requires
        major.len() > 0,
        minor.len() > 0,
        patch.len() > 0,
        forall|i: int| 0 <= i < major.len() ==> '0' <= #[trigger] major[i] <= '9',
        forall|i: int| 0 <= i < minor.len() ==> '0' <= #[trigger] minor[i] <= '9',
        forall|i: int| 0 <= i < patch.len() ==> '0' <= #[trigger] patch[i] <= '9',
        rest.len() == 0 || !('0' <= rest[0] <= '9'),
    ensures
        version_core(major + seq!['.'] + minor + seq!['.'] + patch + rest) == Some(
            (
                (decimal_value(major), decimal_value(minor), decimal_value(patch)),
                major.len() as int + 1 + minor.len() + 1 + patch.len(),
            ),
        ),
{
    let s = major + seq!['.'] + minor + seq!['.'] + patch + rest;
    let a = major.len() as int;
    let b = a + 1 + minor.len();
    let c = b + 1 + patch.len();
    assert(s.subrange(0, a) =~= major);
    assert(s.subrange(a + 1, b) =~= minor);
    assert(s.subrange(b + 1, c) =~= patch);
    assert(s[a] == '.' && s[b] == '.');
    assert forall|k: int| 0 <= k < a implies '0' <= #[trigger] s[k] <= '9' by {
        assert(s[k] == major[k]);
    }
    assert forall|k: int| a + 1 <= k < b implies '0' <= #[trigger] s[k] <= '9' by {
        assert(s[k] == minor[k - a - 1]);
    }
    assert forall|k: int| b + 1 <= k < c implies '0' <= #[trigger] s[k] <= '9' by {
        assert(s[k] == patch[k - b - 1]);
    }
    if c < s.len() {
        assert(s[c] == rest[0]);
    }
    lemma_ascii_run(s, 0, a);
    lemma_ascii_run(s, a + 1, b);
    lemma_ascii_run(s, b + 1, c);
}

/// Three numbers that are not too large, in a text that is not too long, are a plain version.
pub proof fn lemma_three_numbers_are_a_plain_version(
    major: Seq<char>,
    minor: Seq<char>,
    patch: Seq<char>,
)
    requires
        major.len() > 0,
        minor.len() > 0,
        patch.len() > 0,
        forall|i: int| 0 <= i < major.len() ==> '0' <= #[trigger] major[i] <= '9',
        forall|i: int| 0 <= i < minor.len() ==> '0' <= #[trigger] minor[i] <= '9',
        forall|i: int| 0 <= i < patch.len() ==> '0' <= #[trigger] patch[i] <= '9',
        decimal_value(major) <= 900_719_925_474_099,
        decimal_value(minor) <= 900_719_925_474_099,
        decimal_value(patch) <= 900_719_925_474_099,
        major.len() + 1 + minor.len() + 1 + patch.len() <= 256,
    ensures
        is_plain_version(major + seq!['.'] + minor + seq!['.'] + patch),
{
    let s = major + seq!['.'] + minor + seq!['.'] + patch;
    lemma_numbers_are_read_as_written(major, minor, patch, Seq::empty());
    assert(s + Seq::<char>::empty() =~= s);
}

/// A label out of ASCII letters, digits and `-` may stand behind the numbers of a plain version.
pub proof fn lemma_a_label_keeps_a_version_plain(
    major: Seq<char>,
    minor: Seq<char>,
    patch: Seq<char>,
    label: Seq<char>,
)
    requires
        major.len() > 0,
        minor.len() > 0,
        patch.len() > 0,
        label.len() > 0,
        forall|i: int| 0 <= i < major.len() ==> '0' <= #[trigger] major[i] <= '9',
        forall|i: int| 0 <= i < minor.len() ==> '0' <= #[trigger] minor[i] <= '9',
        forall|i: int| 0 <= i < patch.len() ==> '0' <= #[trigger] patch[i] <= '9',
        forall|i: int|
            0 <= i < label.len() ==> 'a' <= #[trigger] label[i] <= 'z' || 'A' <= label[i] <= 'Z'
                || '0' <= label[i] <= '9' || label[i] == '-',
        decimal_value(major) <= 900_719_925_474_099,
        decimal_value(minor) <= 900_719_925_474_099,
        decimal_value(patch) <= 900_719_925_474_099,
        major.len() + 1 + minor.len() + 1 + patch.len() + 1 + label.len() <= 256,
    ensures
        is_plain_version(
            major + seq!['.'] + minor + seq!['.'] + patch + (seq!['-'] + label),
        ),
{
    let rest = seq!['-'] + label;
    let s = major + seq!['.'] + minor + seq!['.'] + patch + rest;
    let end = major.len() as int + 1 + minor.len() + 1 + patch.len();
    assert(rest[0] == '-');
    lemma_numbers_are_read_as_written(major, minor, patch, rest);
    assert(s[end] == '-');
    assert(s.skip(end + 1) =~= label);
    assert(label[0] != '.' && label[label.len() - 1] != '.');
}

/// Three numbers, alone or with a label, are a version that can be declared.
pub proof fn lemma_plain_version_is_version(s: Seq<char>)
    requires
        is_plain_version(s),
    ensures
        grammar::is_version(s),
{
    let major = ascii_digits_end(s, 0);
    let minor = ascii_digits_end(s, major + 1);
    let patch = ascii_digits_end(s, minor + 1);
    lemma_ascii_digits_end_bounds(s, 0);
    lemma_ascii_digits_end_bounds(s, major + 1);
    lemma_ascii_digits_end_bounds(s, minor + 1);
    lemma_ascii_digits_are_digits(s, 0);
    lemma_ascii_digits_are_digits(s, major + 1);
    lemma_ascii_digits_are_digits(s, minor + 1);
    reveal_strlit("-");
    if patch < s.len() {
        assert(s.subrange(patch, patch + 1) =~= "-"@);
        let label = s.skip(patch + 1);
        assert forall|k: int| patch + 1 <= k < s.len() implies s[k] != '\n' by {
            assert(s[k] == label[k - patch - 1]);
        }
        lemma_line_goes_on(s, patch + 1);
    }
}

} // verus!
