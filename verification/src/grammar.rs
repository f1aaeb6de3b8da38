//! The grammar of the `packageManager` field: a manager's name, `@`, and a version or a URL.

use vstd::prelude::*;

verus! {

/// The pattern that the `packageManager` field has to match somewhere.
pub const PACKAGE_MANAGER_PATTERN: &'static str =
    "(?P<manager>bun|npm|pnpm|yarn)@(?P<version>\\d+\\.\\d+\\.\\d+(-.+)?|https?://.+)";

/// The group of the pattern that captures the manager's name.
pub const MANAGER_GROUP: &'static str = "manager";

/// The group of the pattern that captures the version.
pub const VERSION_GROUP: &'static str = "version";

/// What `\d` matches: a character of the Unicode category `Nd`.
pub open spec fn is_decimal_digit(c: char) -> bool {
    ||| '0' <= c <= '9'
    ||| c > '\u{7f}' && is_wide_decimal_digit(c as u32)
}

/// The characters of the Unicode category `Nd` outside of ASCII: runs of ten digits, two of them
/// longer.
#[verifier::opaque]
pub open spec fn is_wide_decimal_digit(code: u32) -> bool {
    let zeros: Seq<u32> = seq![
        0x660, 0x6f0, 0x7c0, 0x966, 0x9e6, 0xa66, 0xae6, 0xb66, 0xbe6, 0xc66, 0xce6, 0xd66, 0xde6,
        0xe50, 0xed0, 0xf20, 0x1040, 0x1090, 0x17e0, 0x1810, 0x1946, 0x19d0, 0x1a80, 0x1a90,
        0x1b50, 0x1bb0, 0x1c40, 0x1c50, 0xa620, 0xa8d0, 0xa900, 0xa9d0, 0xa9f0, 0xaa50, 0xabf0,
        0xff10, 0x104a0, 0x10d30, 0x10d40, 0x11066, 0x110f0, 0x11136, 0x111d0, 0x112f0, 0x11450,
        0x114d0, 0x11650, 0x116c0, 0x11730, 0x118e0, 0x11950, 0x11bf0, 0x11c50, 0x11d50, 0x11da0,
        0x11f50, 0x16130, 0x16a60, 0x16ac0, 0x16b50, 0x16d70, 0x1ccf0, 0x1e140, 0x1e2f0, 0x1e4f0,
        0x1e5f1, 0x1e950, 0x1fbf0,
    ];
    ||| exists|k: int| 0 <= k < zeros.len() && #[trigger] zeros[k] <= code <= zeros[k] + 9
    ||| 0x116d0 <= code <= 0x116e3
    ||| 0x1d7ce <= code <= 0x1d7ff
}

/// Where the run of decimal digits that begins at `i` ends.
pub open spec fn digits_end(s: Seq<char>, i: int) -> int
    decreases s.len() - i,
{
    if 0 <= i < s.len() && is_decimal_digit(s[i]) {
        digits_end(s, i + 1)
    } else {
        i
    }
}

/// Where the line that `i` lies in ends.
pub open spec fn line_end(s: Seq<char>, i: int) -> int
    decreases s.len() - i,
{
    if 0 <= i < s.len() && s[i] != '\n' {
        line_end(s, i + 1)
    } else {
        i
    }
}

/// Whether `word` stands at `i`.
pub open spec fn stands_at(s: Seq<char>, i: int, word: Seq<char>) -> bool {
    &&& 0 <= i <= i + word.len() <= s.len()
    &&& s.subrange(i, i + word.len()) == word
}

/// Where `\d+\.\d+\.\d+` ends, if it matches at `i`.
pub open spec fn numbers_end(s: Seq<char>, i: int) -> Option<int> {
    let major = digits_end(s, i);
    let minor = digits_end(s, major + 1);
    let patch = digits_end(s, minor + 1);
    if i < major < s.len() && s[major] == '.' && major + 1 < minor < s.len() && s[minor] == '.'
        && minor + 1 < patch {
        Some(patch)
    } else {
        None
    }
}

/// Where `\d+\.\d+\.\d+(-.+)?` ends, if it matches at `i`. A label reaches to the end of the line.
pub open spec fn release_end(s: Seq<char>, i: int) -> Option<int> {
    match numbers_end(s, i) {
        Some(end) => if stands_at(s, end, "-"@) && end + 1 < line_end(s, end + 1) {
            Some(line_end(s, end + 1))
        } else {
            Some(end)
        },
        None => None,
    }
}

/// Where `https?://.+` ends, if it matches at `i`. A URL reaches to the end of the line.
pub open spec fn url_end(s: Seq<char>, i: int) -> Option<int> {
    if stands_at(s, i, "http://"@) && i + 7 < line_end(s, i + 7) {
        Some(line_end(s, i + 7))
    } else if stands_at(s, i, "https://"@) && i + 8 < line_end(s, i + 8) {
        Some(line_end(s, i + 8))
    } else {
        None
    }
}

/// Where the version at `i` ends, if one stands there.
pub open spec fn version_end(s: Seq<char>, i: int) -> Option<int> {
    match release_end(s, i) {
        Some(end) => Some(end),
        None => url_end(s, i),
    }
}

/// The manager's name that stands at `i`, if one does.
pub open spec fn manager_at(s: Seq<char>, i: int) -> Option<Seq<char>> {
    if stands_at(s, i, "bun"@) {
        Some("bun"@)
    } else if stands_at(s, i, "npm"@) {
        Some("npm"@)
    } else if stands_at(s, i, "pnpm"@) {
        Some("pnpm"@)
    } else if stands_at(s, i, "yarn"@) {
        Some("yarn"@)
    } else {
        None
    }
}

/// The manager's name and the version of the declaration that stands at `i`, if one does.
pub open spec fn declaration_at(s: Seq<char>, i: int) -> Option<(Seq<char>, Seq<char>)> {
    match manager_at(s, i) {
        Some(manager) => {
            let at = i + manager.len();
            match version_end(s, at + 1) {
                Some(end) => if stands_at(s, at, "@"@) {
                    Some((manager, s.subrange(at + 1, end)))
                } else {
                    None
                },
                None => None,
            }
        },
        None => None,
    }
}

/// The leftmost declaration that begins at `i` or after it.
pub open spec fn declaration_from(s: Seq<char>, i: int) -> Option<(Seq<char>, Seq<char>)>
    decreases s.len() - i,
{
    if i < 0 || i >= s.len() {
        None
    } else if declaration_at(s, i) is Some {
        declaration_at(s, i)
    } else {
        declaration_from(s, i + 1)
    }
}

/// The leftmost declaration in `s`: what the two groups of [`PACKAGE_MANAGER_PATTERN`] capture.
pub open spec fn declaration(s: Seq<char>) -> Option<(Seq<char>, Seq<char>)> {
    declaration_from(s, 0)
}

/// Whether `manager` is one of the names that a declaration may give.
pub open spec fn is_manager_name(manager: Seq<char>) -> bool {
    manager == "bun"@ || manager == "npm"@ || manager == "pnpm"@ || manager == "yarn"@
}

/// Whether `version` is a version or a URL in full.
pub open spec fn is_version(version: Seq<char>) -> bool {
    version_end(version, 0) == Some(version.len() as int)
}

/// `regex::Regex::captures` with the pattern of the `packageManager` field, compiled by
/// `regex::Regex::new`; the two groups are read with `regex::Captures::name`.
///
/// The search finds the leftmost match and prefers the earlier branch of an alternation and the
/// longer repetition, as the crate documents. For this pattern that is [`declaration`]: no two
/// managers' names match at one place, no digit belongs to what may follow a run of digits, `\d` is
/// the Unicode category `Nd` and `.` is every character but a line feed. Both groups take part in
/// every match. Other patterns, which may not compile or may lack the groups, are left out.
#[verifier::external_body]
fn captures<'a>(pattern: &str, groups: (&str, &str), text: &'a str) -> (found: Option<
    (&'a str, &'a str),
>)
    requires
        pattern@ == PACKAGE_MANAGER_PATTERN@,
        groups.0@ == MANAGER_GROUP@,
        groups.1@ == VERSION_GROUP@,
    ensures
        match found {
            Some((manager, version)) => declaration(text@) == Some((manager@, version@)),
            None => declaration(text@) is None,
        },
{
    let captures = regex::Regex::new(pattern).unwrap().captures(text)?;
    let manager = captures.name(groups.0).unwrap().as_str();
    let version = captures.name(groups.1).unwrap().as_str();
    Some((manager, version))
}

/// Finds the leftmost declaration in `text`.
pub fn find_declaration(text: &str) -> (found: Option<(&str, &str)>)
    ensures
        match found {
            Some((manager, version)) => declaration(text@) == Some((manager@, version@)),
            None => declaration(text@) is None,
        },
{
    captures(PACKAGE_MANAGER_PATTERN, (MANAGER_GROUP, VERSION_GROUP), text)
}

/// A run of digits does not end before it begins, nor behind the text.
proof fn lemma_digits_end_bounds(s: Seq<char>, i: int)
    requires
        0 <= i <= s.len(),
    ensures
        i <= digits_end(s, i) <= s.len(),
    decreases s.len() - i,
{
    if i < s.len() && is_decimal_digit(s[i]) {
        lemma_digits_end_bounds(s, i + 1);
    }
}

proof fn lemma_line_end_bounds(s: Seq<char>, i: int)
    requires
        0 <= i <= s.len(),
    ensures
        i <= line_end(s, i) <= s.len(),
    decreases s.len() - i,
{
    if i < s.len() && s[i] != '\n' {
        lemma_line_end_bounds(s, i + 1);
    }
}

/// A run of digits inside a window of the text ends where it ends in the text.
proof fn lemma_digits_end_in_window(s: Seq<char>, a: int, e: int, j: int)
    requires
        0 <= a <= a + j <= e <= s.len(),
        0 <= j,
        digits_end(s, a + j) <= e,
    ensures
        digits_end(s.subrange(a, e), j) == digits_end(s, a + j) - a,
    decreases e - j,
{
    if a + j < s.len() && is_decimal_digit(s[a + j]) {
        lemma_digits_end_bounds(s, a + j + 1);
        lemma_digits_end_in_window(s, a, e, j + 1);
    }
}

proof fn lemma_line_end_in_window(s: Seq<char>, a: int, e: int, j: int)
    requires
        0 <= a <= a + j <= e <= s.len(),
        0 <= j,
        line_end(s, a + j) <= e,
    ensures
        line_end(s.subrange(a, e), j) == line_end(s, a + j) - a,
    decreases e - j,
{
    if a + j < s.len() && s[a + j] != '\n' {
        lemma_line_end_bounds(s, a + j + 1);
        lemma_line_end_in_window(s, a, e, j + 1);
    }
}

proof fn lemma_stands_at_in_window(s: Seq<char>, a: int, e: int, j: int, word: Seq<char>)
    requires
        0 <= a <= e <= s.len(),
        0 <= j,
        a + j + word.len() <= e,
    ensures
        stands_at(s.subrange(a, e), j, word) == stands_at(s, a + j, word),
{
    assert(s.subrange(a, e).subrange(j, j + word.len()) =~= s.subrange(
        a + j,
        a + j + word.len(),
    ));
}

/// The bounds of three numbers, and that they begin with a digit.
proof fn lemma_numbers_end_bounds(s: Seq<char>, i: int)
    requires
        0 <= i <= s.len(),
        numbers_end(s, i) is Some,
    ensures
        i + 4 < numbers_end(s, i)->0 <= s.len(),
        is_decimal_digit(s[i]),
{
    let major = digits_end(s, i);
    let minor = digits_end(s, major + 1);
    lemma_digits_end_bounds(s, i);
    lemma_digits_end_bounds(s, major + 1);
    lemma_digits_end_bounds(s, minor + 1);
}

/// Three numbers that end inside a window are three numbers of the window.
proof fn lemma_numbers_end_in_window(s: Seq<char>, a: int, e: int)
    requires
        0 <= a <= e <= s.len(),
        numbers_end(s, a) matches Some(end) && end <= e,
    ensures
        numbers_end(s.subrange(a, e), 0) == Some(numbers_end(s, a)->0 - a),
{
    let major = digits_end(s, a);
    let minor = digits_end(s, major + 1);
    lemma_digits_end_bounds(s, a);
    lemma_digits_end_bounds(s, major + 1);
    lemma_digits_end_bounds(s, minor + 1);
    lemma_digits_end_in_window(s, a, e, 0);
    lemma_digits_end_in_window(s, a, e, major - a + 1);
    lemma_digits_end_in_window(s, a, e, minor - a + 1);
}

/// Three numbers of the rest of a text are three numbers of the text.
proof fn lemma_numbers_end_in_rest(s: Seq<char>, a: int)
    requires
        0 <= a <= s.len(),
    ensures
        numbers_end(s.skip(a), 0) is Some == numbers_end(s, a) is Some,
        numbers_end(s, a) matches Some(end) ==> numbers_end(s.skip(a), 0) == Some(end - a),
{
    let len = s.len() as int;
    let v = s.skip(a);
    assert(v =~= s.subrange(a, len));
    lemma_digits_end_bounds(s, a);
    lemma_digits_end_in_window(s, a, len, 0);
    let major = digits_end(s, a);
    if major < len {
        lemma_digits_end_bounds(s, major + 1);
        lemma_digits_end_in_window(s, a, len, major - a + 1);
        let minor = digits_end(s, major + 1);
        if minor < len {
            lemma_digits_end_bounds(s, minor + 1);
            lemma_digits_end_in_window(s, a, len, minor - a + 1);
        }
    }
}

/// The bounds of a version.
proof fn lemma_version_end_bounds(s: Seq<char>, i: int)
    requires
        0 <= i <= s.len(),
        version_end(s, i) is Some,
    ensures
        i < version_end(s, i)->0 <= s.len(),
{
    reveal_strlit("-");
    reveal_strlit("http://");
    reveal_strlit("https://");
    if numbers_end(s, i) is Some {
        lemma_numbers_end_bounds(s, i);
        let end = numbers_end(s, i)->0;
        if end < s.len() {
            lemma_line_end_bounds(s, end + 1);
        }
    } else {
        if i + 7 <= s.len() {
            lemma_line_end_bounds(s, i + 7);
        }
        if i + 8 <= s.len() {
            lemma_line_end_bounds(s, i + 8);
        }
    }
}

/// The version that stands at `a` is a version when taken alone.
proof fn lemma_version_alone(s: Seq<char>, a: int)
    requires
        0 <= a <= s.len(),
        version_end(s, a) is Some,
    ensures
        is_version(s.subrange(a, version_end(s, a)->0)),
{
    let e = version_end(s, a)->0;
    let v = s.subrange(a, e);
    lemma_version_end_bounds(s, a);
    reveal_strlit("-");
    reveal_strlit("http://");
    reveal_strlit("https://");
    if numbers_end(s, a) is Some {
        let end = numbers_end(s, a)->0;
        lemma_numbers_end_bounds(s, a);
        if end < s.len() {
            lemma_line_end_bounds(s, end + 1);
        }
        lemma_numbers_end_in_window(s, a, e);
        if end < e {
            lemma_stands_at_in_window(s, a, e, end - a, "-"@);
            lemma_line_end_in_window(s, a, e, end - a + 1);
        }
    } else {
        assert(s[a] == 'h') by {
            assert(s[a] == s.subrange(a, a + 7)[0] || s[a] == s.subrange(a, a + 8)[0]);
        }
        assert(v[0] == 'h');
        assert(digits_end(v, 0) == 0);
        if stands_at(s, a, "http://"@) && a + 7 < line_end(s, a + 7) {
            lemma_stands_at_in_window(s, a, e, 0, "http://"@);
            lemma_line_end_in_window(s, a, e, 7);
        } else {
            lemma_stands_at_in_window(s, a, e, 0, "https://"@);
            lemma_line_end_in_window(s, a, e, 8);
            assert(!stands_at(v, 0, "http://"@)) by {
                assert(v[4] == v.subrange(0, 8)[4]);
                assert(v[4] == 's');
                if stands_at(v, 0, "http://"@) {
                    assert(v[4] == v.subrange(0, 7)[4]);
                }
            }
        }
    }
}

/// A version that is the rest of a text is found where the rest begins.
proof fn lemma_version_in_rest(s: Seq<char>, a: int)
    requires
        0 <= a <= s.len(),
        is_version(s.skip(a)),
    ensures
        version_end(s, a) == Some(s.len() as int),
{
    let len = s.len() as int;
    let v = s.skip(a);
    assert(v =~= s.subrange(a, len));
    lemma_version_end_bounds(v, 0);
    lemma_numbers_end_in_rest(s, a);
    reveal_strlit("-");
    reveal_strlit("http://");
    reveal_strlit("https://");
    if numbers_end(s, a) is Some {
        lemma_numbers_end_bounds(s, a);
        let end = numbers_end(s, a)->0;
        if end < len {
            lemma_line_end_bounds(s, end + 1);
            lemma_stands_at_in_window(s, a, len, end - a, "-"@);
            lemma_line_end_in_window(s, a, len, end - a + 1);
        }
    } else {
        if v.len() >= 7 {
            lemma_line_end_bounds(s, a + 7);
            lemma_stands_at_in_window(s, a, len, 0, "http://"@);
            lemma_line_end_in_window(s, a, len, 7);
        }
        if v.len() >= 8 {
            lemma_line_end_bounds(s, a + 8);
            lemma_stands_at_in_window(s, a, len, 0, "https://"@);
            lemma_line_end_in_window(s, a, len, 8);
        }
    }
}

/// The place of the leftmost declaration.
proof fn lemma_declaration_place(s: Seq<char>, i: int) -> (place: int)
    requires
        0 <= i,
        declaration_from(s, i) is Some,
    ensures
        i <= place < s.len(),
        declaration_at(s, place) == declaration_from(s, i),
        forall|k: int| i <= k < place ==> declaration_at(s, k) is None,
    decreases s.len() - i,
{
    if declaration_at(s, i) is Some {
        i
    } else {
        lemma_declaration_place(s, i + 1)
    }
}

/// What is found is a declaration: a manager's name, `@`, and a full version or a URL, one after
/// the other in the text.
pub proof fn lemma_declaration_is_declared(s: Seq<char>)
    requires
        declaration(s) is Some,
    ensures
        ({
            let (manager, version) = declaration(s)->0;
            &&& is_manager_name(manager)
            &&& is_version(version)
            &&& exists|i: int| stands_at(s, i, manager + "@"@ + version)
        }),
{
    let place = lemma_declaration_place(s, 0);
    let (manager, version) = declaration(s)->0;
    let at = place + manager.len();
    reveal_strlit("@");
    let end = version_end(s, at + 1)->0;
    lemma_version_end_bounds(s, at + 1);
    lemma_version_alone(s, at + 1);
    assert(s[at] == s.subrange(at, at + 1)[0]);
    assert(s.subrange(place, end) =~= manager + "@"@ + version) by {
        assert(s.subrange(place, at) == manager);
        assert(s.subrange(at, at + 1) == "@"@);
        assert(s.subrange(place, end) =~= s.subrange(place, at) + s.subrange(at, at + 1)
            + s.subrange(at + 1, end));
    }
    assert(stands_at(s, place, manager + "@"@ + version));
}

/// Every manager's name can be declared with every full version and every URL, and is read back
/// as it was written.
pub proof fn lemma_declared_is_found(manager: Seq<char>, version: Seq<char>)
    requires
        is_manager_name(manager),
        is_version(version),
    ensures
        declaration(manager + "@"@ + version) == Some((manager, version)),
{
    let s = manager + "@"@ + version;
    reveal_strlit("@");
    reveal_strlit("bun");
    reveal_strlit("npm");
    reveal_strlit("pnpm");
    reveal_strlit("yarn");
    let at = manager.len() as int;
    assert(s.subrange(0, at) =~= manager);
    assert(s.subrange(at, at + 1) =~= "@"@);
    assert(s.skip(at + 1) =~= version);
    assert(s.subrange(at + 1, s.len() as int) =~= version);
    lemma_version_in_rest(s, at + 1);
    assert(s[0] == manager[0]);
    assert(manager_at(s, 0) == Some(manager)) by {
        assert(stands_at(s, 0, "bun"@) ==> s[0] == s.subrange(0, 3)[0]);
        assert(stands_at(s, 0, "npm"@) ==> s[0] == s.subrange(0, 3)[0]);
        assert(stands_at(s, 0, "pnpm"@) ==> s[0] == s.subrange(0, 4)[0]);
    }
}

/// Nothing is declared by a text without an `@`.
pub proof fn lemma_nothing_declared_without_at_sign(s: Seq<char>)
    requires
        !s.contains('@'),
    ensures
        declaration(s) is None,
{
    if declaration(s) is Some {
        let place = lemma_declaration_place(s, 0);
        let at = place + (declaration(s)->0).0.len();
        reveal_strlit("@");
        assert(s[at] == s.subrange(at, at + 1)[0]);
        assert(s.contains('@'));
    }
}

/// A version begins with `http` if and only if it is a URL; otherwise it begins with three
/// numbers.
pub proof fn lemma_url_or_numbers(version: Seq<char>)
    requires
        is_version(version),
    ensures
        "http"@.is_prefix_of(version) == (release_end(version, 0) is None),
        "http"@.is_prefix_of(version) == (url_end(version, 0) is Some),
        !"http"@.is_prefix_of(version) ==> numbers_end(version, 0) is Some,
{
    reveal_strlit("http");
    reveal_strlit("http://");
    reveal_strlit("https://");
    lemma_version_end_bounds(version, 0);
    if numbers_end(version, 0) is Some {
        lemma_numbers_end_bounds(version, 0);
        assert(!is_decimal_digit('h'));
        assert("http"@.is_prefix_of(version) ==> version[0] == "http"@[0]);
        assert(stands_at(version, 0, "http://"@) ==> version[0] == version.subrange(0, 7)[0]);
        assert(stands_at(version, 0, "https://"@) ==> version[0] == version.subrange(0, 8)[0]);
    } else {
        let n: int = if stands_at(version, 0, "http://"@) {
            7
        } else {
            8
        };
        assert(version.subrange(0, 4) =~= version.subrange(0, n).subrange(0, 4));
        assert("http"@ =~= version.subrange(0, 4));
    }
}

/// A version that is no URL begins with a decimal digit.
pub proof fn lemma_version_begins(version: Seq<char>)
    requires
        is_version(version),
    ensures
        version.len() > 0,
        !"http"@.is_prefix_of(version) ==> is_decimal_digit(version[0]),
{
    lemma_version_end_bounds(version, 0);
    lemma_url_or_numbers(version);
    if !"http"@.is_prefix_of(version) {
        lemma_numbers_end_bounds(version, 0);
    }
}

/// The names that a declaration may give are these four.
pub proof fn lemma_names_that_can_be_declared(manager: Seq<char>)
    ensures
        is_manager_name(manager) <==> {
            ||| manager == seq!['b', 'u', 'n']
            ||| manager == seq!['n', 'p', 'm']
            ||| manager == seq!['p', 'n', 'p', 'm']
            ||| manager == seq!['y', 'a', 'r', 'n']
        },
{
    reveal_strlit("bun");
    reveal_strlit("npm");
    reveal_strlit("pnpm");
    reveal_strlit("yarn");
    assert("bun"@ =~= seq!['b', 'u', 'n']);
    assert("npm"@ =~= seq!['n', 'p', 'm']);
    assert("pnpm"@ =~= seq!['p', 'n', 'p', 'm']);
    assert("yarn"@ =~= seq!['y', 'a', 'r', 'n']);
}

proof fn lemma_line_runs_on(s: Seq<char>, i: int)
    requires
        0 <= i <= s.len(),
        forall|k: int| i <= k < s.len() ==> #[trigger] s[k] != '\n',
    ensures
        line_end(s, i) == s.len(),
    decreases s.len() - i,
{
    if i < s.len() {
        lemma_line_runs_on(s, i + 1);
    }
}

proof fn lemma_digits_run(s: Seq<char>, i: int, end: int)
    requires
        0 <= i <= end <= s.len(),
        forall|k: int| i <= k < end ==> '0' <= #[trigger] s[k] <= '9',
        end == s.len() || s[end] == '.' || s[end] == '-',
    ensures
        digits_end(s, i) == end,
    decreases end - i,
{
    if i < end {
        assert(is_decimal_digit(s[i]));
        lemma_digits_run(s, i + 1, end);
    }
}

/// Three numbers in ASCII digits can be declared, alone or with a label in the same line.
pub proof fn lemma_numbers_can_be_declared(
    major: Seq<char>,
    minor: Seq<char>,
    patch: Seq<char>,
    label: Seq<char>,
)
    requires
        major.len() > 0,
        minor.len() > 0,
        patch.len() > 0,
        forall|i: int| 0 <= i < major.len() ==> '0' <= #[trigger] major[i] <= '9',
        forall|i: int| 0 <= i < minor.len() ==> '0' <= #[trigger] minor[i] <= '9',
        forall|i: int| 0 <= i < patch.len() ==> '0' <= #[trigger] patch[i] <= '9',
        label.len() == 0 || label.len() > 1 && label[0] == '-',
        forall|i: int| 0 <= i < label.len() ==> #[trigger] label[i] != '\n',
    ensures
        is_version(major + seq!['.'] + minor + seq!['.'] + patch + label),
{
    let s = major + seq!['.'] + minor + seq!['.'] + patch + label;
    let a = major.len() as int;
    let b = a + 1 + minor.len();
    let c = b + 1 + patch.len();
    assert(s[a] == '.' && s[b] == '.');
    assert forall|k: int| 0 <= k < a implies '0' <= #[trigger] s[k] <= '9' by {
        assert(s[k] == major[k]);
    }
    assert forall|k: int| a + 1 <= k < b implies '0' <= #[trigger] s[k] <= '9' by {
        assert(s[k] == minor[k - a - 1]);
    }
    assert forall|k: int| b + 1 <= k < c implies '0' <= #[trigger] s[k] <= '9' by {
        assert(s[k] == patch[k - b - 1]);
    }
    if c < s.len() {
        assert(s[c] == label[0]);
    }
    lemma_digits_run(s, 0, a);
    lemma_digits_run(s, a + 1, b);
    lemma_digits_run(s, b + 1, c);
    assert(numbers_end(s, 0) == Some(c));
    reveal_strlit("-");
    if c < s.len() {
        assert(s.subrange(c, c + 1) =~= "-"@);
        assert forall|k: int| c + 1 <= k < s.len() implies #[trigger] s[k] != '\n' by {
            assert(s[k] == label[k - c]);
        }
        lemma_line_runs_on(s, c + 1);
    }
}

/// A URL of the web can be declared, however it goes on in the same line.
pub proof fn lemma_urls_can_be_declared(address: Seq<char>)
    requires
        address.len() > 0,
        forall|i: int| 0 <= i < address.len() ==> #[trigger] address[i] != '\n',
    ensures
        is_version("http://"@ + address),
        is_version("https://"@ + address),
{
    reveal_strlit("http://");
    reveal_strlit("https://");
    let plain = "http://"@ + address;
    assert(plain.subrange(0, 7) =~= "http://"@);
    assert forall|k: int| 7 <= k < plain.len() implies #[trigger] plain[k] != '\n' by {
        assert(plain[k] == address[k - 7]);
    }
    lemma_line_runs_on(plain, 7);
    assert(!is_decimal_digit('h'));
    assert(plain[0] == 'h');
    assert(digits_end(plain, 0) == 0);
    let secure = "https://"@ + address;
    assert(secure.subrange(0, 8) =~= "https://"@);
    assert forall|k: int| 8 <= k < secure.len() implies #[trigger] secure[k] != '\n' by {
        assert(secure[k] == address[k - 8]);
    }
    lemma_line_runs_on(secure, 8);
    assert(secure[0] == 'h');
    assert(digits_end(secure, 0) == 0);
    assert(secure[4] == 's');
    assert(!stands_at(secure, 0, "http://"@)) by {
        assert(secure[4] == secure.subrange(0, 7)[4]);
    }
}

proof fn lemma_digits_end_is_a_run(s: Seq<char>, i: int)
    requires
        0 <= i <= s.len(),
    ensures
        i <= digits_end(s, i) <= s.len(),
        forall|k: int| i <= k < digits_end(s, i) ==> is_decimal_digit(#[trigger] s[k]),
        digits_end(s, i) < s.len() ==> !is_decimal_digit(s[digits_end(s, i)]),
    decreases s.len() - i,
{
    if i < s.len() && is_decimal_digit(s[i]) {
        lemma_digits_end_is_a_run(s, i + 1);
    }
}

proof fn lemma_line_end_is_a_run(s: Seq<char>, i: int)
    requires
        0 <= i <= s.len(),
    ensures
        i <= line_end(s, i) <= s.len(),
        forall|k: int| i <= k < line_end(s, i) ==> #[trigger] s[k] != '\n',
    decreases s.len() - i,
{
    if i < s.len() && s[i] != '\n' {
        lemma_line_end_is_a_run(s, i + 1);
    }
}

/// Whatever is declared as a version is a URL of the web, or three numbers, alone or with a label
/// behind a `-`. The result says where the numbers end.
pub proof fn lemma_nothing_else_is_a_version(version: Seq<char>) -> (ends: (int, int, int))
    requires
        is_version(version),
    ensures
        !version.contains('\n'),
        ({
            let (major, minor, patch) = ends;
            ||| "http://"@.is_prefix_of(version) && version.len() > 7
            ||| "https://"@.is_prefix_of(version) && version.len() > 8
            ||| {
                &&& 0 < major < major + 1 < minor < minor + 1 < patch <= version.len()
                &&& version[major] == '.'
                &&& version[minor] == '.'
                &&& forall|k: int|
                    0 <= k < patch && k != major && k != minor ==> is_decimal_digit(
                        #[trigger] version[k],
                    )
                &&& patch == version.len() || version[patch] == '-' && patch + 1 < version.len()
            }
        }),
{
    lemma_version_end_bounds(version, 0);
    assert(!is_decimal_digit('\n'));
    let major = digits_end(version, 0);
    let minor = digits_end(version, major + 1);
    let patch = digits_end(version, minor + 1);
    if numbers_end(version, 0) is Some {
        reveal_strlit("-");
        lemma_digits_end_is_a_run(version, 0);
        lemma_digits_end_is_a_run(version, major + 1);
        lemma_digits_end_is_a_run(version, minor + 1);
        if patch < version.len() {
            lemma_line_end_is_a_run(version, patch + 1);
            assert(version[patch] == version.subrange(patch, patch + 1)[0]);
        }
    } else {
        reveal_strlit("http://");
        reveal_strlit("https://");
        let n: int = if stands_at(version, 0, "http://"@) && 7 < line_end(version, 7) {
            7
        } else {
            8
        };
        lemma_line_end_is_a_run(version, n);
        assert(version.subrange(0, n).is_prefix_of(version));
        assert forall|k: int| 0 <= k < n implies #[trigger] version[k] != '\n' by {
            assert(version[k] == version.subrange(0, n)[k]);
        }
    }
    (major, minor, patch)
}

proof fn lemma_declaration_at_is_found(s: Seq<char>, from: int, i: int)
    requires
        0 <= from <= i < s.len(),
        declaration_at(s, i) is Some,
    ensures
        declaration_from(s, from) is Some,
    decreases i - from,
{
    if from < i {
        lemma_declaration_at_is_found(s, from + 1, i);
    }
}

/// A name and a version may stand behind other text: where no `@` comes earlier, it is that
/// version that is read, with the name in front of its `@`; only an `npm` with a `p` before it is
/// read as `pnpm`.
pub proof fn lemma_text_in_front_is_passed_over(
    before: Seq<char>,
    manager: Seq<char>,
    version: Seq<char>,
)
    requires
        is_manager_name(manager),
        is_version(version),
        !before.contains('@'),
    ensures
        declaration(before + manager + "@"@ + version) matches Some((named, read)) && read
            == version && (named == manager || manager == "npm"@ && named == "pnpm"@
            && before.len() > 0 && before.last() == 'p'),
{
    reveal_strlit("@");
    reveal_strlit("bun");
    reveal_strlit("npm");
    reveal_strlit("pnpm");
    reveal_strlit("yarn");
    let s = before + manager + "@"@ + version;
    let start = before.len() as int;
    let at = start + manager.len();
    assert(s[at] == '@');
    assert(s.subrange(start, at) =~= manager);
    assert(s.subrange(at, at + 1) =~= "@"@);
    assert(s.skip(at + 1) =~= version);
    assert(s.subrange(at + 1, s.len() as int) =~= version);
    lemma_version_in_rest(s, at + 1);
    assert(s[start] == manager[0]);
    assert(manager_at(s, start) == Some(manager)) by {
        assert(stands_at(s, start, "bun"@) ==> s[start] == s.subrange(start, start + 3)[0]);
        assert(stands_at(s, start, "npm"@) ==> s[start] == s.subrange(start, start + 3)[0]);
        assert(stands_at(s, start, "pnpm"@) ==> s[start] == s.subrange(start, start + 4)[0]);
    }
    assert(declaration_at(s, start) == Some((manager, version)));
    assert forall|k: int| 0 <= k < at implies #[trigger] s[k] != '@' by {
        if k < start {
            assert(before.contains(before[k]));
            assert(s[k] == before[k]);
        } else {
            assert(s[k] == manager[k - start]);
        }
    }
    lemma_declaration_at_is_found(s, 0, start);
    let place = lemma_declaration_place(s, 0);
    let named = (declaration(s)->0).0;
    assert(place <= start);
    if place < start {
        let sign = place + named.len();
        assert(s[sign] == s.subrange(sign, sign + 1)[0]);
        assert(sign >= at);
        assert(named.len() <= 4);
        assert(sign == at && manager.len() == 3 && named.len() == 4 && place == start - 1);
        assert(s[place + 1] == s.subrange(place, place + 4)[1]);
        assert(s[place] == s.subrange(place, place + 4)[0]);
        assert(s[place + 1] == manager[0]);
        assert(named[1] == manager[0]);
        assert(s[place] == before[place]);
    }
}

} // verus!
