//! Small operations on strings, stated over their characters.

use vstd::prelude::*;

verus! {

/// `String::push`: the string after the call is the string before it with the character added at
/// its end, as std documents.
pub assume_specification[ String::push ](string: &mut String, c: char)
    ensures
        final(string)@ == old(string)@.push(c),
;

/// The characters of each string in a list.
pub open spec fn texts(list: Seq<String>) -> Seq<Seq<char>> {
    list.map_values(|s: String| s@)
}

/// The characters of each string slice in a list.
pub open spec fn slices(list: Seq<&str>) -> Seq<Seq<char>> {
    list.map_values(|s: &str| s@)
}

/// Whether `a` and `b` hold the same characters.
pub(crate) fn same_text(a: &str, b: &str) -> (same: bool)
    ensures
        same == (a@ == b@),
{
    a.to_owned() == b.to_owned()
}

/// Whether `text` begins with `prefix`.
pub(crate) fn starts_with(text: &str, prefix: &str) -> (found: bool)
    ensures
        found == prefix@.is_prefix_of(text@),
{
    let len: usize = prefix.unicode_len();
    if text.unicode_len() < len {
        return false;
    }
    let head = text.substring_char(0, len);
    let found = same_text(head, prefix);
    proof {
        if found {
            assert(prefix@ =~= text@.subrange(0, prefix@.len() as int));
        }
    }
    found
}

/// `text` without its first character, if that character is `c`.
pub open spec fn stripped(text: Seq<char>, c: char) -> Option<Seq<char>> {
    if text.len() > 0 && text[0] == c {
        Some(text.drop_first())
    } else {
        None
    }
}

/// Removes a leading `c` from `text`; `None` if `text` does not begin with it.
pub(crate) fn strip_char_prefix(text: &str, c: char) -> (rest: Option<String>)
    ensures
        rest is Some == stripped(text@, c) is Some,
        rest matches Some(r) ==> Some(r@) == stripped(text@, c),
{
    let len: usize = text.unicode_len();
    if len > 0 && text.get_char(0) == c {
        let tail = text.substring_char(1, len);
        assert(tail@ =~= text@.drop_first());
        Some(tail.to_owned())
    } else {
        None
    }
}

/// Copies a list of string slices into owned strings.
pub(crate) fn owned(list: &[&str]) -> (strings: Vec<String>)
    ensures
        texts(strings@) == slices(list@),
{
    let mut strings: Vec<String> = Vec::new();
    let mut i: usize = 0;
    while i < list.len()
        invariant
            i <= list@.len(),
            strings@.len() == i,
            forall|j: int| 0 <= j < i ==> (#[trigger] strings@[j])@ == list@[j]@,
        decreases list@.len() - i,
    {
        strings.push(list[i].to_owned());
        i += 1;
    }
    assert(texts(strings@) =~= slices(list@));
    strings
}

/// Whether one of the strings of `list` holds the same characters as `wanted`.
pub(crate) fn contains(list: &[String], wanted: &str) -> (found: bool)
    ensures
        found == texts(list@).contains(wanted@),
{
    let mut i: usize = 0;
    while i < list.len()
        invariant
            i <= list@.len(),
            forall|j: int| 0 <= j < i ==> (#[trigger] list@[j])@ != wanted@,
        decreases list@.len() - i,
    {
        if same_text(list[i].as_str(), wanted) {
            assert(texts(list@)[i as int] == wanted@);
            return true;
        }
        i += 1;
    }
    assert forall|j: int| 0 <= j < texts(list@).len() implies texts(list@)[j] != wanted@ by {
        assert(texts(list@)[j] == list@[j]@);
    }
    false
}

/// The strings of `list`, one after the other, with `separator` between neighbours.
pub open spec fn joined(list: Seq<Seq<char>>, separator: Seq<char>) -> Seq<char>
    decreases list.len(),
{
    if list.len() == 0 {
        Seq::empty()
    } else if list.len() == 1 {
        list[0]
    } else {
        joined(list.drop_last(), separator) + separator + list.last()
    }
}

/// Concatenates `list` with `separator` between neighbours.
pub(crate) fn join(list: &[String], separator: &str) -> (text: String)
    ensures
        text@ == joined(texts(list@), separator@),
{
    let mut text = String::new();
    let mut i: usize = 0;
    while i < list.len()
        invariant
            i <= list@.len(),
            text@ == joined(texts(list@.take(i as int)), separator@),
        decreases list@.len() - i,
    {
        if i > 0 {
            text.append(separator);
        }
        text.append(list[i].as_str());
        i += 1;
        assert(texts(list@.take(i as int)).drop_last() =~= texts(list@.take(i - 1)));
        assert(texts(list@.take(i as int)).last() == list@[i - 1]@);
        assert(text@ =~= joined(texts(list@.take(i as int)), separator@));
    }
    assert(list@.take(i as int) =~= list@);
    text
}

/// A list of strings is taken string by string, each with all of its characters.
pub proof fn lemma_texts_are_taken_one_by_one(list: Seq<String>)
    ensures
        texts(list).len() == list.len(),
        forall|i: int| 0 <= i < list.len() ==> #[trigger] texts(list)[i] == list[i]@,
{
}

/// A list of string slices is taken slice by slice, each with all of its characters.
pub proof fn lemma_slices_are_taken_one_by_one(list: Seq<&str>)
    ensures
        slices(list).len() == list.len(),
        forall|i: int| 0 <= i < list.len() ==> #[trigger] slices(list)[i] == list[i]@,
{
}

/// A prefix is stripped if and only if the text is that character with the rest behind it.
pub proof fn lemma_stripped_prefix_goes_back_in_front(text: Seq<char>, c: char, rest: Seq<char>)
    ensures
        stripped(text, c) == Some(rest) <==> text == seq![c] + rest,
        stripped(text, c) is None <==> !seq![c].is_prefix_of(text),
{
    assert((seq![c] + rest).drop_first() =~= rest);
    if text.len() > 0 && text[0] == c {
        assert(text =~= seq![c] + text.drop_first());
        assert(seq![c] =~= text.subrange(0, 1));
    }
    if seq![c].is_prefix_of(text) {
        assert(text[0] == seq![c][0]);
    }
    if text == seq![c] + rest {
        assert(text[0] == c);
    }
}

/// Joining nothing gives nothing, and joining one string gives that string.
pub proof fn lemma_at_most_one_string_is_joined_as_it_is(one: Seq<char>, separator: Seq<char>)
    ensures
        joined(Seq::empty(), separator) == Seq::<char>::empty(),
        joined(seq![one], separator) == one,
{
}

/// Two lists that hold something are joined with one separator between what they come to.
pub proof fn lemma_joined_lists_meet_at_a_separator(
    first: Seq<Seq<char>>,
    second: Seq<Seq<char>>,
    separator: Seq<char>,
)
    requires
        first.len() > 0,
        second.len() > 0,
    ensures
        joined(first + second, separator) == joined(first, separator) + separator + joined(
            second,
            separator,
        ),
    decreases second.len(),
{
    let both = first + second;
    assert(both.drop_last() =~= first + second.drop_last());
    assert(both.last() == second.last());
    if second.len() == 1 {
        assert(both.drop_last() =~= first);
    } else {
        lemma_joined_lists_meet_at_a_separator(first, second.drop_last(), separator);
        assert(joined(both, separator) =~= joined(first, separator) + separator + joined(
            second,
            separator,
        ));
    }
}

} // verus!
