//! Searching and lower-casing text.

use vstd::prelude::*;

verus! {

/// `needle` is found in `haystack`, as a run of consecutive characters.
pub open spec fn occurs_in(needle: Seq<char>, haystack: Seq<char>) -> bool {
    exists|at: int| #[trigger] occurs_at(needle, haystack, at)
}

/// The characters of `haystack` from position `at` on begin with `needle`.
pub open spec fn occurs_at(needle: Seq<char>, haystack: Seq<char>, at: int) -> bool {
    &&& 0 <= at
    &&& at + needle.len() <= haystack.len()
    &&& haystack.subrange(at, at + needle.len()) == needle
}

/// `text` is not empty and its last character is `c`.
pub open spec fn ends_with(text: Seq<char>, c: char) -> bool {
    text.len() > 0 && text.last() == c
}

/// `A` to `Z` become `a` to `z`; every other character stays.
pub open spec fn ascii_lower(c: char) -> char {
    if 'A' <= c <= 'Z' {
        (c as u32 + 32) as char
    } else {
        c
    }
}

/// `text` with every ASCII letter in lower case.
pub open spec fn ascii_lowercase(text: Seq<char>) -> Seq<char> {
    text.map_values(|c: char| ascii_lower(c))
}

/// The Unicode lower-case form of a text, as [`str::to_lowercase`] computes it.
pub uninterp spec fn unicode_lowercase(text: Seq<char>) -> Seq<char>;

/// Calls [`str::to_lowercase`].
///
/// What that function returns depends on the text alone and is named here. Three things are
/// claimed of the value. They hold because Unicode lower case maps a text character by character,
/// an ASCII letter always to its ASCII lower-case letter, and because the one mapping that looks at
/// its surroundings (that of a capital sigma) asks whether there are letters, not of which case.
/// - On a text of ASCII characters, lower case is the ASCII lower case of each character.
/// - Whether the ASCII letters of a text are in lower case already makes no difference.
/// - ASCII characters that stand side by side still do, in ASCII lower case.
#[verifier::external_body]
pub(crate) fn to_lowercase(text: &str) -> (lowered: String)
    ensures
        lowered@ == unicode_lowercase(text@),
        vstd::utf8::is_ascii_chars(text@) ==> lowered@ == ascii_lowercase(text@),
        lowered@ == unicode_lowercase(ascii_lowercase(text@)),
        forall|needle: Seq<char>|
            vstd::utf8::is_ascii_chars(needle) && #[trigger] occurs_in(needle, text@) ==> occurs_in(
                ascii_lowercase(needle),
                lowered@,
            ),
{
    text.to_lowercase()
}

/// The characters of a text.
fn characters(text: &str) -> (characters: Vec<char>)
    ensures
        characters@ == text@,
{
    let mut characters: Vec<char> = Vec::new();
    for c in iter: text.chars()
        invariant
            iter.seq() == text@,
            characters@ == text@.take(iter.index() as int),
    {
        characters.push(c);
    }
    assert(text@.take(text@.len() as int) =~= text@);
    characters
}

/// Whether `needle` stands in `haystack` at the given position.
fn stands_at(needle: &Vec<char>, haystack: &Vec<char>, at: usize) -> (stands: bool)
    requires
        at + needle@.len() <= haystack@.len(),
    ensures
        stands == occurs_at(needle@, haystack@, at as int),
{
    let ghost part = haystack@.subrange(at as int, at + needle@.len());
    let length: usize = needle.len();
    let total: usize = haystack.len();
    for i in 0..length
        invariant
            length == needle@.len(),
            total == haystack@.len(),
            at + length <= total,
            part == haystack@.subrange(at as int, at + length),
            part.take(i as int) == needle@.take(i as int),
    {
        if haystack[at + i] != needle[i] {
            assert(part[i as int] != needle@[i as int]);
            return false;
        }
        assert(part.take(i + 1) =~= part.take(i as int).push(part[i as int]));
        assert(needle@.take(i + 1) =~= needle@.take(i as int).push(needle@[i as int]));
    }
    assert(part.take(length as int) =~= part);
    assert(needle@.take(length as int) =~= needle@);
    true
}

/// Whether the characters of `needle` occur consecutively in `haystack`.
pub fn contains(haystack: &str, needle: &str) -> (found: bool)
    ensures
        found == occurs_in(needle@, haystack@),
{
    let searched = characters(haystack);
    let wanted = characters(needle);
    if wanted.len() > searched.len() {
        return false;
    }
    let last: usize = searched.len() - wanted.len();
    let mut at: usize = 0;
    while at < last
        invariant
            searched@ == haystack@,
            wanted@ == needle@,
            last == haystack@.len() - needle@.len(),
            at <= last,
            forall|before: int| 0 <= before < at ==> !occurs_at(needle@, haystack@, before),
        decreases last - at,
    {
        if stands_at(&wanted, &searched, at) {
            return true;
        }
        at = at + 1;
    }
    stands_at(&wanted, &searched, last)
}

/// Whether the last character of `text` is `/`.
pub fn ends_with_slash(text: &str) -> (ends: bool)
    ensures
        ends == ends_with(text@, '/'),
{
    let length: usize = text.unicode_len();
    length > 0 && text.get_char(length - 1) == '/'
}

/// What occurs in a text still occurs in it when both are written in lower case.
pub proof fn lowercase_keeps_occurrences(needle: Seq<char>, haystack: Seq<char>)
    ensures
        occurs_in(needle, haystack) ==> occurs_in(
            ascii_lowercase(needle),
            ascii_lowercase(haystack),
        ),
{
    if occurs_in(needle, haystack) {
        let at = choose|at: int| #[trigger] occurs_at(needle, haystack, at);
        let low = ascii_lowercase(needle);
        let part = haystack.subrange(at, at + needle.len());
        assert forall|i: int| 0 <= i < needle.len() implies haystack[at + i] == needle[i] by {
            assert(part[i] == needle[i]);
        }
        assert(ascii_lowercase(haystack).subrange(at, at + low.len()) =~= low);
        assert(occurs_at(low, ascii_lowercase(haystack), at));
    }
}

/// What occurs in the ASCII lower case of a text is the ASCII lower case of something that occurs
/// in the text itself.
pub proof fn lowercase_hides_nothing(needle: Seq<char>, haystack: Seq<char>) -> (original: Seq<char>)
    requires
        vstd::utf8::is_ascii_chars(needle),
        occurs_in(needle, ascii_lowercase(haystack)),
    ensures
        occurs_in(original, haystack),
        ascii_lowercase(original) == needle,
        vstd::utf8::is_ascii_chars(original),
{
    let low = ascii_lowercase(haystack);
    let at = choose|at: int| #[trigger] occurs_at(needle, low, at);
    let original = haystack.subrange(at, at + needle.len());
    assert(occurs_at(original, haystack, at));
    assert(ascii_lowercase(original) =~= low.subrange(at, at + needle.len()));
    lowercase_keeps_ascii(original);
    original
}

/// A text and its ASCII lower case are either both ASCII or both not.
pub proof fn lowercase_keeps_ascii(text: Seq<char>)
    ensures
        vstd::utf8::is_ascii_chars(ascii_lowercase(text)) == vstd::utf8::is_ascii_chars(text),
{
    let low = ascii_lowercase(text);
    if vstd::utf8::is_ascii_chars(low) {
        assert forall|i: int| 0 <= i < text.len() implies '\0' <= #[trigger] text[i] <= '\u{7f}' by {
            assert(low[i] == ascii_lower(text[i]));
        }
    }
    if vstd::utf8::is_ascii_chars(text) {
        assert forall|i: int| 0 <= i < low.len() implies '\0' <= #[trigger] low[i] <= '\u{7f}' by {
            assert(low[i] == ascii_lower(text[i]));
        }
    }
}

/// A text occurs in another exactly when the other is that text with something, or nothing, before
/// it and behind it.
pub proof fn occurrence_is_a_split(needle: Seq<char>, haystack: Seq<char>)
    ensures
        occurs_in(needle, haystack) <==> exists|before: Seq<char>, behind: Seq<char>|
            haystack == #[trigger] (before + needle + behind),
{
    if occurs_in(needle, haystack) {
        let at = choose|at: int| #[trigger] occurs_at(needle, haystack, at);
        let before = haystack.take(at);
        let behind = haystack.skip(at + needle.len());
        assert(haystack =~= before + haystack.subrange(at, at + needle.len()) + behind);
        assert(haystack == before + needle + behind);
    }
    if exists|before: Seq<char>, behind: Seq<char>|
        haystack == #[trigger] (before + needle + behind) {
        let (before, behind) = choose|before: Seq<char>, behind: Seq<char>|
            haystack == #[trigger] (before + needle + behind);
        let at = before.len() as int;
        assert(haystack.subrange(at, at + needle.len()) =~= needle);
        assert(occurs_at(needle, haystack, at));
    }
}

/// A text ends with the character that was put at its end and with no other, and the empty text
/// ends with none.
pub proof fn the_last_character_decides(text: Seq<char>, last: char, c: char)
    ensures
        ends_with(text.push(last), c) <==> last == c,
        !ends_with(Seq::<char>::empty(), c),
{
}

/// Lower case replaces `A` to `Z` by the letters thirty-two places further on, leaves every other
/// character, and changes nothing when it is done again.
pub proof fn lowercase_changes_capitals_only(text: Seq<char>)
    ensures
        ascii_lowercase(text).len() == text.len(),
        forall|i: int|
            0 <= i < text.len() ==> (#[trigger] ascii_lowercase(text)[i]) as int == if 65
                <= text[i] as int <= 90 {
                text[i] as int + 32
            } else {
                text[i] as int
            },
        ascii_lowercase(ascii_lowercase(text)) == ascii_lowercase(text),
{
    assert(ascii_lowercase(ascii_lowercase(text)) =~= ascii_lowercase(text));
}

} // verus!
