//! Text as the contracts see it: a string is the sequence of its characters.
use vstd::prelude::*;
use vstd::string::*;

verus! {

/// The characters of each string of a sequence.
pub open spec fn texts(strings: Seq<String>) -> Seq<Seq<char>> {
    strings.map_values(|s: String| s@)
}

/// Whether `text` ends with `suffix`.
pub open spec fn has_suffix(text: Seq<char>, suffix: Seq<char>) -> bool {
    suffix.len() <= text.len() && text.skip(text.len() - suffix.len()) == suffix
}

/// `text` with every occurrence of `from` turned into `to`.
pub open spec fn replaced(text: Seq<char>, from: char, to: char) -> Seq<char> {
    text.map_values(|c: char| if c == from { to } else { c })
}

/// The characters of a string, one by one.
pub(crate) fn characters(text: &str) -> (chars: Vec<char>)
    ensures
        chars@ == text@,
{
    let mut chars: Vec<char> = Vec::new();
    let mut rest = text.chars();
    let ghost whole = text@;
    assert(whole.skip(0) == whole);
    loop
        invariant
            chars@.len() <= whole.len(),
            chars@ == whole.take(chars@.len() as int),
            vstd::std_specs::iter::IteratorSpec::remaining(&rest) == whole.skip(
                chars@.len() as int,
            ),
        ensures
            chars@ == whole,
        decreases whole.len() - chars@.len(),
    {
        match rest.next() {
            Some(c) => {
                chars.push(c);
            },
            None => {
                break;
            },
        }
    }
    chars
}

/// Whether `text` ends with `suffix`.
pub fn ends_with(text: &str, suffix: &str) -> (found: bool)
    ensures
        found == has_suffix(text@, suffix@),
{
    let whole: Vec<char> = characters(text);
    let tail: Vec<char> = characters(suffix);
    if tail.len() > whole.len() {
        return false;
    }
    let start: usize = whole.len() - tail.len();
    let mut i: usize = 0;
    while i < tail.len()
        invariant
            i <= tail.len(),
            whole@ == text@,
            tail@ == suffix@,
            start + tail.len() == whole.len(),
            forall|j: int| 0 <= j < i ==> whole@[start + j] == tail@[j],
        decreases tail.len() - i,
    {
        if whole[start + i] != tail[i] {
            assert(text@.skip(start as int)[i as int] != suffix@[i as int]);
            return false;
        }
        i += 1;
    }
    assert(text@.skip(start as int) =~= suffix@);
    true
}

/// `text` with every `'.'` turned into `'_'`.
pub fn dots_to_underscores(text: &str) -> (result: String)
    ensures
        result@ == replaced(text@, '.', '_'),
{
    let chars: Vec<char> = characters(text);
    let mut result: String = String::new();
    let mut i: usize = 0;
    proof {
        reveal_strlit("_");
    }
    while i < chars.len()
        invariant
            i <= chars@.len(),
            chars@ == text@,
            "_"@ =~= seq!['_'],
            result@ == replaced(text@.take(i as int), '.', '_'),
        decreases chars@.len() - i,
    {
        if chars[i] == '.' {
            result.append("_");
        } else {
            result.append(text.substring_char(i, i + 1));
        }
        assert(result@ =~= replaced(text@.take(i + 1), '.', '_'));
        i += 1;
    }
    assert(text@.take(i as int) =~= text@);
    result
}

/// The concatenation of two strings.
pub(crate) fn joined(left: &str, right: &str) -> (result: String)
    ensures
        result@ == left@ + right@,
{
    let mut result: String = left.to_owned();
    result.append(right);
    result
}

/// The texts of strings are their characters, string by string.
pub proof fn law_texts_go_string_by_string(strings: Seq<String>, i: int)
    ensures
        texts(strings).len() == strings.len(),
        0 <= i < strings.len() ==> texts(strings)[i] == strings[i]@,
{
}

/// A text ends with a suffix exactly if it is some stem with the suffix behind it.
pub proof fn law_suffix_stands_behind_a_stem(text: Seq<char>, stem: Seq<char>, suffix: Seq<char>)
    ensures
        has_suffix(stem + suffix, suffix),
        has_suffix(text, suffix) <==> exists|front: Seq<char>| text == #[trigger] (front + suffix),
{
    assert((stem + suffix).skip(stem.len() as int) =~= suffix);
    if has_suffix(text, suffix) {
        let front = text.take(text.len() - suffix.len());
        assert(text =~= front + suffix);
    }
    if exists|front: Seq<char>| text == #[trigger] (front + suffix) {
        let front = choose|front: Seq<char>| text == #[trigger] (front + suffix);
        assert(text.skip(front.len() as int) =~= suffix);
    }
}

/// Replacing goes character by character, and leaves all other characters as they are.
pub proof fn law_replacing_goes_by_character(text: Seq<char>, from: char, to: char, i: int)
    requires
        0 <= i < text.len(),
    ensures
        replaced(text, from, to).len() == text.len(),
        text[i] == from ==> replaced(text, from, to)[i] == to,
        text[i] != from ==> replaced(text, from, to)[i] == text[i],
{
}

} // verus!
