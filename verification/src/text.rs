//! Helpers for reading text character by character.
use vstd::prelude::*;
use vstd::string::StrSliceExecFns;

verus! {

/// An optional string as an optional sequence of characters.
pub open spec fn text_of(text: Option<String>) -> Option<Seq<char>> {
    match text {
        Some(text) => Some(text@),
        None => None,
    }
}

/// The characters of `text`, in order.
pub fn chars_of(text: &str) -> (chars: Vec<char>)
    ensures
        chars@ == text@,
{
    let mut chars: Vec<char> = Vec::new();
    for c in it: text.chars()
        invariant
            it.seq() == text@,
            chars@ == it.seq().take(it.index() as int),
    {
        chars.push(c);
    }
    chars
}

/// Whether two texts hold the same characters.
pub fn same_text(left: &str, right: &str) -> (same: bool)
    ensures
        same == (left@ == right@),
{
    let a = chars_of(left);
    let b = chars_of(right);
    if a.len() != b.len() {
        return false;
    }
    let mut i: usize = 0;
    while i < a.len()
        invariant
            a@ == left@,
            b@ == right@,
            a.len() == b.len(),
            i <= a.len(),
            a@.take(i as int) == b@.take(i as int),
        decreases a.len() - i,
    {
        if a[i] != b[i] {
            return false;
        }
        i += 1;
    }
    assert(a@ =~= a@.take(a.len() as int));
    assert(b@ =~= b@.take(b.len() as int));
    true
}

/// The place of the first `stop` in `text` at or after `from`, or the
/// length of `text` where none follows.
pub open spec fn first_at(text: Seq<char>, stop: char, from: int) -> int
    decreases text.len() - from,
{
    if from >= text.len() {
        text.len() as int
    } else if text[from] == stop {
        from
    } else {
        first_at(text, stop, from + 1)
    }
}

/// `first_at` lies between `from` and the end, no `stop` stands before it,
/// and one stands at it unless it is the end.
pub proof fn lemma_first_at(text: Seq<char>, stop: char, from: int)
    requires
        0 <= from <= text.len(),
    ensures
        from <= first_at(text, stop, from) <= text.len(),
        forall|i: int| from <= i < first_at(text, stop, from) ==> text[i] != stop,
        first_at(text, stop, from) < text.len() ==> text[first_at(text, stop, from)] == stop,
    decreases text.len() - from,
{
    if from < text.len() && text[from] != stop {
        lemma_first_at(text, stop, from + 1);
    }
}

/// The place of the first `stop` among `chars` at or after `from`, or the
/// number of characters where none follows.
pub fn find(chars: &Vec<char>, stop: char, from: usize) -> (at: usize)
    requires
        from <= chars.len(),
    ensures
        at == first_at(chars@, stop, from as int),
        from <= at <= chars.len(),
{
    let mut at: usize = from;
    while at < chars.len() && chars[at] != stop
        invariant
            from <= at <= chars.len(),
            first_at(chars@, stop, from as int) == first_at(chars@, stop, at as int),
        decreases chars.len() - at,
    {
        at += 1;
    }
    at
}

/// Whether the characters of `chars` from `from` up to `to` spell `word`.
pub fn spells(chars: &Vec<char>, from: usize, to: usize, word: &str) -> (same: bool)
    requires
        from <= to <= chars.len(),
    ensures
        same == (chars@.subrange(from as int, to as int) == word@),
{
    let letters = chars_of(word);
    if letters.len() != to - from {
        return false;
    }
    let ghost part = chars@.subrange(from as int, to as int);
    let mut i: usize = 0;
    while i < letters.len()
        invariant
            from <= to <= chars.len(),
            letters@ == word@,
            part == chars@.subrange(from as int, to as int),
            letters.len() == to - from,
            i <= letters.len(),
            forall|j: int| 0 <= j < i ==> part[j] == letters@[j],
        decreases letters.len() - i,
    {
        if chars[from + i] != letters[i] {
            return false;
        }
        i += 1;
    }
    assert(part =~= letters@);
    true
}

/// Whether `chars` begins with `word`.
pub fn begins_with(chars: &Vec<char>, word: &str) -> (begins: bool)
    ensures
        begins == word@.is_prefix_of(chars@),
{
    let length = word.unicode_len();
    if length > chars.len() {
        return false;
    }
    spells(chars, 0, length, word)
}

/// The characters of `text` from `from` up to `to`, as a string of their
/// own.
pub fn piece(text: &str, from: usize, to: usize) -> (part: String)
    requires
        from <= to <= text@.len(),
    ensures
        part@ == text@.subrange(from as int, to as int),
{
    text.substring_char(from, to).to_owned()
}

} // verus!
