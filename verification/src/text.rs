//! Small operations on text, stated over sequences of characters.

use vstd::prelude::*;

verus! {

/// Whether two string slices hold the same text.
pub fn str_eq(a: &str, b: &str) -> (same: bool)
    ensures
        same == (a@ == b@),
{
    let x = a.as_bytes();
    let y = b.as_bytes();
    proof {
        vstd::utf8::encode_utf8_decode_utf8(a@);
        vstd::utf8::encode_utf8_decode_utf8(b@);
    }
    if x.len() != y.len() {
        return false;
    }
    let mut i: usize = 0;
    while i < x.len()
        invariant
            i <= x.len(),
            x.len() == y.len(),
            x@ == vstd::utf8::encode_utf8(a@),
            y@ == vstd::utf8::encode_utf8(b@),
            forall|j: int| 0 <= j < i ==> x@[j] == y@[j],
        decreases x.len() - i,
    {
        if x[i] != y[i] {
            return false;
        }
        i += 1;
    }
    assert(x@ =~= y@);
    true
}

/// The characters of a text.
pub fn chars_of(text: &str) -> (chars: Vec<char>)
    ensures
        chars@ == text@,
{
    let mut chars: Vec<char> = Vec::new();
    for c in it: text.chars()
        invariant
            it.seq() == text@,
            chars@ == text@.take(it.index() as int),
    {
        chars.push(c);
        assert(text@.take(it.index() + 1) =~= text@.take(it.index() as int).push(c));
    }
    assert(text@.take(text@.len() as int) =~= text@);
    chars
}

/// Whether `text` begins with `prefix`.
pub open spec fn begins_with(text: Seq<char>, prefix: Seq<char>) -> bool {
    prefix.len() <= text.len() && text.take(prefix.len() as int) == prefix
}

/// Whether `text` begins with `prefix`.
pub fn starts_with(text: &str, prefix: &str) -> (found: bool)
    ensures
        found == begins_with(text@, prefix@),
{
    let wanted = chars_of(prefix);
    let have = chars_of(text);
    if have.len() < wanted.len() {
        return false;
    }
    let mut i: usize = 0;
    while i < wanted.len()
        invariant
            i <= wanted.len() <= have.len(),
            wanted@ == prefix@,
            have@ == text@,
            forall|j: int| 0 <= j < i ==> have@[j] == wanted@[j],
        decreases wanted.len() - i,
    {
        if have[i] != wanted[i] {
            assert(text@.take(prefix@.len() as int)[i as int] != prefix@[i as int]);
            return false;
        }
        i += 1;
    }
    assert(text@.take(prefix@.len() as int) =~= prefix@);
    true
}

/// Whether the two characters stand next to each other in `text`, the first
/// at place `at`.
pub open spec fn pair_at(text: Seq<char>, first: char, second: char, at: int) -> bool {
    0 <= at && at + 1 < text.len() && text[at] == first && text[at + 1] == second
}

/// Whether `at` is the first place in `text` where the two characters stand
/// next to each other.
pub open spec fn first_pair_at(text: Seq<char>, first: char, second: char, at: int) -> bool {
    &&& pair_at(text, first, second, at)
    &&& forall|j: int| 0 <= j < at ==> !pair_at(text, first, second, j)
}

/// Whether the two characters stand next to each other anywhere in `text`.
pub open spec fn has_pair(text: Seq<char>, first: char, second: char) -> bool {
    exists|at: int| pair_at(text, first, second, at)
}

/// The first place in `chars` where `first` is followed directly by
/// `second`, if there is one.
pub fn find_pair(chars: &Vec<char>, first: char, second: char) -> (found: Option<usize>)
    ensures
        match found {
            Some(at) => first_pair_at(chars@, first, second, at as int),
            None => !has_pair(chars@, first, second),
        },
{
    if chars.len() < 2 {
        return None;
    }
    let mut i: usize = 0;
    while i < chars.len() - 1
        invariant
            2 <= chars.len(),
            i <= chars.len() - 1,
            forall|j: int| 0 <= j < i ==> !pair_at(chars@, first, second, j),
        decreases chars.len() - i,
    {
        if chars[i] == first && chars[i + 1] == second {
            return Some(i);
        }
        i += 1;
    }
    None
}

/// The number of times `c` stands at the start of `text` before any other
/// character.
pub open spec fn leading(text: Seq<char>, c: char) -> nat
    decreases text.len(),
{
    if text.len() > 0 && text[0] == c {
        1 + leading(text.drop_first(), c)
    } else {
        0
    }
}

/// The number of times `c` stands at the start of `chars` before any other
/// character.
pub fn count_leading(chars: &Vec<char>, c: char) -> (n: usize)
    ensures
        n == leading(chars@, c),
        n <= chars.len(),
{
    let mut i: usize = 0;
    assert(chars@.skip(0) =~= chars@);
    while i < chars.len() && chars[i] == c
        invariant
            i <= chars.len(),
            leading(chars@, c) == i + leading(chars@.skip(i as int), c),
        decreases chars.len() - i,
    {
        proof {
            let rest = chars@.skip(i as int);
            assert(rest.len() > 0 && rest[0] == c);
            assert(rest.drop_first() =~= chars@.skip(i + 1));
        }
        i += 1;
    }
    proof {
        let rest = chars@.skip(i as int);
        if i < chars.len() {
            assert(rest[0] == chars@[i as int]);
        }
    }
    i
}

/// `String::push`: appends one character to the end of a string.
#[verifier::external_body]
fn push_char(text: &mut String, c: char)
    ensures
        final(text)@ == old(text)@.push(c),
{
    text.push(c);
}

/// The text made of the given characters.
pub fn text_of(chars: &Vec<char>) -> (text: String)
    ensures
        text@ == chars@,
{
    let mut text = String::new();
    let mut i: usize = 0;
    while i < chars.len()
        invariant
            i <= chars.len(),
            text@ == chars@.take(i as int),
        decreases chars.len() - i,
    {
        push_char(&mut text, chars[i]);
        assert(chars@.take(i + 1) =~= chars@.take(i as int).push(chars@[i as int]));
        i += 1;
    }
    assert(chars@.take(chars.len() as int) =~= chars@);
    text
}

/// `text` without the two characters at `at` and `at + 1`.
pub open spec fn without_pair_at(text: Seq<char>, at: int) -> Seq<char> {
    text.take(at) + text.skip(at + 2)
}

/// `text` without the first place where `first` is followed directly by
/// `second`; `text` itself where there is no such place.
pub open spec fn without_first_pair(text: Seq<char>, first: char, second: char) -> Seq<char> {
    if has_pair(text, first, second) {
        without_pair_at(text, choose|at: int| first_pair_at(text, first, second, at))
    } else {
        text
    }
}

/// Removes the first place where `first` is followed directly by `second`.
pub fn remove_first_pair(chars: &Vec<char>, first: char, second: char) -> (rest: Vec<char>)
    ensures
        rest@ == without_first_pair(chars@, first, second),
{
    let mut rest: Vec<char> = Vec::new();
    match find_pair(chars, first, second) {
        Some(at) => {
            proof {
                let chosen = choose|k: int| first_pair_at(chars@, first, second, k);
                assert(pair_at(chars@, first, second, at as int));
                assert(first_pair_at(chars@, first, second, chosen));
                if chosen < at {
                    assert(!pair_at(chars@, first, second, chosen));
                } else if at < chosen {
                    assert(!pair_at(chars@, first, second, at as int));
                }
            }
            let mut i: usize = 0;
            while i < chars.len()
                invariant
                    i <= chars.len(),
                    at + 1 < chars.len(),
                    rest@ == if i <= at {
                        chars@.take(i as int)
                    } else if i <= at + 1 {
                        chars@.take(at as int)
                    } else {
                        chars@.take(at as int) + chars@.subrange(at + 2, i as int)
                    },
                decreases chars.len() - i,
            {
                if i < at || i > at + 1 {
                    rest.push(chars[i]);
                }
                proof {
                    if i < at {
                        assert(chars@.take(i + 1) =~= chars@.take(i as int).push(chars@[i as int]));
                    } else if i > at + 1 {
                        assert(chars@.subrange(at + 2, i + 1) =~= chars@.subrange(
                            at + 2,
                            i as int,
                        ).push(chars@[i as int]));
                        assert(chars@.take(at as int) + chars@.subrange(at + 2, i + 1)
                            =~= (chars@.take(at as int) + chars@.subrange(at + 2, i as int)).push(
                            chars@[i as int],
                        ));
                    } else if i == at + 1 {
                        assert(chars@.subrange(at + 2, at + 2) =~= Seq::<char>::empty());
                        assert(chars@.take(at as int) + chars@.subrange(at + 2, at + 2)
                            =~= chars@.take(at as int));
                    }
                }
                i += 1;
            }
            assert(chars@.subrange(at + 2, chars.len() as int) =~= chars@.skip(at + 2));
        },
        None => {
            let mut i: usize = 0;
            while i < chars.len()
                invariant
                    i <= chars.len(),
                    rest@ == chars@.take(i as int),
                decreases chars.len() - i,
            {
                rest.push(chars[i]);
                assert(chars@.take(i + 1) =~= chars@.take(i as int).push(chars@[i as int]));
                i += 1;
            }
            assert(chars@.take(chars.len() as int) =~= chars@);
        },
    }
    rest
}

} // verus!
