//! String-list utilities: shortening, upper-casing, moving, exploding into
//! characters, and searching by substring.

use vstd::prelude::*;
use vstd::string::StringExecFns;
use vstd::string::StrSliceExecFns;

verus! {

/// A string cut down to its first character; an empty string stays empty.
pub open spec fn shortened(s: Seq<char>) -> Seq<char> {
    if s.len() == 0 {
        s
    } else {
        seq![s[0]]
    }
}

/// `pattern` occurs contiguously somewhere in `text` (anywhere, including
/// the empty pattern at the end).
pub open spec fn contains_substring(text: Seq<char>, pattern: Seq<char>) -> bool {
    exists|k: int|
        0 <= k <= text.len() - pattern.len() && #[trigger] text.subrange(
            k,
            k + pattern.len() as int,
        ) == pattern
}

/// What `str::to_uppercase` returns; the result depends on the characters
/// alone.
pub uninterp spec fn upper_of(s: Seq<char>) -> Seq<char>;

/// Relies on `str::to_uppercase`: the uppercase mapping of the characters,
/// which maps the empty string to the empty string.
#[verifier::external_body]
fn uppercase(s: &str) -> (upper: String)
    ensures
        upper@ == upper_of(s@),
        s@.len() == 0 ==> upper@.len() == 0,
{
    s.to_uppercase()
}

/// Cuts every element down to its first character, in place.
pub fn shorten_string(elements: &mut Vec<String>)
    ensures
        final(elements)@.len() == old(elements)@.len(),
        forall|i: int|
            0 <= i < old(elements)@.len() ==> #[trigger] final(elements)@[i]@ == shortened(
                old(elements)@[i]@,
            ),
{
    let mut result: Vec<String> = Vec::new();
    let mut i: usize = 0;
    while i < elements.len()
        invariant
            i <= elements@.len(),
            elements@ == old(elements)@,
            result@.len() == i,
            forall|m: int|
                0 <= m < i ==> #[trigger] result@[m]@ == shortened(old(elements)@[m]@),
        decreases elements@.len() - i,
    {
        let element = &elements[i];
        let short = if element.as_str().is_empty() {
            String::new()
        } else {
            element.as_str().substring_char(0, 1).to_owned()
        };
        proof {
            assert(short@ == shortened(elements@[i as int]@));
        }
        result.push(short);
        i += 1;
    }
    *elements = result;
}

/// A new list with every element upper-cased.
pub fn to_uppercase(elements: &[String]) -> (uppercased: Vec<String>)
    ensures
        uppercased@.len() == elements@.len(),
        forall|i: int|
            0 <= i < elements@.len() ==> #[trigger] uppercased@[i]@ == upper_of(elements@[i]@),
{
    let mut uppercased: Vec<String> = Vec::new();
    let mut i: usize = 0;
    while i < elements.len()
        invariant
            i <= elements@.len(),
            uppercased@.len() == i,
            forall|m: int|
                0 <= m < i ==> #[trigger] uppercased@[m]@ == upper_of(elements@[m]@),
        decreases elements@.len() - i,
    {
        uppercased.push(uppercase(elements[i].as_str()));
        i += 1;
    }
    uppercased
}

/// Moves every element of `vec_a`, in order, onto the end of `vec_b`.
pub fn move_elements(vec_a: Vec<String>, vec_b: &mut Vec<String>)
    ensures
        final(vec_b)@ == old(vec_b)@ + vec_a@,
{
    let mut remaining = vec_a;
    proof {
        assert(vec_b@ + remaining@ =~= old(vec_b)@ + vec_a@);
    }
    while remaining.len() > 0
        invariant
            vec_b@ + remaining@ == old(vec_b)@ + vec_a@,
        decreases remaining@.len(),
    {
        let item = remaining.remove(0);
        vec_b.push(item);
        proof {
            assert(vec_b@ + remaining@ =~= old(vec_b)@ + vec_a@);
        }
    }
    proof {
        assert(vec_b@ =~= old(vec_b)@ + vec_a@);
    }
}

/// Splits every element into a list of its one-character strings.
pub fn explode(elements: &[String]) -> (exploded: Vec<Vec<String>>)
    ensures
        exploded@.len() == elements@.len(),
        forall|i: int|
            0 <= i < elements@.len() ==> #[trigger] exploded@[i]@.len() == elements@[i]@.len(),
        forall|i: int, j: int|
            0 <= i < elements@.len() && 0 <= j < elements@[i]@.len()
                ==> #[trigger] exploded@[i]@[j]@ == seq![elements@[i]@[j]],
{
    let mut exploded: Vec<Vec<String>> = Vec::new();
    let mut i: usize = 0;
    while i < elements.len()
        invariant
            i <= elements@.len(),
            exploded@.len() == i,
            forall|m: int| 0 <= m < i ==> #[trigger] exploded@[m]@.len() == elements@[m]@.len(),
            forall|m: int, j: int|
                0 <= m < i && 0 <= j < elements@[m]@.len() ==> #[trigger] exploded@[m]@[j]@
                    == seq![elements@[m]@[j]],
        decreases elements@.len() - i,
    {
        let element = elements[i].as_str();
        let length = element.unicode_len();
        let mut characters: Vec<String> = Vec::new();
        let mut j: usize = 0;
        while j < length
            invariant
                j <= length,
                length == element@.len(),
                characters@.len() == j,
                forall|m: int|
                    0 <= m < j ==> #[trigger] characters@[m]@ == seq![element@[m]],
            decreases length - j,
        {
            let one = element.substring_char(j, j + 1);
            proof {
                assert(one@ =~= seq![element@[j as int]]);
            }
            characters.push(one.to_owned());
            j += 1;
        }
        exploded.push(characters);
        i += 1;
    }
    exploded
}

/// `text` contains `pattern` as a contiguous run of characters.
pub fn str_contains(text: &str, pattern: &str) -> (found: bool)
    ensures
        found == contains_substring(text@, pattern@),
{
    let text_len = text.unicode_len();
    let pattern_len = pattern.unicode_len();
    if pattern_len > text_len {
        return false;
    }
    let mut k: usize = 0;
    while k <= text_len - pattern_len
        invariant
            pattern_len <= text_len,
            text_len == text@.len(),
            pattern_len == pattern@.len(),
            k <= text_len - pattern_len + 1,
            forall|m: int|
                0 <= m < k ==> #[trigger] text@.subrange(m, m + pattern_len as int) != pattern@,
        decreases text_len - pattern_len - k + 1,
    {
        let mut j: usize = 0;
        let mut all = true;
        while j < pattern_len
            invariant
                j <= pattern_len,
                k + pattern_len <= text_len,
                text_len == text@.len(),
                pattern_len == pattern@.len(),
                all <==> (forall|m: int|
                    0 <= m < j ==> text@[k as int + m] == pattern@[m]),
            decreases pattern_len - j,
        {
            if text.get_char(k + j) != pattern.get_char(j) {
                all = false;
            }
            j += 1;
        }
        proof {
            let sub = text@.subrange(k as int, k as int + pattern_len as int);
            assert(forall|m: int| 0 <= m < pattern_len ==> sub[m] == text@[k as int + m]);
            if all {
                assert(sub =~= pattern@);
            } else {
                assert(sub != pattern@);
            }
        }
        if all {
            return true;
        }
        k += 1;
    }
    false
}

/// The first element that contains `search`, or `fallback` (owned) when no
/// element does.
pub fn find_color_or(elements: &[String], search: &str, fallback: &str) -> (found: String)
    ensures
        (forall|i: int|
            0 <= i < elements@.len() ==> !contains_substring(#[trigger] elements@[i]@, search@))
            ==> found@ == fallback@,
        forall|i: int|
            0 <= i < elements@.len() && contains_substring(#[trigger] elements@[i]@, search@) && (
            forall|m: int| 0 <= m < i ==> !contains_substring(#[trigger] elements@[m]@, search@))
                ==> found@ == elements@[i]@,
{
    let mut i: usize = 0;
    while i < elements.len()
        invariant
            i <= elements@.len(),
            forall|m: int|
                0 <= m < i ==> !contains_substring(#[trigger] elements@[m]@, search@),
        decreases elements@.len() - i,
    {
        let element = &elements[i];
        if str_contains(element.as_str(), search) {
            return element.clone();
        }
        i += 1;
    }
    fallback.to_owned()
}

} // verus!
