//! Picking languages out of a borrowed list: the element after a given one,
//! the last one, and the longer of two.

use vstd::prelude::*;
use vstd::string::StrSliceExecFns;

verus! {

/// Character-for-character string equality.
fn str_eq(a: &str, b: &str) -> (equal: bool)
    ensures
        equal == (a@ == b@),
{
    let a_len = a.unicode_len();
    let b_len = b.unicode_len();
    if a_len != b_len {
        return false;
    }
    let mut i: usize = 0;
    while i < a_len
        invariant
            i <= a_len,
            a_len == a@.len(),
            a_len == b@.len(),
            forall|m: int| 0 <= m < i ==> a@[m] == b@[m],
        decreases a_len - i,
    {
        if a.get_char(i) != b.get_char(i) {
            return false;
        }
        i += 1;
    }
    proof {
        assert(a@ =~= b@);
    }
    true
}

/// The element right after the first occurrence of `current`; the last
/// element when `current` does not occur or occurs last.
pub fn next_language<'a>(languages: &'a [String], current: &str) -> (next: &'a str)
    requires
        languages@.len() > 0,
    ensures
        (forall|i: int| 0 <= i < languages@.len() ==> #[trigger] languages@[i]@ != current@)
            ==> next@ == languages@[languages@.len() - 1]@,
        forall|i: int|
            0 <= i < languages@.len() && #[trigger] languages@[i]@ == current@ && (forall|m: int|
                0 <= m < i ==> #[trigger] languages@[m]@ != current@) ==> next@ == (if i + 1
                < languages@.len() {
                languages@[i + 1]@
            } else {
                languages@[languages@.len() - 1]@
            }),
{
    let mut found = false;
    let mut idx: usize = 0;
    while idx < languages.len()
        invariant
            idx <= languages@.len(),
            found ==> 1 <= idx && languages@[idx - 1]@ == current@ && (forall|m: int|
                0 <= m < idx - 1 ==> #[trigger] languages@[m]@ != current@),
            !found ==> (forall|m: int| 0 <= m < idx ==> #[trigger] languages@[m]@ != current@),
        decreases languages@.len() - idx,
    {
        let lang = &languages[idx];
        if found {
            return lang.as_str();
        }
        if str_eq(lang.as_str(), current) {
            found = true;
        }
        idx += 1;
    }
    let last = languages.last().unwrap();
    last.as_str()
}

/// The last element of a non-empty list.
pub fn last_language(languages: &[String]) -> (last: &str)
    requires
        languages@.len() > 0,
    ensures
        last@ == languages@[languages@.len() - 1]@,
{
    languages.last().unwrap().as_str()
}

/// The longer of the two; the first wins a tie.
pub fn longest_language<'a>(lang_a: &'a str, lang_b: &'a str) -> (longest: &'a str)
    ensures
        longest@ == if lang_a@.len() >= lang_b@.len() {
            lang_a@
        } else {
            lang_b@
        },
{
    if lang_a.unicode_len() >= lang_b.unicode_len() {
        lang_a
    } else {
        lang_b
    }
}

} // verus!
