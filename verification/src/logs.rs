//! Log filtering and small validations. The log text is split at newline
//! characters exactly as a separator split does (a text with `k` newlines
//! has `k + 1` lines, empty lines included), and the lines that start with
//! the error prefix are kept, in order.

use vstd::prelude::*;
use vstd::string::StringExecFns;
use vstd::string::StrSliceExecFns;

verus! {

/// `line` begins with `prefix`.
pub open spec fn starts_with(line: Seq<char>, prefix: Seq<char>) -> bool {
    line.len() >= prefix.len() && line.subrange(0, prefix.len() as int) == prefix
}

/// A line that the log filter keeps.
pub open spec fn is_error_line(line: Seq<char>) -> bool {
    starts_with(line, "ERROR"@)
}

/// `text` split at every newline character: a separator split, so the
/// result always has one more line than `text` has newlines, and empty
/// lines are kept.
pub open spec fn split_lines(text: Seq<char>) -> Seq<Seq<char>>
    decreases text.len(),
{
    if text.len() == 0 {
        seq![Seq::<char>::empty()]
    } else if text[0] == '\n' {
        seq![Seq::<char>::empty()] + split_lines(text.drop_first())
    } else {
        let rest = split_lines(text.drop_first());
        seq![seq![text[0]] + rest[0]] + rest.drop_first()
    }
}

/// The lines that start with the error prefix, in their original order.
pub open spec fn error_lines(lines: Seq<Seq<char>>) -> Seq<Seq<char>>
    decreases lines.len(),
{
    if lines.len() == 0 {
        Seq::empty()
    } else if is_error_line(lines[0]) {
        seq![lines[0]] + error_lines(lines.drop_first())
    } else {
        error_lines(lines.drop_first())
    }
}

/// A split never comes out empty.
proof fn lemma_split_lines_nonempty(text: Seq<char>)
    ensures
        split_lines(text).len() >= 1,
    decreases text.len(),
{
    if text.len() > 0 {
        lemma_split_lines_nonempty(text.drop_first());
    }
}

/// Splitting a text whose first newline is at `j` yields the prefix before
/// `j` as the first line, followed by the split of what comes after `j`;
/// a text without a newline is a single line.
proof fn lemma_split_at_first_newline(text: Seq<char>, j: int)
    requires
        0 <= j <= text.len(),
        forall|m: int| 0 <= m < j ==> text[m] != '\n',
        j == text.len() || text[j] == '\n',
    ensures
        j == text.len() ==> split_lines(text) == seq![text],
        j < text.len() ==> split_lines(text) == seq![text.subrange(0, j)] + split_lines(
            text.subrange(j + 1, text.len() as int),
        ),
    decreases j,
{
    if j == 0 {
        if text.len() == 0 {
            assert(split_lines(text) =~~= seq![text]);
        } else {
            assert(text[0] == '\n');
            assert(text.drop_first() =~= text.subrange(1, text.len() as int));
            assert(split_lines(text) =~~= seq![text.subrange(0, 0)] + split_lines(
                text.subrange(1, text.len() as int),
            ));
        }
    } else {
        let tail = text.drop_first();
        lemma_split_at_first_newline(tail, j - 1);
        let rest = split_lines(tail);
        lemma_split_lines_nonempty(tail);
        if j == text.len() {
            assert(rest == seq![tail]);
            assert(seq![text[0]] + rest[0] =~= text);
            assert(split_lines(text) =~~= seq![text]);
        } else {
            assert(tail.subrange(0, j - 1) =~= text.subrange(1, j));
            assert(tail.subrange(j - 1 + 1, tail.len() as int) =~= text.subrange(
                j + 1,
                text.len() as int,
            ));
            assert(rest == seq![text.subrange(1, j)] + split_lines(
                text.subrange(j + 1, text.len() as int),
            ));
            assert(seq![text[0]] + rest[0] =~= text.subrange(0, j));
            assert((seq![text.subrange(1, j)] + split_lines(
                text.subrange(j + 1, text.len() as int),
            )).drop_first() =~~= split_lines(text.subrange(j + 1, text.len() as int)));
            assert(split_lines(text) =~~= seq![text.subrange(0, j)] + split_lines(
                text.subrange(j + 1, text.len() as int),
            ));
        }
    }
}

/// Filtering one more line keeps it exactly when it starts with the error
/// prefix.
proof fn lemma_error_lines_push(lines: Seq<Seq<char>>, line: Seq<char>)
    ensures
        error_lines(lines.push(line)) == if is_error_line(line) {
            error_lines(lines).push(line)
        } else {
            error_lines(lines)
        },
    decreases lines.len(),
{
    if lines.len() == 0 {
        let pushed = lines.push(line);
        assert(pushed[0] == line);
        assert(pushed.drop_first() =~~= Seq::<Seq<char>>::empty());
        assert(error_lines(pushed.drop_first()) =~~= Seq::<Seq<char>>::empty());
        if is_error_line(line) {
            assert(error_lines(pushed) =~~= seq![line] + error_lines(pushed.drop_first()));
            assert(error_lines(pushed) =~~= error_lines(lines).push(line));
        } else {
            assert(error_lines(pushed) =~~= error_lines(lines));
        }
    } else {
        assert(lines.push(line).drop_first() =~~= lines.drop_first().push(line));
        lemma_error_lines_push(lines.drop_first(), line);
        if is_error_line(line) {
            assert(error_lines(lines.push(line)) =~~= error_lines(lines).push(line));
        } else {
            assert(error_lines(lines.push(line)) =~~= error_lines(lines));
        }
    }
}

/// Whether `line` starts with the error prefix.
fn line_is_error(line: &str) -> (kept: bool)
    ensures
        kept == is_error_line(line@),
{
    proof {
        reveal_strlit("ERROR");
    }
    let len = line.unicode_len();
    if len < 5 {
        return false;
    }
    let matched = line.get_char(0) == 'E' && line.get_char(1) == 'R' && line.get_char(2) == 'R'
        && line.get_char(3) == 'O' && line.get_char(4) == 'R';
    proof {
        if matched {
            assert(line@.subrange(0, 5) =~= "ERROR"@);
        } else {
            if line@.subrange(0, 5) == "ERROR"@ {
                assert(line@[0] == line@.subrange(0, 5)[0]);
                assert(line@[1] == line@.subrange(0, 5)[1]);
                assert(line@[2] == line@.subrange(0, 5)[2]);
                assert(line@[3] == line@.subrange(0, 5)[3]);
                assert(line@[4] == line@.subrange(0, 5)[4]);
            }
        }
    }
    matched
}

/// The lines of `text` that start with the error prefix, in order, each as
/// an owned string.
pub fn extract_errors(text: &str) -> (results: Vec<String>)
    ensures
        results@.map_values(|line: String| line@) == error_lines(split_lines(text@)),
{
    let length = text.unicode_len();
    let mut results: Vec<String> = Vec::new();
    let ghost mut processed: Seq<Seq<char>> = Seq::empty();
    let mut start: usize = 0;
    let mut i: usize = 0;
    proof {
        assert(text@.subrange(0, length as int) =~= text@);
        assert(split_lines(text@) =~~= processed + split_lines(
            text@.subrange(0, length as int),
        ));
    }
    while i < length
        invariant
            start <= i <= length,
            length == text@.len(),
            forall|m: int| start <= m < i ==> text@[m] != '\n',
            split_lines(text@) == processed + split_lines(
                text@.subrange(start as int, length as int),
            ),
            results@.map_values(|line: String| line@) == error_lines(processed),
        decreases length - i,
    {
        if text.get_char(i) == '\n' {
            let line = text.substring_char(start, i);
            proof {
                let remaining = text@.subrange(start as int, length as int);
                lemma_split_at_first_newline(remaining, i - start);
                assert(remaining.subrange(0, i - start) =~= line@);
                assert(remaining.subrange(i - start + 1, remaining.len() as int) =~= text@.subrange(
                    i + 1,
                    length as int,
                ));
                assert(split_lines(text@) =~~= processed.push(line@) + split_lines(
                    text@.subrange(i + 1, length as int),
                ));
                lemma_error_lines_push(processed, line@);
            }
            if line_is_error(line) {
                let owned = line.to_owned();
                results.push(owned);
                proof {
                    assert(results@.map_values(|l: String| l@) =~~= error_lines(
                        processed.push(line@),
                    ));
                }
            } else {
                proof {
                    assert(results@.map_values(|l: String| l@) =~~= error_lines(
                        processed.push(line@),
                    ));
                }
            }
            proof {
                processed = processed.push(line@);
            }
            start = i + 1;
        }
        i += 1;
    }
    let line = text.substring_char(start, length);
    proof {
        let remaining = text@.subrange(start as int, length as int);
        lemma_split_at_first_newline(remaining, remaining.len() as int);
        assert(remaining =~= line@);
        assert(split_lines(text@) =~~= processed.push(line@));
        lemma_error_lines_push(processed, line@);
    }
    if line_is_error(line) {
        let owned = line.to_owned();
        results.push(owned);
        proof {
            assert(results@.map_values(|l: String| l@) =~~= error_lines(processed.push(line@)));
        }
    } else {
        proof {
            assert(results@.map_values(|l: String| l@) =~~= error_lines(processed.push(line@)));
        }
    }
    results
}

/// Accepts exactly the addresses that contain an at sign; a rejection
/// carries the fixed reason.
pub fn validate_email(email: String) -> (outcome: Result<(), String>)
    ensures
        outcome is Ok <==> email@.contains('@'),
        outcome matches Err(reason) ==> reason@ == "emails must have an @"@,
{
    let inner = email.as_str();
    let length = inner.unicode_len();
    let mut i: usize = 0;
    while i < length
        invariant
            i <= length,
            length == email@.len(),
            inner@ == email@,
            forall|m: int| 0 <= m < i ==> email@[m] != '@',
        decreases length - i,
    {
        if inner.get_char(i) == '@' {
            proof {
                assert(email@.contains('@')) by {
                    assert(email@[i as int] == '@');
                }
            }
            return Ok(());
        }
        i += 1;
    }
    proof {
        assert(!email@.contains('@'));
    }
    Err("emails must have an @".to_owned())
}

/// Accepts up to three ingredients; more are rejected with the fixed
/// reason.
pub fn validate_ingredients(ingredients: &Vec<String>) -> (outcome: Result<(), String>)
    ensures
        outcome is Ok <==> ingredients@.len() <= 3,
        outcome matches Err(reason) ==> reason@ == "too many ingredients"@,
{
    if ingredients.len() > 3 {
        Err("too many ingredients".to_owned())
    } else {
        Ok(())
    }
}

} // verus!
