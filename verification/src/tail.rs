//! The last lines of the engine's output, with credentials kept out of them.

use crate::text::{
    characters, contains, has_text, is_white_space, joined, maybe_text, text_contains,
    white_space,
};
use std::collections::VecDeque;
use vstd::prelude::*;
use vstd::string::*;

verus! {

/// How many lines are kept.
pub const TAIL_LIMIT: usize = 50;

/// What is shown in place of a line that may hold a credential.
pub const REDACTED: &'static str = "[engine] [redacted token line]";

/// How long a word of credential characters has to be to be taken for one.
pub const CREDENTIAL_LENGTH: usize = 32;

/// `c`, or its lower-case form if it is an upper-case ASCII letter.
pub open spec fn ascii_lower(c: char) -> char {
    if 'A' <= c <= 'Z' {
        (c as u32 + 32) as char
    } else {
        c
    }
}

/// Whether the word "token" stands in `line`, in whatever case.
pub open spec fn mentions_token(line: Seq<char>) -> bool {
    has_text(line.map_values(|c: char| ascii_lower(c)), "token"@)
}

/// The characters that credentials are made of.
pub open spec fn credential_char(c: char) -> bool {
    ||| 'a' <= c <= 'z'
    ||| 'A' <= c <= 'Z'
    ||| '0' <= c <= '9'
    ||| c == '-'
    ||| c == '_'
    ||| c == '.'
}

/// Whether `line` holds a whole word from `start` to before `end`.
pub open spec fn is_word(line: Seq<char>, start: int, end: int) -> bool {
    &&& 0 <= start < end <= line.len()
    &&& forall|i: int| start <= i < end ==> !is_white_space(line[i])
    &&& start == 0 || is_white_space(line[start - 1])
    &&& end == line.len() || is_white_space(line[end])
}

/// Whether the word from `start` to before `end` looks like a credential.
pub open spec fn credential_word(line: Seq<char>, start: int, end: int) -> bool {
    &&& is_word(line, start, end)
    &&& end - start >= CREDENTIAL_LENGTH
    &&& forall|i: int| start <= i < end ==> credential_char(line[i])
}

/// Whether some word of `line` looks like a credential.
pub open spec fn has_credential_word(line: Seq<char>) -> bool {
    exists|start: int, end: int| credential_word(line, start, end)
}

/// Whether `line` may hold a credential: it speaks of a token, it holds the
/// device token, or one of its words looks like a credential.
pub open spec fn suspicious(line: Seq<char>, token: Option<Seq<char>>) -> bool {
    ||| mentions_token(line)
    ||| token matches Some(t) && has_text(line, t)
    ||| has_credential_word(line)
}

/// What is shown of `line`.
pub open spec fn sanitized(line: Seq<char>, token: Option<Seq<char>>) -> Seq<char> {
    if suspicious(line, token) {
        REDACTED@
    } else {
        line
    }
}

/// Whether the word "token" stands in `line`, in whatever case.
fn speaks_of_token(line: &Vec<char>) -> (found: bool)
    ensures
        found == mentions_token(line@),
{
    let mut lower: Vec<char> = Vec::new();
    let mut i: usize = 0;
    while i < line.len()
        invariant
            i <= line.len(),
            lower.len() == i,
            forall|j: int| 0 <= j < i ==> lower[j] == ascii_lower(line[j]),
        decreases line.len() - i,
    {
        let c = line[i];
        lower.push(
            if 'A' <= c && c <= 'Z' {
                (c as u8 + 32) as char
            } else {
                c
            },
        );
        i = i + 1;
    }
    assert(lower@ == line@.map_values(|c: char| ascii_lower(c)));
    contains(&lower, &characters("token"))
}

/// Whether credentials are made of characters like `c`.
fn is_credential_char(c: char) -> (is: bool)
    ensures
        is == credential_char(c),
{
    ('a' <= c && c <= 'z') || ('A' <= c && c <= 'Z') || ('0' <= c && c <= '9') || c == '-' || c
        == '_' || c == '.'
}

/// Whether some word of `line` looks like a credential.
fn holds_credential_word(line: &Vec<char>) -> (found: bool)
    ensures
        found == has_credential_word(line@),
{
    let len: usize = line.len();
    let mut start: usize = 0;
    while start < len
        invariant
            start <= len == line.len(),
            start == 0 || start == len || is_white_space(line[start - 1]),
            forall|s: int, e: int| s < start ==> !credential_word(line@, s, e),
        decreases len - start,
    {
        if white_space(line[start]) {
            assert forall|s: int, e: int| s < start + 1 implies !credential_word(line@, s, e) by {
                if s == start && credential_word(line@, s, e) {
                    assert(!is_white_space(line@[s]));
                }
            }
            start = start + 1;
        } else {
            let mut end: usize = start;
            let mut plain = true;
            while end < len && !white_space(line[end])
                invariant
                    start <= end <= len == line.len(),
                    forall|i: int| start <= i < end ==> !is_white_space(line[i]),
                    plain == (forall|i: int| start <= i < end ==> credential_char(line[i])),
                decreases len - end,
            {
                if !is_credential_char(line[end]) {
                    plain = false;
                }
                end = end + 1;
            }
            assert(is_word(line@, start as int, end as int));
            if plain && end - start >= CREDENTIAL_LENGTH {
                assert(credential_word(line@, start as int, end as int));
                return true;
            }
            assert forall|s: int, e: int| s < end implies !credential_word(line@, s, e) by {
                if credential_word(line@, s, e) && s >= start {
                    if s > start {
                        assert(!is_white_space(line@[s - 1]));
                    } else if e < end {
                        assert(!is_white_space(line@[e]));
                    } else if e > end {
                        assert(!is_white_space(line@[end as int]));
                    }
                }
            }
            if end < len {
                assert forall|s: int, e: int| s < end + 1 implies !credential_word(
                    line@,
                    s,
                    e,
                ) by {
                    if s == end && credential_word(line@, s, e) {
                        assert(!is_white_space(line@[s]));
                    }
                }
                start = end + 1;
            } else {
                start = end;
            }
        }
    }
    false
}

/// What is shown of a line of engine output: the line itself, or
/// [`REDACTED`] where it may hold a credential.
pub fn sanitize_tail_line(line: &str, token: Option<&str>) -> (shown: String)
    ensures
        shown@ == sanitized(
            line@,
            match token {
                Some(t) => Some(t@),
                None => None,
            },
        ),
{
    let chars = characters(line);
    let known = match token {
        Some(t) => text_contains(line, t),
        None => false,
    };
    if known || speaks_of_token(&chars) || holds_credential_word(&chars) {
        REDACTED.to_owned()
    } else {
        line.to_owned()
    }
}

/// What is told of an error: the error itself, or [`REDACTED`] where it holds
/// the device token, or nothing where that notice would hold it too. An empty
/// token is no secret.
pub open spec fn told(error: Seq<char>, token: Option<Seq<char>>) -> Seq<char> {
    if token is None || token->0.len() == 0 || !has_text(error, token->0) {
        error
    } else if !has_text(REDACTED@, token->0) {
        REDACTED@
    } else {
        Seq::empty()
    }
}

/// What is told of an error: see [`told`].
pub fn redact_error(error: String, token: &Option<String>) -> (shown: String)
    ensures
        shown@ == told(error@, maybe_text(*token)),
{
    match token {
        Some(t) => if t.as_str().is_empty() || !text_contains(&error, t) {
            error
        } else if !text_contains(REDACTED, t) {
            REDACTED.to_owned()
        } else {
            String::new()
        },
        None => error,
    }
}

/// What is told of an error never holds the device token.
pub proof fn law_told_error_holds_no_token(error: Seq<char>, token: Seq<char>)
    requires
        token.len() > 0,
    ensures
        !has_text(told(error, Some(token)), token),
{
}

/// A line of engine output, with the stream that it came from.
pub fn labelled_line(label: &str, line: &str) -> (labelled: String)
    ensures
        labelled@ == "["@ + label@ + "] "@ + line@,
{
    let mut labelled = joined("[", label);
    labelled.append("] ");
    labelled.append(line);
    labelled
}

/// The last [`TAIL_LIMIT`] items of `lines`.
pub open spec fn last_lines<A>(lines: Seq<A>) -> Seq<A> {
    if lines.len() > TAIL_LIMIT {
        lines.skip(lines.len() - TAIL_LIMIT)
    } else {
        lines
    }
}

/// Appends a line and lets go of the oldest ones beyond the limit.
pub fn push_tail_inner(tail: &mut VecDeque<String>, line: String)
    ensures
        final(tail)@ == last_lines(old(tail)@.push(line)),
{
    tail.push_back(line);
    let ghost all = tail@;
    let ghost mut dropped: int = 0;
    assert(all.skip(0) == all);
    while tail.len() > TAIL_LIMIT
        invariant
            0 <= dropped <= all.len(),
            tail@ == all.skip(dropped),
            dropped > 0 ==> all.len() - dropped >= TAIL_LIMIT,
        decreases tail.len(),
    {
        tail.pop_front();
        proof {
            dropped = dropped + 1;
            assert(tail@ == all.skip(dropped));
        }
    }
}

/// A line that is shown never holds the device token. Tokens that are part of
/// the redaction notice itself are the only exception.
pub proof fn law_token_is_not_shown(line: Seq<char>, token: Seq<char>)
    requires
        !has_text(REDACTED@, token),
    ensures
        !has_text(sanitized(line, Some(token)), token),
{
}

/// A line that is shown holds no word that looks like a credential, and does
/// not speak of a token unless it is the redaction notice.
pub proof fn law_shown_line_is_clean(line: Seq<char>, token: Option<Seq<char>>)
    ensures
        !has_credential_word(sanitized(line, token)),
        mentions_token(sanitized(line, token)) ==> sanitized(line, token) == REDACTED@,
{
    reveal_strlit("[engine] [redacted token line]");
}

/// Sanitizing a line that is shown changes nothing.
pub proof fn law_sanitizing_twice_is_sanitizing_once(line: Seq<char>, token: Option<Seq<char>>)
    ensures
        sanitized(sanitized(line, token), token) == sanitized(line, token),
{
}

/// The tail never grows beyond its limit, and its newest line is the last one
/// that was pushed.
pub proof fn law_tail_is_bounded<A>(lines: Seq<A>, line: A)
    ensures
        last_lines(lines.push(line)).len() <= TAIL_LIMIT,
        last_lines(lines.push(line)).last() == line,
{
}

/// Whether five characters from `at` on spell "token", in whatever case.
pub open spec fn spells_token(line: Seq<char>, at: int) -> bool {
    &&& 0 <= at
    &&& at + 5 <= line.len()
    &&& line[at] == 't' || line[at] == 'T'
    &&& line[at + 1] == 'o' || line[at + 1] == 'O'
    &&& line[at + 2] == 'k' || line[at + 2] == 'K'
    &&& line[at + 3] == 'e' || line[at + 3] == 'E'
    &&& line[at + 4] == 'n' || line[at + 4] == 'N'
}

/// Whether `c` is an ASCII letter or digit, a hyphen, an underscore or a dot.
pub open spec fn plain_char(c: char) -> bool {
    'a' <= c <= 'z' || 'A' <= c <= 'Z' || '0' <= c <= '9' || c == '-' || c == '_' || c == '.'
}

/// Whether the 32 characters from `at` on could be a credential, or part of one.
pub open spec fn plain_run(line: Seq<char>, at: int) -> bool {
    0 <= at && at + 32 <= line.len() && forall|k: int|
        at <= k < at + 32 ==> plain_char(#[trigger] line[k])
}

/// An ordinary line is shown as it is: one that does not spell "token", does not
/// hold the device token, and has no 32 plain characters in a row.
pub proof fn law_ordinary_line_is_shown(line: Seq<char>, token: Option<Seq<char>>)
    requires
        forall|at: int| !#[trigger] spells_token(line, at),
        token matches Some(t) ==> !has_text(line, t),
        forall|at: int| !#[trigger] plain_run(line, at),
    ensures
        sanitized(line, token) == line,
{
    reveal_strlit("token");
    let lower = line.map_values(|c: char| ascii_lower(c));
    if mentions_token(line) {
        let at = choose|at: int| crate::text::occurs_at(lower, "token"@, at);
        let found = lower.subrange(at, at + 5);
        assert(found[0] == 't' && found[1] == 'o' && found[2] == 'k' && found[3] == 'e' && found[4]
            == 'n');
        assert(found[0] == ascii_lower(line[at]) && found[1] == ascii_lower(line[at + 1])
            && found[2] == ascii_lower(line[at + 2]) && found[3] == ascii_lower(line[at + 3])
            && found[4] == ascii_lower(line[at + 4]));
        assert(spells_token(line, at));
    }
    if has_credential_word(line) {
        let (start, end) = choose|start: int, end: int| credential_word(line, start, end);
        assert forall|k: int| start <= k < start + 32 implies plain_char(#[trigger] line[k]) by {
            assert(credential_char(line[k]));
        }
        assert(plain_run(line, start));
    }
}

/// A line that spells "token" anywhere, in whatever case, is not shown.
pub proof fn law_line_about_a_token_is_not_shown(
    line: Seq<char>,
    token: Option<Seq<char>>,
    at: int,
)
    requires
        spells_token(line, at),
    ensures
        sanitized(line, token) == "[engine] [redacted token line]"@,
{
    reveal_strlit("token");
    let lower = line.map_values(|c: char| ascii_lower(c));
    assert(lower.subrange(at, at + 5) =~= "token"@);
    assert(crate::text::occurs_at(lower, "token"@, at));
}

/// A line with the device token in it is not shown.
pub proof fn law_line_with_the_token_is_not_shown(
    before: Seq<char>,
    token: Seq<char>,
    after: Seq<char>,
)
    ensures
        sanitized(before + token + after, Some(token)) == "[engine] [redacted token line]"@,
{
    let line = before + token + after;
    let at = before.len() as int;
    assert(line.subrange(at, at + token.len()) =~= token);
    assert(crate::text::occurs_at(line, token, at));
}

/// A line with a word of 32 plain characters or more is not shown.
pub proof fn law_line_with_a_long_word_is_not_shown(
    before: Seq<char>,
    word: Seq<char>,
    after: Seq<char>,
    token: Option<Seq<char>>,
)
    requires
        word.len() >= 32,
        forall|i: int| 0 <= i < word.len() ==> plain_char(#[trigger] word[i]),
        before.len() == 0 || is_white_space(before.last()),
        after.len() == 0 || is_white_space(after[0]),
    ensures
        sanitized(before + word + after, token) == "[engine] [redacted token line]"@,
{
    let line = before + word + after;
    let start = before.len() as int;
    let end = start + word.len();
    assert forall|i: int| start <= i < end implies !is_white_space(#[trigger] line[i])
        && credential_char(line[i]) by {
        assert(line[i] == word[i - start]);
        assert(plain_char(word[i - start]));
    }
    assert(credential_word(line, start, end));
}

/// An error that does not hold the device token is told as it is, and so is any
/// error where there is no token to keep.
pub proof fn law_other_errors_are_told_as_they_are(error: Seq<char>, token: Option<Seq<char>>)
    requires
        token matches Some(t) ==> t.len() == 0 || !has_text(error, t),
    ensures
        told(error, token) == error,
{
}

/// The tail loses no line but the oldest, and that only when there are fifty.
pub proof fn law_tail_loses_only_the_oldest<A>(lines: Seq<A>, line: A)
    requires
        lines.len() <= 50,
    ensures
        last_lines(lines.push(line)) == if lines.len() < 50 {
            lines.push(line)
        } else {
            lines.drop_first().push(line)
        },
{
    if lines.len() == 50 {
        assert(last_lines(lines.push(line)) =~= lines.drop_first().push(line));
    }
}

} // verus!
