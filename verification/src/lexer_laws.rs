//! What holds of every token stream.

use crate::lexer_scan::lemma_run_end_bounds;
use crate::lexer_spec::{
    bump_line, char_at, is_final, lex, lex_from, mode_rank, scan_from, scan_plain, scan_string,
    scan_token, CharClass, SkipMode, TokenView,
};
use vstd::prelude::*;

verus! {

/// The number of newlines in `text` from `from` up to `to`.
pub open spec fn count_newlines(text: Seq<char>, from: int, to: int) -> int
    decreases to - from,
{
    if from >= to {
        0
    } else if char_at(text, to - 1) == '\n' {
        count_newlines(text, from, to - 1) + 1
    } else {
        count_newlines(text, from, to - 1)
    }
}

/// The number of the last line of `text`, counted from 1.
pub open spec fn max_line(text: Seq<char>) -> int {
    1 + count_newlines(text, 0, text.len() as int)
}

/// Newlines are counted piece by piece.
pub proof fn lemma_count_newlines_split(text: Seq<char>, from: int, mid: int, to: int)
    requires
        from <= mid <= to,
    ensures
        count_newlines(text, from, to) == count_newlines(text, from, mid) + count_newlines(
            text,
            mid,
            to,
        ),
        count_newlines(text, from, mid) >= 0,
    decreases to - mid,
{
    if mid < to {
        lemma_count_newlines_split(text, from, mid, to - 1);
    } else {
        lemma_count_nonnegative(text, from, mid);
    }
}

pub proof fn lemma_count_nonnegative(text: Seq<char>, from: int, to: int)
    ensures
        count_newlines(text, from, to) >= 0,
    decreases to - from,
{
    if from < to {
        lemma_count_nonnegative(text, from, to - 1);
    }
}

/// A string literal ends behind where its scan started, inside the buffer.
pub proof fn lemma_scan_string_bounds(text: Seq<char>, pos: int, acc: Seq<char>)
    requires
        0 <= pos <= text.len(),
    ensures
        pos <= scan_string(text, pos, acc).next <= text.len(),
        !is_final(scan_string(text, pos, acc).kind) ==> pos < scan_string(text, pos, acc).next,
    decreases text.len() - pos,
{
    let c = char_at(text, pos);
    if c == '"' {
    } else if c == '\n' || c == '\0' {
    } else if c == '\\' {
        match crate::lexer_spec::escape_char(char_at(text, pos + 1)) {
            Some(e) => {
                lemma_scan_string_bounds(text, pos + 2, acc.push(e));
            },
            None => {},
        }
    } else {
        lemma_scan_string_bounds(text, pos + 1, acc.push(c));
    }
}

/// A token that starts inside the buffer ends inside it, and only `End` and
/// `Error` may leave the cursor where it was.
pub proof fn lemma_scan_plain_bounds(text: Seq<char>, pos: int)
    requires
        0 <= pos,
    ensures
        pos <= scan_plain(text, pos).next,
        pos <= text.len() ==> scan_plain(text, pos).next <= text.len(),
        !is_final(scan_plain(text, pos).kind) ==> pos < scan_plain(text, pos).next,
{
    let c = char_at(text, pos);
    if c != '\0' {
        assert(pos < text.len());
        lemma_run_end_bounds(text, pos + 1, CharClass::Ident);
        lemma_run_end_bounds(text, pos + 1, CharClass::Digit);
        lemma_run_end_bounds(text, pos + 2, CharClass::Hex);
        let end = crate::lexer_spec::run_end(text, pos + 1, CharClass::Digit);
        lemma_run_end_bounds(text, end + 1, CharClass::Digit);
        lemma_run_end_bounds(text, end + 2, CharClass::Digit);
        let frac = crate::lexer_spec::run_end(text, end + 1, CharClass::Digit);
        lemma_run_end_bounds(text, frac + 1, CharClass::Digit);
        lemma_run_end_bounds(text, frac + 2, CharClass::Digit);
        lemma_scan_string_bounds(text, pos + 1, Seq::empty());
    }
}

/// The next token lies at or behind the cursor, inside the buffer; its line
/// is the line counter plus at most the newlines passed over; and only
/// `End` and `Error` may leave the cursor where it was.
pub proof fn lemma_scan_progress(text: Seq<char>, pos: int, line: int, mode: SkipMode)
    requires
        0 <= pos,
    ensures
        pos <= scan_from(text, pos, line, mode).next,
        pos <= text.len() ==> scan_from(text, pos, line, mode).next <= text.len(),
        !is_final(scan_from(text, pos, line, mode).kind) ==> pos < scan_from(
            text,
            pos,
            line,
            mode,
        ).next,
        line <= scan_from(text, pos, line, mode).line <= line + count_newlines(
            text,
            pos,
            scan_from(text, pos, line, mode).next,
        ),
    decreases text.len() - pos, mode_rank(mode),
{
    let c = char_at(text, pos);
    let d = char_at(text, pos + 1);
    let s = scan_from(text, pos, line, mode);
    lemma_count_nonnegative(text, pos, s.next);
    match mode {
        SkipMode::LineComment => {
            if c == '\n' || c == '\r' || c == '\0' {
                lemma_scan_progress(text, pos, line, SkipMode::Code);
            } else {
                lemma_scan_progress(text, pos + 1, line, SkipMode::LineComment);
                lemma_count_newlines_split(text, pos, pos + 1, s.next);
            }
        },
        SkipMode::BlockComment => {
            if c == '\0' {
            } else if c == '*' && d == '/' {
                lemma_scan_progress(text, pos + 2, line, SkipMode::Code);
                lemma_count_newlines_split(text, pos, pos + 2, s.next);
            } else if c == '\n' {
                lemma_scan_progress(text, pos + 1, bump_line(line), SkipMode::BlockComment);
                lemma_count_newlines_split(text, pos, pos + 1, s.next);
                assert(count_newlines(text, pos, pos + 1) == 1) by {
                    assert(count_newlines(text, pos, pos) == 0);
                }
            } else {
                lemma_scan_progress(text, pos + 1, line, SkipMode::BlockComment);
                lemma_count_newlines_split(text, pos, pos + 1, s.next);
            }
        },
        SkipMode::Code => {
            if c == '\n' {
                lemma_scan_progress(text, pos + 1, bump_line(line), SkipMode::Code);
                lemma_count_newlines_split(text, pos, pos + 1, s.next);
                assert(count_newlines(text, pos, pos + 1) == 1) by {
                    assert(count_newlines(text, pos, pos) == 0);
                }
            } else if crate::lexer_spec::is_space(c) {
                lemma_scan_progress(text, pos + 1, line, SkipMode::Code);
                lemma_count_newlines_split(text, pos, pos + 1, s.next);
            } else if c == '/' && d == '/' {
                lemma_scan_progress(text, pos + 2, line, SkipMode::LineComment);
                lemma_count_newlines_split(text, pos, pos + 2, s.next);
            } else if c == '/' && d == '*' {
                lemma_scan_progress(text, pos + 2, line, SkipMode::BlockComment);
                lemma_count_newlines_split(text, pos, pos + 2, s.next);
            } else {
                lemma_scan_plain_bounds(text, pos);
            }
        },
    }
}

/// Whether a token stream is closed: it is not empty, its last token is an
/// `End` or an `Error`, and no token before the last is either.
pub open spec fn closed_stream(tokens: Seq<TokenView>) -> bool {
    &&& tokens.len() > 0
    &&& is_final(tokens.last().kind)
    &&& forall|i: int| 0 <= i < tokens.len() - 1 ==> !is_final(#[trigger] tokens[i].kind)
}

/// Whether a source is legal for the lexer: its token stream holds no `Error`.
pub open spec fn legal_source(text: Seq<char>) -> bool {
    forall|i: int| 0 <= i < lex(text).len() ==> !(#[trigger] lex(text)[i].kind is Error)
}

/// Every token stream is closed.
pub proof fn lemma_lex_from_closed(text: Seq<char>, pos: int, line: int)
    requires
        0 <= pos,
    ensures
        closed_stream(lex_from(text, pos, line)),
    decreases text.len() - pos,
{
    let s = scan_token(text, pos, line);
    lemma_scan_progress(text, pos, line, SkipMode::Code);
    if is_final(s.kind) || s.next <= pos || s.next > text.len() {
        if !is_final(s.kind) {
            assert(pos > text.len());
            assert(char_at(text, pos) == '\0');
        }
    } else {
        lemma_lex_from_closed(text, s.next, s.line);
        let rest = lex_from(text, s.next, s.line);
        let all = lex_from(text, pos, line);
        assert(all =~= seq![TokenView { kind: s.kind, line: s.line }] + rest);
        assert(all.last() == rest.last());
        assert forall|i: int| 0 <= i < all.len() - 1 implies !is_final(#[trigger] all[i].kind) by {
            if i > 0 {
                assert(all[i] == rest[i - 1]);
            }
        }
    }
}

/// The token stream of a legal source ends with exactly one `End` token and
/// holds no `Error` token.
pub proof fn law_legal_source_ends_with_one_end(text: Seq<char>)
    requires
        legal_source(text),
    ensures
        lex(text).len() > 0,
        lex(text).last().kind is End,
        forall|i: int| 0 <= i < lex(text).len() - 1 ==> !(#[trigger] lex(text)[i].kind is End),
        forall|i: int| 0 <= i < lex(text).len() ==> !(#[trigger] lex(text)[i].kind is Error),
{
    lemma_lex_from_closed(text, 0, 1);
    let tokens = lex(text);
    assert(!(tokens[tokens.len() - 1].kind is Error));
    assert forall|i: int| 0 <= i < tokens.len() - 1 implies !(#[trigger] tokens[i].kind is End) by {
        assert(!is_final(tokens[i].kind));
    }
}

/// The lines of a token stream lie between the line counter at its start and
/// that line plus the newlines of the rest of the buffer, and never decrease.
pub proof fn lemma_lex_from_lines(text: Seq<char>, pos: int, line: int)
    requires
        0 <= pos,
    ensures
        forall|i: int|
            0 <= i < lex_from(text, pos, line).len() ==> line <= (#[trigger] lex_from(
                text,
                pos,
                line,
            )[i]).line <= line + count_newlines(text, pos, text.len() as int),
        forall|i: int, j: int|
            0 <= i <= j < lex_from(text, pos, line).len() ==> (#[trigger] lex_from(
                text,
                pos,
                line,
            )[i]).line <= (#[trigger] lex_from(text, pos, line)[j]).line,
    decreases text.len() - pos,
{
    let s = scan_token(text, pos, line);
    let all = lex_from(text, pos, line);
    let len = text.len() as int;
    lemma_scan_progress(text, pos, line, SkipMode::Code);
    lemma_count_nonnegative(text, pos, len);
    if pos > len {
        assert(char_at(text, pos) == '\0');
        assert(count_newlines(text, pos, s.next) == 0);
    } else {
        lemma_count_newlines_split(text, pos, s.next, len);
        lemma_count_nonnegative(text, s.next, len);
    }
    if is_final(s.kind) || s.next <= pos || s.next > text.len() {
    } else {
        lemma_lex_from_lines(text, s.next, s.line);
        let rest = lex_from(text, s.next, s.line);
        assert(all =~= seq![TokenView { kind: s.kind, line: s.line }] + rest);
        assert forall|i: int| 0 <= i < all.len() implies line <= (#[trigger] all[i]).line <= line
            + count_newlines(text, pos, len) by {
            if i > 0 {
                assert(all[i] == rest[i - 1]);
            }
        }
        assert forall|i: int, j: int| 0 <= i <= j < all.len() implies (#[trigger] all[i]).line <= (
        #[trigger] all[j]).line by {
            if i > 0 {
                assert(all[i] == rest[i - 1]);
                assert(all[j] == rest[j - 1]);
            } else if j > 0 {
                assert(all[j] == rest[j - 1]);
            }
        }
    }
}

/// The line of every token of a source lies between 1 and the number of the
/// source's last line, and the lines never decrease through the stream.
pub proof fn law_token_lines(text: Seq<char>)
    ensures
        forall|i: int| 0 <= i < lex(text).len() ==> 1 <= (#[trigger] lex(text)[i]).line <= max_line(text),
        forall|i: int, j: int|
            0 <= i <= j < lex(text).len() ==> (#[trigger] lex(text)[i]).line <= (#[trigger] lex(
                text,
            )[j]).line,
{
    lemma_lex_from_lines(text, 0, 1);
}

} // verus!
