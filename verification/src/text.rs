//! Command-line text handling: tokenizing a raw operator line into an
//! argument vector, and trimming surrounding whitespace.
//!
//! Tokenizing honours double-quote grouping: a quote character toggles an
//! "inside quotes" flag and is never copied into a token; a space outside
//! quotes separates tokens (runs of spaces yield no empty tokens); every
//! other character is appended to the pending token.  An unterminated quote
//! is not an error — the trailing content becomes part of the final token.

use vstd::prelude::*;

verus! {

/// The tokens of `s` when the scan starts with quote flag `in_quotes`,
/// pending token `cur`, and already-emitted tokens `acc`.
pub open spec fn tokens_from(
    s: Seq<char>,
    in_quotes: bool,
    cur: Seq<char>,
    acc: Seq<Seq<char>>,
) -> Seq<Seq<char>>
    decreases s.len(),
{
    if s.len() == 0 {
        if cur.len() == 0 {
            acc
        } else {
            acc.push(cur)
        }
    } else {
        let c = s[0];
        let rest = s.subrange(1, s.len() as int);
        if c == '"' {
            tokens_from(rest, !in_quotes, cur, acc)
        } else if c == ' ' && !in_quotes {
            if cur.len() == 0 {
                tokens_from(rest, in_quotes, cur, acc)
            } else {
                tokens_from(rest, in_quotes, Seq::empty(), acc.push(cur))
            }
        } else {
            tokens_from(rest, in_quotes, cur.push(c), acc)
        }
    }
}

/// The argument vector that tokenizing the line `s` produces.
pub open spec fn tokens_of(s: Seq<char>) -> Seq<Seq<char>> {
    tokens_from(s, false, Seq::empty(), Seq::empty())
}

/// Every token in `ts` is non-empty and free of quote characters.
pub open spec fn all_tokens_clean(ts: Seq<Seq<char>>) -> bool {
    forall|i: int| 0 <= i < ts.len() ==> (#[trigger] ts[i]).len() > 0 && !ts[i].contains('"')
}

proof fn lemma_push_keeps_quote_free(cur: Seq<char>, c: char)
    requires
        !cur.contains('"'),
        c != '"',
    ensures
        !cur.push(c).contains('"'),
{
    if cur.push(c).contains('"') {
        let i = choose|i: int| 0 <= i < cur.push(c).len() && cur.push(c)[i] == '"';
        if i < cur.len() {
            assert(cur[i] == '"');
        }
    }
}

/// Every token the scan emits is non-empty and free of quote characters,
/// provided the pending token is quote-free and the tokens already emitted
/// are clean.
proof fn lemma_tokens_from_clean(s: Seq<char>, in_quotes: bool, cur: Seq<char>, acc: Seq<Seq<char>>)
    requires
        !cur.contains('"'),
        all_tokens_clean(acc),
    ensures
        all_tokens_clean(tokens_from(s, in_quotes, cur, acc)),
    decreases s.len(),
{
    if s.len() == 0 {
        if cur.len() != 0 {
            assert forall|i: int| 0 <= i < acc.push(cur).len() implies (#[trigger] acc.push(
                cur,
            )[i]).len() > 0 && !acc.push(cur)[i].contains('"') by {
                if i < acc.len() {
                    assert(acc.push(cur)[i] == acc[i]);
                } else {
                    assert(acc.push(cur)[i] == cur);
                }
            }
        }
    } else {
        let c = s[0];
        let rest = s.subrange(1, s.len() as int);
        if c == '"' {
            lemma_tokens_from_clean(rest, !in_quotes, cur, acc);
        } else if c == ' ' && !in_quotes {
            if cur.len() == 0 {
                lemma_tokens_from_clean(rest, in_quotes, cur, acc);
            } else {
                assert forall|i: int| 0 <= i < acc.push(cur).len() implies (#[trigger] acc.push(
                    cur,
                )[i]).len() > 0 && !acc.push(cur)[i].contains('"') by {
                    if i < acc.len() {
                        assert(acc.push(cur)[i] == acc[i]);
                    } else {
                        assert(acc.push(cur)[i] == cur);
                    }
                }
                lemma_tokens_from_clean(rest, in_quotes, Seq::empty(), acc.push(cur));
            }
        } else {
            lemma_push_keeps_quote_free(cur, c);
            lemma_tokens_from_clean(rest, in_quotes, cur.push(c), acc);
        }
    }
}

/// Law: tokenizing never emits an empty token, and a quote character never
/// appears inside a token, whatever the input line.
pub proof fn lemma_tokens_clean(s: Seq<char>)
    ensures
        all_tokens_clean(tokens_of(s)),
{
    lemma_tokens_from_clean(s, false, Seq::empty(), Seq::empty());
}

/// Appends one character to a string.
///
/// Relies on `String::push`: it appends the given character to the end of
/// the string.
#[verifier::external_body]
fn push_char(s: &mut String, c: char)
    ensures
        final(s)@ == old(s)@.push(c),
{
    s.push(c);
}

/// Splits a raw command line into its argument tokens, honouring
/// double-quote grouping.
pub fn parse_shell_command(command: &str) -> (arguments: Vec<String>)
    ensures
        arguments.deep_view() == tokens_of(command@),
        all_tokens_clean(arguments.deep_view()),
{
    let length = command.unicode_len();
    let mut arguments: Vec<String> = Vec::new();
    let mut current_argument = String::new();
    let mut inside_quotes = false;
    let mut position: usize = 0;

    proof {
        assert(command@.subrange(0, length as int) =~= command@);
        assert(arguments.deep_view() =~= Seq::<Seq<char>>::empty());
    }
    while position < length
        invariant
            position <= length,
            length == command@.len(),
            tokens_of(command@) == tokens_from(
                command@.subrange(position as int, length as int),
                inside_quotes,
                current_argument@,
                arguments.deep_view(),
            ),
        decreases length - position,
    {
        let character = command.get_char(position);
        let ghost prev_rest = command@.subrange(position as int, length as int);
        let ghost next_rest = command@.subrange(position as int + 1, length as int);
        proof {
            assert(prev_rest[0] == character);
            assert(prev_rest.subrange(1, prev_rest.len() as int) =~= next_rest);
        }
        if character == '"' {
            inside_quotes = !inside_quotes;
        } else if character == ' ' && !inside_quotes {
            if current_argument.unicode_len() > 0 {
                let ghost old_args = arguments.deep_view();
                let ghost cur_view = current_argument@;
                arguments.push(current_argument);
                current_argument = String::new();
                proof {
                    assert(arguments.deep_view() =~= old_args.push(cur_view));
                }
            }
        } else {
            push_char(&mut current_argument, character);
        }
        position = position + 1;
    }

    proof {
        assert(command@.subrange(length as int, length as int) =~= Seq::<char>::empty());
    }
    if current_argument.unicode_len() > 0 {
        let ghost old_args = arguments.deep_view();
        let ghost cur_view = current_argument@;
        arguments.push(current_argument);
        proof {
            assert(arguments.deep_view() =~= old_args.push(cur_view));
        }
    }
    proof {
        lemma_tokens_clean(command@);
    }
    arguments
}

/// An ASCII whitespace character, as trimmed from the ends of an operator
/// line read from the console.
pub open spec fn is_blank(c: char) -> bool {
    c == ' ' || c == '\t' || c == '\n' || c == '\r' || c == '\x0b' || c == '\x0c'
}

/// `s` with its leading blank characters removed.
pub open spec fn trim_front(s: Seq<char>) -> Seq<char>
    decreases s.len(),
{
    if s.len() > 0 && is_blank(s[0]) {
        trim_front(s.subrange(1, s.len() as int))
    } else {
        s
    }
}

/// `s` with its trailing blank characters removed.
pub open spec fn trim_back(s: Seq<char>) -> Seq<char>
    decreases s.len(),
{
    if s.len() > 0 && is_blank(s[s.len() - 1]) {
        trim_back(s.subrange(0, s.len() - 1))
    } else {
        s
    }
}

/// `s` with blank characters removed from both ends.
pub open spec fn trimmed(s: Seq<char>) -> Seq<char> {
    trim_back(trim_front(s))
}

fn is_blank_char(c: char) -> (r: bool)
    ensures
        r == is_blank(c),
{
    c == ' ' || c == '\t' || c == '\n' || c == '\r' || c == '\x0b' || c == '\x0c'
}

/// Removes blank characters from both ends of a line.
pub fn trim_line(line: &str) -> (r: String)
    ensures
        r@ == trimmed(line@),
{
    let length = line.unicode_len();
    let mut start: usize = 0;
    proof {
        assert(line@.subrange(0, length as int) =~= line@);
    }
    while start < length && is_blank_char(line.get_char(start))
        invariant
            start <= length,
            length == line@.len(),
            trim_front(line@) == trim_front(line@.subrange(start as int, length as int)),
        decreases length - start,
    {
        proof {
            let sub = line@.subrange(start as int, length as int);
            assert(sub[0] == line@[start as int]);
            assert(sub.subrange(1, sub.len() as int) =~= line@.subrange(
                start as int + 1,
                length as int,
            ));
        }
        start = start + 1;
    }
    proof {
        let sub = line@.subrange(start as int, length as int);
        if start < length {
            assert(!is_blank(sub[0]));
        }
        assert(trim_front(line@) == sub);
    }
    let mut end: usize = length;
    while end > start && is_blank_char(line.get_char(end - 1))
        invariant
            start <= end <= length,
            length == line@.len(),
            trim_front(line@) == line@.subrange(start as int, length as int),
            trim_back(line@.subrange(start as int, length as int)) == trim_back(
                line@.subrange(start as int, end as int),
            ),
        decreases end,
    {
        proof {
            let sub = line@.subrange(start as int, end as int);
            assert(sub[sub.len() - 1] == line@[end - 1]);
            assert(sub.subrange(0, sub.len() - 1) =~= line@.subrange(start as int, end as int - 1));
        }
        end = end - 1;
    }
    proof {
        let sub = line@.subrange(start as int, end as int);
        if end > start {
            assert(!is_blank(sub[sub.len() - 1]));
        }
        assert(trim_back(line@.subrange(start as int, length as int)) == sub);
    }
    let piece = line.substring_char(start, end);
    String::from_str(piece)
}

} // verus!
