//! The operator's line input: reading a command line and recognising the
//! single quit command.

use vstd::prelude::*;
use vstd::string::StrSliceExecFns;

verus! {

/// Whitespace that ends a typed line: the characters of the Unicode
/// `White_Space` property (the set `char::is_whitespace` accepts).
pub open spec fn is_trailing_space(c: char) -> bool {
    ||| c == '\u{0009}'
    ||| c == '\u{000A}'
    ||| c == '\u{000B}'
    ||| c == '\u{000C}'
    ||| c == '\u{000D}'
    ||| c == '\u{0020}'
    ||| c == '\u{0085}'
    ||| c == '\u{00A0}'
    ||| c == '\u{1680}'
    ||| ('\u{2000}' <= c && c <= '\u{200A}')
    ||| c == '\u{2028}'
    ||| c == '\u{2029}'
    ||| c == '\u{202F}'
    ||| c == '\u{205F}'
    ||| c == '\u{3000}'
}

/// `s` with every trailing whitespace character removed.
pub open spec fn trimmed_end(s: Seq<char>) -> Seq<char>
    decreases s.len(),
{
    if s.len() == 0 {
        s
    } else if is_trailing_space(s.last()) {
        trimmed_end(s.drop_last())
    } else {
        s
    }
}

/// The trimmed line never ends in trailing whitespace.
pub proof fn lemma_trimmed_end_clean(s: Seq<char>)
    ensures
        trimmed_end(s).len() == 0 || !is_trailing_space(trimmed_end(s).last()),
    decreases s.len(),
{
    if s.len() == 0 {
    } else if is_trailing_space(s.last()) {
        lemma_trimmed_end_clean(s.drop_last());
    }
}

fn is_trailing_space_exec(c: char) -> (r: bool)
    ensures
        r == is_trailing_space(c),
{
    c == '\u{0009}' || c == '\u{000A}' || c == '\u{000B}' || c == '\u{000C}' || c == '\u{000D}'
        || c == '\u{0020}' || c == '\u{0085}' || c == '\u{00A0}' || c == '\u{1680}' || ('\u{2000}'
        <= c && c <= '\u{200A}') || c == '\u{2028}' || c == '\u{2029}' || c == '\u{202F}' || c
        == '\u{205F}' || c == '\u{3000}'
}

/// Returns `s` with trailing whitespace removed.
pub fn trim_line_end(s: &str) -> (r: String)
    ensures
        r@ == trimmed_end(s@),
{
    let mut end: usize = s.unicode_len();
    proof {
        assert(s@.subrange(0, end as int) =~= s@);
    }
    while end > 0 && is_trailing_space_exec(s.get_char(end - 1))
        invariant
            end <= s@.len(),
            trimmed_end(s@) == trimmed_end(s@.subrange(0, end as int)),
        decreases end,
    {
        proof {
            let sub = s@.subrange(0, end as int);
            assert(sub.last() == s@[end - 1]);
            assert(sub.drop_last() =~= s@.subrange(0, end - 1));
        }
        end = end - 1;
    }
    proof {
        let sub = s@.subrange(0, end as int);
        if end > 0 {
            assert(sub.last() == s@[end - 1]);
        }
    }
    s.substring_char(0, end).to_owned()
}

/// Reads one line from standard input and strips trailing whitespace,
/// the line break included. Returns `None` when the read itself fails
/// (an input error, or bytes that are not text); otherwise the returned
/// line never ends in a whitespace character.
pub fn read_line() -> (r: Option<String>)
    ensures
        match r {
            Some(line) => line@.len() == 0 || !is_trailing_space(line@.last()),
            None => true,
        },
{
    match stdin_line() {
        Some(line) => {
            proof {
                lemma_trimmed_end_clean(line@);
            }
            Some(trim_line_end(line.as_str()))
        },
        None => None,
    }
}

/// True exactly when `line` is the quit command: the single letter `q`.
pub fn is_quit_command(line: &str) -> (r: bool)
    ensures
        r == (line@ == seq!['q']),
{
    if line.unicode_len() == 1 {
        let c: char = line.get_char(0);
        proof {
            if c == 'q' {
                assert(line@ =~= seq!['q']);
            } else {
                if line@ == seq!['q'] {
                    assert(line@[0] == 'q');
                }
            }
        }
        c == 'q'
    } else {
        proof {
            if line@ == seq!['q'] {
                assert(line@.len() == 1);
            }
        }
        false
    }
}

/// Relies on `std::io::Stdin::read_line` to take one line, line break
/// included, from standard input. Returns `None` when the read fails (an
/// I/O error, or input that is not valid text); nothing is assumed about
/// the content of a line that arrives.
#[verifier::external_body]
fn stdin_line() -> (r: Option<String>) {
    let mut line = String::new();
    match std::io::stdin().read_line(&mut line) {
        Ok(_) => Some(line),
        Err(_) => None,
    }
}

} // verus!
