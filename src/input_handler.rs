//! Turning one line of input into whitespace-separated tokens, and deciding
//! whether the line is a command, blank, or the end of the input.
use vstd::prelude::*;

verus! {

/// A whitespace character in the sense of Unicode's `White_Space` property,
/// which is what `char::is_whitespace` tests.
pub open spec fn is_space(c: char) -> bool {
    ||| '\u{9}' <= c <= '\u{d}'
    ||| c == ' '
    ||| c == '\u{85}'
    ||| c == '\u{a0}'
    ||| c == '\u{1680}'
    ||| '\u{2000}' <= c <= '\u{200a}'
    ||| c == '\u{2028}'
    ||| c == '\u{2029}'
    ||| c == '\u{202f}'
    ||| c == '\u{205f}'
    ||| c == '\u{3000}'
}

/// Tells whether `c` is whitespace.
pub fn is_space_char(c: char) -> (r: bool)
    ensures
        r == is_space(c),
{
    ('\u{9}' <= c && c <= '\u{d}') || c == ' ' || c == '\u{85}' || c == '\u{a0}'
        || c == '\u{1680}' || ('\u{2000}' <= c && c <= '\u{200a}') || c == '\u{2028}'
        || c == '\u{2029}' || c == '\u{202f}' || c == '\u{205f}' || c == '\u{3000}'
}

/// The tokens of `s`: its maximal runs of non-whitespace characters, in order.
pub open spec fn tokens_of(s: Seq<char>) -> Seq<Seq<char>>
    decreases s.len(),
{
    if s.len() == 0 {
        Seq::empty()
    } else {
        let init = s.drop_last();
        let c = s.last();
        let before = tokens_of(init);
        if is_space(c) {
            before
        } else if init.len() > 0 && !is_space(init.last()) {
            before.drop_last().push(before.last().push(c))
        } else {
            before.push(seq![c])
        }
    }
}

/// The views of a list of strings.
pub open spec fn views_of(v: Seq<String>) -> Seq<Seq<char>> {
    v.map_values(|t: String| t@)
}

/// Splits `line` into its tokens, dropping all whitespace.
pub fn split_tokens(line: &str) -> (r: Vec<String>)
    ensures
        views_of(r@) == tokens_of(line@),
{
    let len = line.unicode_len();
    let mut out: Vec<String> = Vec::new();
    let mut in_token = false;
    let mut start: usize = 0;
    let mut i: usize = 0;
    for c in it: line.chars()
        invariant
            it.seq() == line@,
            i == it.index(),
            len == line@.len(),
            start <= it.index(),
            in_token ==> start < it.index() && !is_space(line@[it.index() - 1]),
            !in_token ==> it.index() == 0 || is_space(line@[it.index() - 1]),
            in_token ==> tokens_of(line@.take(it.index() as int)) == views_of(out@).push(
                line@.subrange(start as int, it.index() as int),
            ),
            !in_token ==> tokens_of(line@.take(it.index() as int)) == views_of(out@),
    {
        assert(i < len);
        assert(line@.take(i + 1).drop_last() == line@.take(i as int));
        if is_space_char(c) {
            if in_token {
                let token = line.substring_char(start, i).to_owned();
                let ghost before = out@;
                out.push(token);
                assert(views_of(out@) =~= views_of(before).push(token@));
            }
            in_token = false;
        } else {
            if !in_token {
                start = i;
                assert(line@.subrange(start as int, i + 1) =~= seq![c]);
            } else {
                let ghost done = views_of(out@);
                assert(line@.subrange(start as int, i as int).push(c) =~= line@.subrange(
                    start as int,
                    i + 1,
                ));
                assert(done.push(line@.subrange(start as int, i as int)).drop_last() =~= done);
            }
            in_token = true;
        }
        i = i + 1;
    }
    if in_token {
        let token = line.substring_char(start, len).to_owned();
        let ghost before = out@;
        out.push(token);
        assert(views_of(out@) =~= views_of(before).push(token@));
    }
    assert(line@.take(len as int) == line@);
    out
}

/// What one attempt to read a line tells the shell.
#[derive(PartialEq, Eq, Structural, Clone, Copy, Debug)]
pub enum InputState {
    /// The line holds at least one token.
    Valid,
    /// The line is blank: nothing to run, prompt again.
    Empty,
    /// The input has ended, or could not be read: the shell leaves.
    Exiting,
}

/// The state of a line that was read in full: blank or not.
pub open spec fn line_state(line: Seq<char>) -> InputState {
    if tokens_of(line).len() == 0 {
        InputState::Empty
    } else {
        InputState::Valid
    }
}

/// The state for a read attempt: `None` stands for a read failure, and an
/// empty text for a read that found the end of the input (no bytes at all;
/// even a blank line still holds its newline).
pub open spec fn input_state_of(read: Option<Seq<char>>) -> InputState {
    match read {
        Some(line) => if line.len() == 0 {
            InputState::Exiting
        } else {
            line_state(line)
        },
        None => InputState::Exiting,
    }
}

/// The view of a read attempt.
pub open spec fn read_view(read: Option<String>) -> Option<Seq<char>> {
    match read {
        Some(line) => Some(line@),
        None => None,
    }
}

/// The buffer that holds the last line read.
pub struct UserInput {
    buffer: String,
}

impl View for UserInput {
    type V = Seq<char>;

    closed spec fn view(&self) -> Seq<char> {
        self.buffer@
    }
}

impl UserInput {
    /// A reader whose buffer is empty.
    pub fn new() -> (r: Self)
        ensures
            r@ == Seq::<char>::empty(),
    {
        UserInput { buffer: String::new() }
    }

    /// Takes in the outcome of reading one line (`None` when the read
    /// failed) and says what it holds: the tokens of the line, when there is
    /// a line, and its state.
    pub fn process_input(&mut self, read: Option<String>) -> (r: (Option<Vec<String>>, InputState))
        ensures
            final(self)@ == (match read {
                Some(line) => line@,
                None => Seq::<char>::empty(),
            }),
            r.1 == input_state_of(read_view(read)),
            r.0 is None <==> r.1 == InputState::Exiting,
            r.0 is Some ==> views_of(r.0->0@) == tokens_of(final(self)@),
    {
        self.buffer = match read {
            Some(line) => line,
            None => String::new(),
        };
        if self.buffer.unicode_len() == 0 {
            return (None, InputState::Exiting);
        }
        let parsed = split_tokens(self.buffer.as_str());
        let state = if parsed.len() == 0 {
            InputState::Empty
        } else {
            InputState::Valid
        };
        (Some(parsed), state)
    }
}

} // verus!
