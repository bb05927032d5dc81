//! The in-game console: a line editor fed one character at a time, and a
//! command parser that runs a small state machine over the buffered input,
//! emits one command per completed line, and moves the consumed prefix to
//! the output history.

use vstd::prelude::*;

verus! {

/// A parsed console command.
pub enum Command {
    /// A completed line that is not a known command, as typed.
    Invalid(String),
    /// The quit command.
    Quit,
}

/// A command at the specification level, its text as a sequence.
pub enum CommandModel {
    Invalid(Seq<char>),
    Quit,
}

impl View for Command {
    type V = CommandModel;

    open spec fn view(&self) -> CommandModel {
        match self {
            Command::Invalid(s) => CommandModel::Invalid(s@),
            Command::Quit => CommandModel::Quit,
        }
    }
}

/// The views of a sequence of commands.
pub open spec fn command_views(s: Seq<Command>) -> Seq<CommandModel> {
    s.map_values(|c: Command| c@)
}

/// The parser's states: reading blanks before a command, inside a line
/// already known to be invalid, or behind a recognised prefix of "/quit".
pub enum Parser {
    Start,
    Error,
    S,
    SQ,
    SQU,
    SQUI,
    SQUIT,
}

/// Whether `c` ends a line.
pub open spec fn is_newline(c: char) -> bool {
    c == '\r' || c == '\n'
}

/// One parser step on a character that does not end a line (and on any
/// character in `Start`, where line ends just keep waiting).
pub open spec fn spec_step(state: Parser, c: char) -> Parser {
    match state {
        Parser::Start => if c == ' ' || is_newline(c) {
            Parser::Start
        } else if c == '/' {
            Parser::S
        } else {
            Parser::Error
        },
        Parser::Error => Parser::Error,
        Parser::S => if c == 'q' {
            Parser::SQ
        } else {
            Parser::Error
        },
        Parser::SQ => if c == 'u' {
            Parser::SQU
        } else {
            Parser::Error
        },
        Parser::SQU => if c == 'i' {
            Parser::SQUI
        } else {
            Parser::Error
        },
        Parser::SQUI => if c == 't' {
            Parser::SQUIT
        } else {
            Parser::Error
        },
        Parser::SQUIT => if c == ' ' {
            Parser::SQUIT
        } else {
            Parser::Error
        },
    }
}

/// The commands emitted from position `i` on, in state `state` with the
/// current line starting at `trim`, paired with the final start-of-line
/// position: what the input past that position has consumed.
///
/// A line end outside `Start` emits one command — `Quit` behind a full
/// "/quit", else the line as typed — and advances the line start; any
/// other character steps the state machine.
pub open spec fn spec_parse(s: Seq<char>, i: int, state: Parser, trim: int) -> (
    Seq<CommandModel>,
    int,
)
    decreases s.len() - i,
{
    if i < 0 || i >= s.len() {
        (Seq::empty(), trim)
    } else {
        let c = s[i];
        if is_newline(c) && !(state is Start) {
            let emitted = if state is SQUIT {
                CommandModel::Quit
            } else {
                CommandModel::Invalid(s.subrange(trim, i))
            };
            let rest = spec_parse(s, i + 1, state, i + 1);
            (seq![emitted] + rest.0, rest.1)
        } else {
            spec_parse(s, i + 1, spec_step(state, c), trim)
        }
    }
}

/// The console: buffered input being typed, and the history of consumed
/// lines.
pub struct Console {
    input: Vec<char>,
    output: Vec<char>,
}

/// Relies on `String::push`: appends the given character to the end of
/// the string.
#[verifier::external_body]
fn push_char(s: &mut String, c: char)
    ensures
        final(s)@ == old(s)@.push(c),
{
    s.push(c);
}

/// Builds the string of `v`'s characters from `from` up to `to`.
fn chars_to_string(v: &Vec<char>, from: usize, to: usize) -> (s: String)
    requires
        from <= to <= v@.len(),
    ensures
        s@ == v@.subrange(from as int, to as int),
{
    let mut s = String::new();
    let mut k = from;
    while k < to
        invariant
            from <= k <= to <= v@.len(),
            s@ == v@.subrange(from as int, k as int),
        decreases to - k,
    {
        push_char(&mut s, v[k]);
        proof {
            assert(v@.subrange(from as int, k as int).push(v@[k as int]) =~= v@.subrange(
                from as int,
                k as int + 1,
            ));
        }
        k = k + 1;
    }
    s
}

impl Console {
    /// The input buffer's characters.
    pub closed spec fn spec_input(&self) -> Seq<char> {
        self.input@
    }

    /// The output history's characters.
    pub closed spec fn spec_output(&self) -> Seq<char> {
        self.output@
    }

    /// An empty console.
    pub fn new() -> (r: Console)
        ensures
            r.spec_input() == Seq::<char>::empty(),
            r.spec_output() == Seq::<char>::empty(),
    {
        Console { input: Vec::new(), output: Vec::new() }
    }

    /// Types one character: backspace deletes the last buffered character
    /// (if any); everything else is appended.
    pub fn write(&mut self, c: char)
        ensures
            final(self).spec_output() == old(self).spec_output(),
            c == '\u{8}' && old(self).spec_input().len() > 0 ==> final(self).spec_input() == old(
                self,
            ).spec_input().drop_last(),
            c == '\u{8}' && old(self).spec_input().len() == 0 ==> final(self).spec_input() == old(
                self,
            ).spec_input(),
            c != '\u{8}' ==> final(self).spec_input() == old(self).spec_input().push(c),
    {
        if c == '\u{8}' {
            let _popped = self.input.pop();
        } else {
            self.input.push(c);
        }
    }

    /// The input buffer, as typed so far.
    pub fn input(&self) -> (r: String)
        ensures
            r@ == self.spec_input(),
    {
        let r = chars_to_string(&self.input, 0, self.input.len());
        proof {
            assert(self.spec_input().subrange(0, self.spec_input().len() as int) =~= self
                .spec_input());
        }
        r
    }

    /// The output history: every line the parser has consumed.
    pub fn output(&self) -> (r: String)
        ensures
            r@ == self.spec_output(),
    {
        let r = chars_to_string(&self.output, 0, self.output.len());
        proof {
            assert(self.spec_output().subrange(0, self.spec_output().len() as int) =~= self
                .spec_output());
        }
        r
    }

    /// Parses every completed line out of the input buffer, in order. The
    /// consumed prefix moves to the output history; what remains buffered
    /// is the unfinished tail.
    pub fn parse_commands(&mut self) -> (cmds: Vec<Command>)
        ensures
            ({
                let parsed = spec_parse(old(self).spec_input(), 0, Parser::Start, 0);
                &&& command_views(cmds@) == parsed.0
                &&& final(self).spec_input() == old(self).spec_input().skip(parsed.1)
                &&& final(self).spec_output() == old(self).spec_output() + old(
                    self,
                ).spec_input().take(parsed.1)
            }),
    {
        let ghost s = self.input@;
        let ghost total = spec_parse(s, 0, Parser::Start, 0);
        let mut cmds: Vec<Command> = Vec::new();
        let mut state = Parser::Start;
        let mut trim: usize = 0;
        let mut i: usize = 0;
        let n = self.input.len();
        proof {
            assert(command_views(cmds@) =~= Seq::<CommandModel>::empty());
            assert(total.0 =~= command_views(cmds@) + spec_parse(s, 0, Parser::Start, 0).0);
        }
        while i < n
            invariant
                self.input@ == s,
                self.output@ == old(self).spec_output(),
                n == s.len(),
                trim <= i <= n,
                total == spec_parse(s, 0, Parser::Start, 0),
                total.0 == command_views(cmds@) + spec_parse(s, i as int, state, trim as int).0,
                total.1 == spec_parse(s, i as int, state, trim as int).1,
            decreases n - i,
        {
            let c = self.input[i];
            let ghost pre_state = state;
            let ghost pre_trim = trim;
            let emit: bool = (c == '\r' || c == '\n') && !(matches!(state, Parser::Start));
            if emit {
                let cmd = if matches!(state, Parser::SQUIT) {
                    Command::Quit
                } else {
                    Command::Invalid(chars_to_string(&self.input, trim, i))
                };
                proof {
                    let rest = spec_parse(s, i + 1, pre_state, i + 1);
                    assert(spec_parse(s, i as int, pre_state, pre_trim as int).0 == seq![cmd@]
                        + rest.0);
                    assert(command_views(cmds@.push(cmd)) =~= command_views(cmds@) + seq![cmd@]);
                    assert(command_views(cmds@) + (seq![cmd@] + rest.0) =~= (command_views(cmds@)
                        + seq![cmd@]) + rest.0);
                }
                cmds.push(cmd);
                trim = i + 1;
            } else {
                proof {
                    assert(spec_parse(s, i as int, pre_state, pre_trim as int) == spec_parse(
                        s,
                        i + 1,
                        spec_step(pre_state, c),
                        pre_trim as int,
                    ));
                }
                state =
                match state {
                    Parser::Start => {
                        if c == ' ' || c == '\r' || c == '\n' {
                            Parser::Start
                        } else if c == '/' {
                            Parser::S
                        } else {
                            Parser::Error
                        }
                    },
                    Parser::Error => Parser::Error,
                    Parser::S => {
                        if c == 'q' {
                            Parser::SQ
                        } else {
                            Parser::Error
                        }
                    },
                    Parser::SQ => {
                        if c == 'u' {
                            Parser::SQU
                        } else {
                            Parser::Error
                        }
                    },
                    Parser::SQU => {
                        if c == 'i' {
                            Parser::SQUI
                        } else {
                            Parser::Error
                        }
                    },
                    Parser::SQUI => {
                        if c == 't' {
                            Parser::SQUIT
                        } else {
                            Parser::Error
                        }
                    },
                    Parser::SQUIT => {
                        if c == ' ' {
                            Parser::SQUIT
                        } else {
                            Parser::Error
                        }
                    },
                };
                proof {
                    assert(state == spec_step(pre_state, c));
                }
            }
            i = i + 1;
        }
        proof {
            assert(spec_parse(s, n as int, state, trim as int).0 =~= Seq::<CommandModel>::empty());
            assert(total.0 =~= command_views(cmds@));
            assert(total.1 == trim);
        }
        let mut kept: Vec<char> = Vec::new();
        let mut k = trim;
        while k < n
            invariant
                self.input@ == s,
                self.output@ == old(self).spec_output(),
                trim <= k <= n,
                n == s.len(),
                kept@ == s.subrange(trim as int, k as int),
            decreases n - k,
        {
            kept.push(self.input[k]);
            proof {
                assert(s.subrange(trim as int, k as int).push(s[k as int]) =~= s.subrange(
                    trim as int,
                    k as int + 1,
                ));
            }
            k = k + 1;
        }
        let mut k: usize = 0;
        while k < trim
            invariant
                self.input@ == s,
                trim <= n == s.len(),
                k <= trim,
                self.output@ == old(self).spec_output() + s.subrange(0, k as int),
            decreases trim - k,
        {
            self.output.push(self.input[k]);
            proof {
                assert((old(self).spec_output() + s.subrange(0, k as int)).push(s[k as int])
                    =~= old(self).spec_output() + s.subrange(0, k as int + 1));
            }
            k = k + 1;
        }
        self.input = kept;
        proof {
            assert(final(self).spec_input() =~= old(self).spec_input().skip(total.1));
            assert(final(self).spec_output() =~= old(self).spec_output() + old(
                self,
            ).spec_input().take(total.1));
        }
        cmds
    }
}

} // verus!
