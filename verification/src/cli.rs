//! The command line: which command the arguments ask for, what a line typed at
//! the chat prompt means, and how listed results are written.
use vstd::prelude::*;
use crate::db::Fact;
use crate::numbers::{decimal, decimal_string, lemma_parse_decimal, parse_i64, parse_i64_spec};
use crate::text::{
    is_ws, join_words, lemma_all_ws, lemma_trimmed_push_ws, str_eq, str_trim, trimmed, push_char,
};

verus! {

/// A command given on the command line.
pub enum Command {
    /// No arguments: the interactive chat.
    Chat,
    /// `seed`: store a few example memories.
    Seed,
    /// `ask <words>`: one question.
    Ask(String),
    /// `ask` with nothing but whitespace after it.
    AskUsage,
    /// `thread [id]`: walk the conversation chain from memory `id` (0 when
    /// missing or not a number).
    Thread(i64),
    /// `facts [name]`: the facts about an entity (`user` when no name is given).
    Facts(String),
    /// Anything else.
    Unknown(String),
}

/// The model of a command.
pub enum CommandV {
    Chat,
    Seed,
    Ask(Seq<char>),
    AskUsage,
    Thread(i64),
    Facts(Seq<char>),
    Unknown(Seq<char>),
}

impl View for Command {
    type V = CommandV;

    open spec fn view(&self) -> CommandV {
        match self {
            Command::Chat => CommandV::Chat,
            Command::Seed => CommandV::Seed,
            Command::Ask(q) => CommandV::Ask(q@),
            Command::AskUsage => CommandV::AskUsage,
            Command::Thread(id) => CommandV::Thread(*id),
            Command::Facts(n) => CommandV::Facts(n@),
            Command::Unknown(c) => CommandV::Unknown(c@),
        }
    }
}

/// The views of a sequence of arguments.
pub open spec fn args_view(args: Seq<String>) -> Seq<Seq<char>> {
    args.map_values(|a: String| a@)
}

/// The command that the arguments (after the program's name) ask for.
pub open spec fn command_of(args: Seq<Seq<char>>) -> CommandV {
    if args.len() == 0 {
        CommandV::Chat
    } else {
        let rest = join_words(args.drop_first());
        if args[0] == "seed"@ {
            CommandV::Seed
        } else if args[0] == "ask"@ {
            if trimmed(rest).len() == 0 {
                CommandV::AskUsage
            } else {
                CommandV::Ask(rest)
            }
        } else if args[0] == "thread"@ {
            CommandV::Thread(
                if args.len() > 1 {
                    match parse_i64_spec(args[1]) {
                        Some(v) => v,
                        None => 0,
                    }
                } else {
                    0
                },
            )
        } else if args[0] == "facts"@ {
            if trimmed(rest).len() == 0 {
                CommandV::Facts("user"@)
            } else {
                CommandV::Facts(rest)
            }
        } else {
            CommandV::Unknown(args[0])
        }
    }
}

/// No arguments start the chat; `seed` seeds; `ask` asks the rest of the
/// arguments joined with spaces (or shows its usage when that is blank);
/// `thread` walks from the memory whose id is given in decimal (from 0 when
/// none is given); `facts` lists the facts about the rest of the arguments
/// joined (about `user` when none is given); any other first argument is
/// unknown.
pub proof fn lemma_command_of(first: Seq<char>, rest: Seq<Seq<char>>, n: i64)
    ensures
        command_of(Seq::empty()) == CommandV::Chat,
        command_of(seq!["seed"@] + rest) == CommandV::Seed,
        trimmed(join_words(rest)).len() > 0 ==> command_of(seq!["ask"@] + rest) == CommandV::Ask(
            join_words(rest),
        ),
        trimmed(join_words(rest)).len() == 0 ==> command_of(seq!["ask"@] + rest)
            == CommandV::AskUsage,
        n >= 0 ==> command_of(seq!["thread"@, decimal(n as nat)]) == CommandV::Thread(n),
        command_of(seq!["thread"@]) == CommandV::Thread(0),
        command_of(seq!["facts"@]) == CommandV::Facts("user"@),
        trimmed(join_words(rest)).len() > 0 ==> command_of(seq!["facts"@] + rest)
            == CommandV::Facts(join_words(rest)),
        (first != "seed"@ && first != "ask"@ && first != "thread"@ && first != "facts"@)
            ==> command_of(seq![first] + rest) == CommandV::Unknown(first),
{
    reveal_strlit("seed");
    reveal_strlit("ask");
    reveal_strlit("thread");
    reveal_strlit("facts");
    reveal_strlit("user");
    assert((seq!["seed"@] + rest).drop_first() =~= rest);
    assert((seq!["ask"@] + rest).drop_first() =~= rest);
    assert((seq!["facts"@] + rest).drop_first() =~= rest);
    assert((seq![first] + rest).drop_first() =~= rest);
    assert("seed"@[0] != "facts"@[0] && "ask"@[0] != "facts"@[0]);
    assert("seed"@[0] != "ask"@[0]);
    assert(seq!["facts"@].drop_first() =~= Seq::<Seq<char>>::empty());
    assert(seq!["thread"@].drop_first() =~= Seq::<Seq<char>>::empty());
    assert(trimmed(Seq::<char>::empty()) =~= Seq::<char>::empty());
    if n >= 0 {
        lemma_parse_decimal(n);
    }
}

/// The arguments from `from` on, joined with single spaces.
fn join_from(args: &Vec<String>, from: usize) -> (r: String)
    requires
        1 <= from <= args@.len(),
    ensures
        r@ == join_words(args_view(args@).subrange(from as int, args@.len() as int)),
{
    let mut r = String::new();
    let mut i: usize = from;
    while i < args.len()
        invariant
            from <= i <= args@.len(),
            r@ == join_words(args_view(args@).subrange(from as int, i as int)),
        decreases args@.len() - i,
    {
        let ghost ws = args_view(args@).subrange(from as int, i + 1);
        assert(ws.drop_last() =~= args_view(args@).subrange(from as int, i as int));
        if i > from {
            r.append(" ");
        } else {
            assert(args_view(args@).subrange(from as int, i as int) =~= Seq::<Seq<char>>::empty());
        }
        r.append(args[i].as_str());
        i = i + 1;
    }
    r
}

/// Which command the arguments (after the program's name) ask for.
pub fn parse_command(args: &Vec<String>) -> (r: Command)
    ensures
        r@ == command_of(args_view(args@)),
{
    if args.len() == 0 {
        return Command::Chat;
    }
    let ghost av = args_view(args@);
    assert(av.drop_first() =~= av.subrange(1, av.len() as int));
    let first = args[0].as_str();
    if str_eq(first, "seed") {
        Command::Seed
    } else if str_eq(first, "ask") {
        let q = join_from(args, 1);
        if str_trim(q.as_str()).is_empty() {
            Command::AskUsage
        } else {
            Command::Ask(q)
        }
    } else if str_eq(first, "thread") {
        let start = if args.len() > 1 {
            match parse_i64(args[1].as_str()) {
                Some(v) => v,
                None => 0,
            }
        } else {
            0
        };
        Command::Thread(start)
    } else if str_eq(first, "facts") {
        let name = join_from(args, 1);
        if str_trim(name.as_str()).is_empty() {
            Command::Facts(String::from_str("user"))
        } else {
            Command::Facts(name)
        }
    } else {
        Command::Unknown(String::from_str(first))
    }
}

/// What a line typed at the chat prompt asks for.
pub enum LineAction {
    /// Nothing but whitespace: prompt again.
    Skip,
    /// `quit`, `exit` or `:q`: leave the chat.
    Quit,
    /// A message for the agent: the line without surrounding whitespace.
    Message(String),
}

/// The model of a line's meaning.
pub enum LineActionV {
    Skip,
    Quit,
    Message(Seq<char>),
}

impl View for LineAction {
    type V = LineActionV;

    open spec fn view(&self) -> LineActionV {
        match self {
            LineAction::Skip => LineActionV::Skip,
            LineAction::Quit => LineActionV::Quit,
            LineAction::Message(m) => LineActionV::Message(m@),
        }
    }
}

/// What a typed line means.
pub open spec fn line_action_of(line: Seq<char>) -> LineActionV {
    let msg = trimmed(line);
    if msg.len() == 0 {
        LineActionV::Skip
    } else if msg == "quit"@ || msg == "exit"@ || msg == ":q"@ {
        LineActionV::Quit
    } else {
        LineActionV::Message(msg)
    }
}

/// Whitespace at the end of a line (such as its line break) does not change
/// what it means.
pub proof fn lemma_line_trailing_ws(line: Seq<char>, c: char)
    requires
        is_ws(c),
    ensures
        line_action_of(line.push(c)) == line_action_of(line),
{
    lemma_trimmed_push_ws(line, c);
}

/// A line of nothing but whitespace is skipped.
pub proof fn lemma_blank_line(line: Seq<char>)
    requires
        forall|i: int| 0 <= i < line.len() ==> is_ws(#[trigger] line[i]),
    ensures
        line_action_of(line) == LineActionV::Skip,
{
    lemma_all_ws(line);
}

/// A line is skipped exactly when it is blank, ends the chat exactly when its
/// trimmed text is `quit`, `exit` or `:q`, and otherwise is sent as a message
/// whose text is the line trimmed.
pub proof fn lemma_line_meaning(line: Seq<char>)
    ensures
        trimmed(line).len() == 0 ==> line_action_of(line) == LineActionV::Skip,
        (trimmed(line) == "quit"@ || trimmed(line) == "exit"@ || trimmed(line) == ":q"@)
            ==> line_action_of(line) == LineActionV::Quit,
        (trimmed(line).len() > 0 && trimmed(line) != "quit"@ && trimmed(line) != "exit"@
            && trimmed(line) != ":q"@) ==> line_action_of(line) == LineActionV::Message(
            trimmed(line),
        ),
{
    reveal_strlit("quit");
    reveal_strlit("exit");
    reveal_strlit(":q");
}

/// What a line typed at the chat prompt asks for.
pub fn classify_line(line: &str) -> (r: LineAction)
    ensures
        r@ == line_action_of(line@),
{
    let msg = str_trim(line);
    if msg.is_empty() {
        LineAction::Skip
    } else if str_eq(msg, "quit") || str_eq(msg, "exit") || str_eq(msg, ":q") {
        LineAction::Quit
    } else {
        LineAction::Message(String::from_str(msg))
    }
}

/// `s` with every line break replaced by a space.
pub open spec fn one_line(s: Seq<char>) -> Seq<char> {
    s.map_values(|c: char| if c == '\n' { ' ' } else { c })
}

/// The listing line of the `n`-th memory (from 1) of a thread:
/// `  <n>. (<role>) <text on one line>`.
pub open spec fn thread_line_v(n: nat, role: Seq<char>, text: Seq<char>) -> Seq<char> {
    "  "@ + decimal(n) + ". ("@ + role + ") "@ + one_line(text)
}

/// A thread line ends with the memory's text on one line: every line break
/// becomes a space and every other character stays where it was.
pub proof fn lemma_thread_line_text(n: nat, role: Seq<char>, text: Seq<char>)
    ensures
        thread_line_v(n, role, text).len() == 2 + decimal(n).len() + 3 + role.len() + 2
            + text.len(),
        forall|i: int|
            0 <= i < text.len() ==> #[trigger] thread_line_v(n, role, text)[thread_line_v(
                n,
                role,
                text,
            ).len() - text.len() + i] == (if text[i] == '\n' {
                ' '
            } else {
                text[i]
            }),
        thread_line_v(n, role, text).take(decimal(n).len() + 5int) == "  "@ + decimal(n) + ". ("@,
{
    reveal_strlit("  ");
    reveal_strlit(". (");
    reveal_strlit(") ");
    let l = thread_line_v(n, role, text);
    assert(l.take(decimal(n).len() + 5int) =~= "  "@ + decimal(n) + ". ("@);
}

/// The listing line of the `n`-th memory of a thread (counting from 1).
pub fn thread_line(n: usize, role: &str, text: &str) -> (r: String)
    ensures
        r@ == thread_line_v(n as nat, role@, text@),
{
    let mut r = String::from_str("  ");
    let n = decimal_string(n as u128);
    r.append(n.as_str());
    r.append(". (");
    r.append(role);
    r.append(") ");
    let ghost head = r@;
    let ghost t = text@;
    for c in it: text.chars()
        invariant
            it.seq() == t,
            r@ == head + one_line(t.take(it.index())),
    {
        proof {
            assert(one_line(t.take(it.index() + 1)) =~= one_line(t.take(it.index())).push(
                if c == '\n' { ' ' } else { c },
            ));
        }
        if c == '\n' {
            push_char(&mut r, ' ');
        } else {
            push_char(&mut r, c);
        }
    }
    assert(t.take(t.len() as int) =~= t);
    r
}

/// The listing line of a fact about `name`: `  <name> --<predicate>--> <object>`.
pub open spec fn fact_line_v(name: Seq<char>, predicate: Seq<char>, object: Seq<char>) -> Seq<char> {
    "  "@ + name + " --"@ + predicate + "--> "@ + object
}

/// The listing line of a fact about `name`.
pub fn fact_line(name: &str, fact: &Fact) -> (r: String)
    ensures
        r@ == fact_line_v(name@, fact.predicate@, fact.object@),
{
    let mut r = String::from_str("  ");
    r.append(name);
    r.append(" --");
    r.append(fact.predicate.as_str());
    r.append("--> ");
    r.append(fact.object.as_str());
    r
}

/// The example memories that `seed` stores, one turn each.
pub fn seed_samples() -> (r: Vec<&'static str>)
    ensures
        r@.len() == 5,
        r@[0]@ == "My favorite programming language is Rust."@,
        r@[1]@ == "I'm building an AI agent to test HelixDB, a graph-vector database."@,
        r@[2]@ == "I live in Pune and love filter coffee."@,
        r@[3]@ == "HelixDB stores both graph edges and vector embeddings natively."@,
        r@[4]@ == "My cat's name is Tuna and she sleeps on my keyboard."@,
{
    vec![
        "My favorite programming language is Rust.",
        "I'm building an AI agent to test HelixDB, a graph-vector database.",
        "I live in Pune and love filter coffee.",
        "HelixDB stores both graph edges and vector embeddings natively.",
        "My cat's name is Tuna and she sleeps on my keyboard.",
    ]
}

} // verus!
