use vstd::prelude::*;
use crate::text::{chars_of, same_text};

verus! {

/// Whether `c` separates words: what `char::is_whitespace` answers for it.
pub uninterp spec fn is_blank(c: char) -> bool;

/// `char::is_whitespace`: its answer is given the name `is_blank`.
pub assume_specification[ char::is_whitespace ](c: char) -> (b: bool)
    ensures
        b == is_blank(c),
;

/// The first position at or behind `from` that holds no blank, or the length
/// of `s` when only blanks follow.
pub open spec fn skip_blanks(s: Seq<char>, from: int) -> int
    decreases s.len() - from,
{
    if from < 0 || from >= s.len() || !is_blank(s[from]) {
        from
    } else {
        skip_blanks(s, from + 1)
    }
}

/// The first position at or behind `from` that holds a blank, or the length
/// of `s` when none follows.
pub open spec fn word_end(s: Seq<char>, from: int) -> int
    decreases s.len() - from,
{
    if from < 0 || from >= s.len() || is_blank(s[from]) {
        from
    } else {
        word_end(s, from + 1)
    }
}

/// Where the first word of a line starts.
pub open spec fn first_start(s: Seq<char>) -> int {
    skip_blanks(s, 0)
}

/// The first word of a line: empty when the line holds only blanks.
pub open spec fn first_word(s: Seq<char>) -> Seq<char> {
    s.subrange(first_start(s), word_end(s, first_start(s)))
}

/// Where the second word of a line starts.
pub open spec fn second_start(s: Seq<char>) -> int {
    skip_blanks(s, word_end(s, first_start(s)))
}

/// The second word of a line: empty when the line holds one word or none.
pub open spec fn second_word(s: Seq<char>) -> Seq<char> {
    s.subrange(second_start(s), word_end(s, second_start(s)))
}

/// A command line, read.
#[derive(Debug)]
pub enum Command {
    /// A line without a word, or `cat` without an operand: nothing is done.
    Nothing,
    Ls(String),
    Cd(String),
    Cat(String),
    Pwd,
    Clear,
    Exit,
    /// A first word that names no command.
    Unknown(String),
}

/// A command, as plain text.
pub enum CommandView {
    Nothing,
    Ls(Seq<char>),
    Cd(Seq<char>),
    Cat(Seq<char>),
    Pwd,
    Clear,
    Exit,
    Unknown(Seq<char>),
}

impl View for Command {
    type V = CommandView;

    open spec fn view(&self) -> CommandView {
        match self {
            Command::Nothing => CommandView::Nothing,
            Command::Ls(dir) => CommandView::Ls(dir@),
            Command::Cd(dir) => CommandView::Cd(dir@),
            Command::Cat(file) => CommandView::Cat(file@),
            Command::Pwd => CommandView::Pwd,
            Command::Clear => CommandView::Clear,
            Command::Exit => CommandView::Exit,
            Command::Unknown(word) => CommandView::Unknown(word@),
        }
    }
}

/// The command that a line stands for. The first word names it and the second
/// is its operand; `ls` and `cd` take an empty operand when there is none,
/// and further words are not read.
pub open spec fn parsed(line: Seq<char>) -> CommandView {
    let name = first_word(line);
    let operand = second_word(line);
    if name.len() == 0 {
        CommandView::Nothing
    } else if name == "ls"@ {
        CommandView::Ls(operand)
    } else if name == "cat"@ {
        if operand.len() == 0 {
            CommandView::Nothing
        } else {
            CommandView::Cat(operand)
        }
    } else if name == "cd"@ {
        CommandView::Cd(operand)
    } else if name == "clear"@ {
        CommandView::Clear
    } else if name == "exit"@ {
        CommandView::Exit
    } else if name == "pwd"@ {
        CommandView::Pwd
    } else {
        CommandView::Unknown(name)
    }
}

/// Where the blanks that start at `from` end.
fn skip_from(chars: &Vec<char>, from: usize) -> (to: usize)
    requires
        from <= chars.len(),
    ensures
        from <= to <= chars.len(),
        to == skip_blanks(chars@, from as int),
{
    let mut to: usize = from;
    while to < chars.len() && chars[to].is_whitespace()
        invariant
            from <= to <= chars.len(),
            skip_blanks(chars@, from as int) == skip_blanks(chars@, to as int),
        decreases chars.len() - to,
    {
        to += 1;
    }
    to
}

/// Where the word that starts at `from` ends.
fn word_from(chars: &Vec<char>, from: usize) -> (to: usize)
    requires
        from <= chars.len(),
    ensures
        from <= to <= chars.len(),
        to == word_end(chars@, from as int),
{
    let mut to: usize = from;
    while to < chars.len() && !chars[to].is_whitespace()
        invariant
            from <= to <= chars.len(),
            word_end(chars@, from as int) == word_end(chars@, to as int),
        decreases chars.len() - to,
    {
        to += 1;
    }
    to
}

/// Reads a command line.
pub fn parse(line: &str) -> (command: Command)
    ensures
        command@ == parsed(line@),
{
    let chars = chars_of(line);
    let start = skip_from(&chars, 0);
    let end = word_from(&chars, start);
    let next = skip_from(&chars, end);
    let last = word_from(&chars, next);
    let name = line.substring_char(start, end);
    let operand = line.substring_char(next, last);
    if name.is_empty() {
        Command::Nothing
    } else if same_text(name, "ls") {
        Command::Ls(operand.to_owned())
    } else if same_text(name, "cat") {
        if operand.is_empty() {
            Command::Nothing
        } else {
            Command::Cat(operand.to_owned())
        }
    } else if same_text(name, "cd") {
        Command::Cd(operand.to_owned())
    } else if same_text(name, "clear") {
        Command::Clear
    } else if same_text(name, "exit") {
        Command::Exit
    } else if same_text(name, "pwd") {
        Command::Pwd
    } else {
        Command::Unknown(name.to_owned())
    }
}

} // verus!
