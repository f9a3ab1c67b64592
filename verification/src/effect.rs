use vstd::prelude::*;
use crate::listing::{children, joined, listing_text};
use crate::path::{dir_path, file_path, parent_of};
use crate::text::line;

verus! {

/// What one command does to the shell: where the cursor stands afterwards,
/// what is shown to the user, and the command and details of the record that
/// is appended to the log, if one is.
pub struct Effect {
    pub cursor: Seq<char>,
    pub output: Seq<char>,
    pub logged: Option<(Seq<char>, Seq<char>)>,
}

/// The log details of a listing of `target`.
pub open spec fn listing_of(target: Seq<char>) -> Seq<char> {
    "listing of /"@ + target
}

/// The log details of a move that ends at `cursor`.
pub open spec fn navigated_to(cursor: Seq<char>) -> Seq<char> {
    if cursor.len() == 0 {
        "navigated to root"@
    } else {
        "navigated to /"@ + cursor
    }
}

/// Whether `ls` with `token` lists the cursor's own directory: with no
/// operand, with `.`, and with `..` at the root.
pub open spec fn lists_cursor(cursor: Seq<char>, token: Seq<char>) -> bool {
    token == ""@ || token == "."@ || (token == ".."@ && cursor.len() == 0)
}

/// What `ls` shows. `..` away from the root shows nothing; any other operand
/// names a directory below the cursor.
pub open spec fn ls_output(cursor: Seq<char>, token: Seq<char>, names: Seq<Seq<char>>) -> Seq<char> {
    if token == ".?."@ {
        "CONGRATULATIONS!!! YOU FOUND EASTER EGG\n"@ + joined(names) + "\n"@
    } else if lists_cursor(cursor, token) {
        listing_text(children(names, cursor))
    } else if token == ".."@ {
        Seq::empty()
    } else {
        listing_text(children(names, cursor + token + "/"@))
    }
}

/// The record that `ls` appends: one per call, which names the directory that
/// was asked for by its path from the root.
pub open spec fn ls_record(cursor: Seq<char>, token: Seq<char>) -> (Seq<char>, Seq<char>) {
    if token == ".?."@ {
        ("easter egg"@, "easter egg found"@)
    } else if lists_cursor(cursor, token) {
        ("ls"@, listing_of(cursor))
    } else {
        ("ls"@, listing_of(cursor + token))
    }
}

/// What `ls` with `token` does in an archive with the entry `names`.
pub open spec fn ls_effect(cursor: Seq<char>, token: Seq<char>, names: Seq<Seq<char>>) -> Effect {
    Effect {
        cursor,
        output: ls_output(cursor, token, names),
        logged: Some(ls_record(cursor, token)),
    }
}

/// Whether `cd` with `token` has to ask the archive: not for the root, not for
/// `..`, and not for a token that starts with `.` or `/`.
pub open spec fn cd_asks(token: Seq<char>) -> bool {
    token.len() > 0 && token[0] != '.' && token[0] != '/'
}

/// A diagnostic: shown to the user as a line, and logged under `cd`.
pub open spec fn cd_complaint(cursor: Seq<char>, message: Seq<char>) -> Effect {
    Effect { cursor, output: line(message), logged: Some(("cd"@, message)) }
}

/// A move to `target`: nothing is shown, and the new directory is logged.
pub open spec fn cd_move(target: Seq<char>) -> Effect {
    Effect { cursor: target, output: Seq::empty(), logged: Some(("cd"@, navigated_to(target))) }
}

/// What `cd` does once the archive has answered `found` for `fullpath`: a
/// directory is entered; anything else leaves the cursor and is reported.
pub open spec fn enter_effect(cursor: Seq<char>, fullpath: Seq<char>, found: Result<bool, Seq<char>>) -> Effect {
    match found {
        Ok(true) => cd_move(fullpath),
        Ok(false) => cd_complaint(cursor, "mysh: cd: "@ + fullpath + " is not a directory"@),
        Err(reason) => cd_complaint(cursor, "mysh: cd: "@ + reason),
    }
}

/// What `cd` with `token` does, `found` being the archive's answer for
/// `dir_path(cursor, token)`.
pub open spec fn cd_effect(cursor: Seq<char>, token: Seq<char>, found: Result<bool, Seq<char>>) -> Effect {
    if token == ""@ || token == "/"@ {
        cd_move(Seq::empty())
    } else if token == ".."@ {
        cd_move(parent_of(cursor))
    } else if !cd_asks(token) {
        cd_complaint(cursor, "mysh: cd: path starts with . or /"@)
    } else {
        enter_effect(cursor, dir_path(cursor, token), found)
    }
}

/// Whether `cat` with `token` asks the archive: not for a token that starts
/// with `/`.
pub open spec fn cat_asks(token: Seq<char>) -> bool {
    !(token.len() > 0 && token[0] == '/')
}

/// What `cat` shows for the entry at `fullpath`, `found` being the archive's
/// answer for it and `content` the outcome of reading it.
pub open spec fn cat_answer(
    fullpath: Seq<char>,
    found: Result<bool, Seq<char>>,
    content: Result<Seq<char>, Seq<char>>,
) -> Seq<char> {
    match found {
        Err(reason) => line("mysh: cat: "@ + reason),
        Ok(true) => line("mysh: "@ + fullpath + " is a directory"@),
        Ok(false) => match content {
            Ok(body) => line(body),
            Err(reason) => line("mysh: cat: "@ + reason),
        },
    }
}

/// What `cat` with `token` shows.
pub open spec fn cat_output(
    cursor: Seq<char>,
    token: Seq<char>,
    found: Result<bool, Seq<char>>,
    content: Result<Seq<char>, Seq<char>>,
) -> Seq<char> {
    if cat_asks(token) {
        cat_answer(file_path(cursor, token), found, content)
    } else {
        line("mysh: cat: path starts with . or /"@)
    }
}

/// What `pwd` shows.
pub open spec fn pwd_output(cursor: Seq<char>) -> Seq<char> {
    line("/"@ + cursor)
}

/// What `clear` does: it shows the sequence that clears the screen and puts
/// the cursor of the terminal home.
pub open spec fn clear_effect(cursor: Seq<char>) -> Effect {
    Effect { cursor, output: "\x1b[2J\x1b[1;1H"@, logged: Some(("clear"@, "screen cleared"@)) }
}

/// What leaving the shell does.
pub open spec fn exit_effect(cursor: Seq<char>) -> Effect {
    Effect { cursor, output: Seq::empty(), logged: Some(("exit"@, "shell exited"@)) }
}

} // verus!
