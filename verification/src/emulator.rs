use vstd::prelude::*;
use vstd::string::*;
use crate::archive::{
    answer_view, archive_entry, archive_names, archive_text, content_view, entry_names,
    find_entry, open_archive, opened, read_entry, same_contents, Archive,
};
use crate::command::{parse, parsed, Command, CommandView};
use crate::config::Config;
use crate::effect::{
    cat_answer, cat_output, cd_asks, cd_effect, cd_move, clear_effect, enter_effect, exit_effect,
    ls_effect, pwd_output, Effect,
};
use crate::listing::{join, list_children, render};
use crate::log::{duplicate_entries, LogEntry, LogEntryView, Session, SessionView};
use crate::path::{
    canonical, dir_path, file_path, lemma_parent_is_canonical, parent, resolve_dir, resolve_file,
};
use crate::text::{glue, line, line_of, same_text, starts_with};

verus! {

/// A read-only shell over the entries of an archive. `current_dir` is the
/// cursor: empty at the root, and else the path of a directory with its
/// closing separator.
pub struct ShellEmulator {
    pub user: String,
    pub computer: String,
    pub current_dir: String,
    pub archive: Archive,
    pub log_file: String,
    pub log_entries: Vec<LogEntry>,
}

/// What the shell hands back for one command line: the text to show, and
/// whether the session is over, so that its log is to be kept now.
#[derive(Debug)]
pub struct Reply {
    pub output: String,
    pub done: bool,
}

impl ShellEmulator {
    /// The cursor, as plain text.
    pub open spec fn cursor(&self) -> Seq<char> {
        self.current_dir@
    }

    /// The log so far, as plain text.
    pub open spec fn history(&self) -> Seq<LogEntryView> {
        self.log_entries.deep_view()
    }

    /// The entry names of the archive.
    pub open spec fn names(&self) -> Seq<Seq<char>> {
        archive_names(self.archive)
    }

    /// Whether the cursor is one that the shell itself can have reached: the
    /// root, or a path that closes with a separator.
    pub open spec fn well_formed(&self) -> bool {
        canonical(self.cursor())
    }

    /// Whether `self` is what `before` becomes by `effect`: the cursor stands
    /// where the effect puts it, the log has grown by the effect's record and
    /// by nothing else, and the rest is as it was.
    pub open spec fn follows(&self, before: ShellEmulator, effect: Effect) -> bool {
        &&& self.user == before.user
        &&& self.computer == before.computer
        &&& self.log_file == before.log_file
        &&& same_contents(self.archive, before.archive)
        &&& self.cursor() == effect.cursor
        &&& self.history() == match effect.logged {
            Some((command, details)) => before.history().push(
                LogEntryView { user: before.user@, command, details },
            ),
            None => before.history(),
        }
    }

    /// What `command` does to the shell `self`.
    pub open spec fn effect_of(&self, command: CommandView) -> Effect {
        let cursor = self.cursor();
        match command {
            CommandView::Nothing => Effect { cursor, output: Seq::empty(), logged: None },
            CommandView::Ls(dir) => ls_effect(cursor, dir, self.names()),
            CommandView::Cd(dir) => cd_effect(
                cursor,
                dir,
                archive_entry(self.archive, dir_path(cursor, dir)),
            ),
            CommandView::Cat(file) => Effect {
                cursor,
                output: cat_output(
                    cursor,
                    file,
                    archive_entry(self.archive, file_path(cursor, file)),
                    archive_text(self.archive, file_path(cursor, file)),
                ),
                logged: None,
            },
            CommandView::Pwd => Effect { cursor, output: pwd_output(cursor), logged: None },
            CommandView::Clear => clear_effect(cursor),
            CommandView::Exit => exit_effect(cursor),
            CommandView::Unknown(word) => Effect {
                cursor,
                output: line("mysh: "@ + word + ": unknown command"@),
                logged: None,
            },
        }
    }

    /// A shell at the root of `archive`, with an empty log.
    pub fn new(config: &Config, archive: Archive) -> (shell: ShellEmulator)
        ensures
            shell.user@ == config.user@,
            shell.computer@ == config.computer@,
            shell.log_file@ == config.log_file@,
            shell.archive == archive,
            shell.cursor() == Seq::<char>::empty(),
            shell.history() == Seq::<LogEntryView>::empty(),
            shell.well_formed(),
    {
        let shell = ShellEmulator {
            user: config.user.clone(),
            computer: config.computer.clone(),
            current_dir: String::new(),
            archive,
            log_file: config.log_file.clone(),
            log_entries: Vec::new(),
        };
        assert(shell.history() =~= Seq::<LogEntryView>::empty());
        shell
    }

    /// Appends a record of `command` with `details` to the log.
    pub fn log(&mut self, command: &str, details: String)
        ensures
            final(self).follows(
                *old(self),
                (Effect {
                    cursor: old(self).cursor(),
                    output: Seq::empty(),
                    logged: Some((command@, details@)),
                }),
            ),
    {
        let ghost before = self.history();
        let entry = LogEntry::new(self.user.as_str(), command, details);
        self.log_entries.push(entry);
        assert(self.history() =~= before.push(entry@));
    }

    /// Puts the cursor on `target` and logs the move.
    pub fn move_to(&mut self, target: String)
        ensures
            final(self).follows(*old(self), cd_move(target@)),
    {
        let details = if target.as_str().is_empty() {
            "navigated to root".to_owned()
        } else {
            glue("navigated to /", target.as_str())
        };
        self.current_dir = target;
        self.log("cd", details);
    }

    /// `ls` in an archive whose entry names are `names`: returns what is to
    /// be shown and appends one record.
    pub fn ls_among(&mut self, dir: &str, names: &Vec<String>) -> (out: String)
        ensures
            final(self).follows(*old(self), ls_effect(old(self).cursor(), dir@, names.deep_view())),
            out@ == ls_effect(old(self).cursor(), dir@, names.deep_view()).output,
    {
        if same_text(dir, ".?.") {
            let mut out = glue("CONGRATULATIONS!!! YOU FOUND EASTER EGG\n", join(names).as_str());
            out.append("\n");
            self.log("easter egg", "easter egg found".to_owned());
            return out;
        }
        let at_root = self.current_dir.as_str().is_empty();
        if same_text(dir, "") || same_text(dir, ".") || (same_text(dir, "..") && at_root) {
            let found = list_children(names, self.current_dir.as_str());
            let details = glue("listing of /", self.current_dir.as_str());
            self.log("ls", details);
            return render(&found);
        }
        let target = glue(self.current_dir.as_str(), dir);
        let details = glue("listing of /", target.as_str());
        self.log("ls", details);
        if same_text(dir, "..") {
            return String::new();
        }
        let prefix = glue(target.as_str(), "/");
        let found = list_children(names, prefix.as_str());
        render(&found)
    }

    /// Lists a directory of the archive: the cursor's own with no operand or
    /// `.`, the one named by `dir` below the cursor otherwise. Returns what is
    /// to be shown and appends one record.
    pub fn ls(&mut self, dir: &str) -> (out: String)
        ensures
            final(self).follows(*old(self), ls_effect(old(self).cursor(), dir@, old(self).names())),
            out@ == ls_effect(old(self).cursor(), dir@, old(self).names()).output,
    {
        let names = entry_names(&self.archive);
        self.ls_among(dir, &names)
    }

    /// The second half of `cd`: the archive has answered `found` for
    /// `fullpath`. A directory becomes the cursor; any other answer is
    /// reported and leaves the cursor where it stands.
    pub fn enter(&mut self, fullpath: String, found: Result<bool, String>) -> (out: String)
        ensures
            final(self).follows(
                *old(self),
                enter_effect(old(self).cursor(), fullpath@, answer_view(found)),
            ),
            out@ == enter_effect(old(self).cursor(), fullpath@, answer_view(found)).output,
    {
        match found {
            Ok(true) => {
                self.move_to(fullpath);
                String::new()
            },
            Ok(false) => {
                let mut message = glue("mysh: cd: ", fullpath.as_str());
                message.append(" is not a directory");
                let out = line_of(message.as_str());
                self.log("cd", message);
                out
            },
            Err(reason) => {
                let message = glue("mysh: cd: ", reason.as_str());
                let out = line_of(message.as_str());
                self.log("cd", message);
                out
            },
        }
    }

    /// Changes the directory. With no operand or `/` the cursor goes to the
    /// root, with `..` to the parent directory; an operand that starts with
    /// `.` or `/` is refused; any other names a directory below the cursor,
    /// which the archive is asked for. Returns what is to be shown and appends
    /// one record. A path that is not among the archive's names is never
    /// entered.
    pub fn cd(&mut self, dir: &str) -> (out: String)
        ensures
            final(self).follows(
                *old(self),
                cd_effect(
                    old(self).cursor(),
                    dir@,
                    archive_entry(old(self).archive, dir_path(old(self).cursor(), dir@)),
                ),
            ),
            out@ == cd_effect(
                old(self).cursor(),
                dir@,
                archive_entry(old(self).archive, dir_path(old(self).cursor(), dir@)),
            ).output,
            cd_asks(dir@) && !old(self).names().contains(dir_path(old(self).cursor(), dir@))
                ==> final(self).cursor() == old(self).cursor(),
            old(self).well_formed() ==> final(self).well_formed(),
    {
        proof {
            reveal_strlit("");
            reveal_strlit("/");
            reveal_strlit("..");
            if self.well_formed() {
                lemma_parent_is_canonical(self.cursor());
            }
            assert((self.cursor() + dir@ + "/"@).last() == '/');
        }
        if same_text(dir, "") || same_text(dir, "/") {
            self.move_to(String::new());
            return String::new();
        }
        if same_text(dir, "..") {
            let up = parent(self.current_dir.as_str()).to_owned();
            self.move_to(up);
            return String::new();
        }
        if starts_with(dir, '.') || starts_with(dir, '/') {
            let message = "mysh: cd: path starts with . or /".to_owned();
            let out = line_of(message.as_str());
            self.log("cd", message);
            return out;
        }
        assert(dir@.len() == 0 ==> dir@ =~= ""@);
        let fullpath = resolve_dir(self.current_dir.as_str(), dir);
        let found = find_entry(&mut self.archive, fullpath.as_str());
        self.enter(fullpath, found)
    }

    /// What `cat` shows for the entry at `fullpath`, once the archive has
    /// answered `found` for it and reading it has given `content`: the text
    /// of a file, or a diagnostic.
    pub fn cat_reply(fullpath: &str, found: Result<bool, String>, content: Result<String, String>) -> (out: String)
        ensures
            out@ == cat_answer(fullpath@, answer_view(found), content_view(content)),
    {
        match found {
            Err(reason) => line_of(glue("mysh: cat: ", reason.as_str()).as_str()),
            Ok(true) => {
                let mut message = glue("mysh: ", fullpath);
                message.append(" is a directory");
                line_of(message.as_str())
            },
            Ok(false) => match content {
                Ok(body) => line_of(body.as_str()),
                Err(reason) => line_of(glue("mysh: cat: ", reason.as_str()).as_str()),
            },
        }
    }

    /// Shows a file of the archive: returns its text, or the diagnostic for
    /// an operand that starts with `/`, a path that is not found, a directory
    /// or an entry that cannot be read as text. The log stays as it is.
    pub fn cat(&mut self, dir: &str) -> (out: String)
        ensures
            final(self).follows(
                *old(self),
                (Effect { cursor: old(self).cursor(), output: out@, logged: None }),
            ),
            out@ == cat_output(
                old(self).cursor(),
                dir@,
                archive_entry(old(self).archive, file_path(old(self).cursor(), dir@)),
                archive_text(old(self).archive, file_path(old(self).cursor(), dir@)),
            ),
    {
        if starts_with(dir, '/') {
            return line_of("mysh: cat: path starts with . or /");
        }
        let fullpath = resolve_file(self.current_dir.as_str(), dir);
        let found = find_entry(&mut self.archive, fullpath.as_str());
        let content = match found {
            Ok(false) => read_entry(&mut self.archive, fullpath.as_str()),
            _ => Err(String::new()),
        };
        Self::cat_reply(fullpath.as_str(), found, content)
    }

    /// The working directory as it is shown: `/`, the cursor, a line break.
    pub fn pwd(&self) -> (out: String)
        ensures
            out@ == pwd_output(self.cursor()),
    {
        line_of(glue("/", self.current_dir.as_str()).as_str())
    }

    /// Returns the sequence that clears the screen, and logs the command.
    pub fn clear(&mut self) -> (out: String)
        ensures
            final(self).follows(*old(self), clear_effect(old(self).cursor())),
            out@ == clear_effect(old(self).cursor()).output,
    {
        self.log("clear", "screen cleared".to_owned());
        "\x1b[2J\x1b[1;1H".to_owned()
    }

    /// The session as it is to be kept: the user, and every record of the
    /// log in the order in which it was appended.
    pub fn save_log(&self) -> (session: Session)
        ensures
            session@ == (SessionView { user: self.user@, log: self.history() }),
    {
        Session { user: self.user.clone(), log: duplicate_entries(&self.log_entries) }
    }

    /// The prompt: user, `@`, computer, `:/`, the cursor, `$` and a blank.
    pub fn prompt(&self) -> (out: String)
        ensures
            out@ == self.user@ + "@"@ + self.computer@ + ":/"@ + self.cursor() + "$ "@,
    {
        let mut out = glue(self.user.as_str(), "@");
        out.append(self.computer.as_str());
        out.append(":/");
        out.append(self.current_dir.as_str());
        out.append("$ ");
        out
    }

    /// A shell over the archive that `bytes` hold, or the reason why they
    /// cannot be read as one. The shell stands at the root with an empty log.
    pub fn load(config: &Config, bytes: Vec<u8>) -> (r: Result<ShellEmulator, String>)
        ensures
            match r {
                Ok(shell) => {
                    &&& opened(bytes@) == Ok::<Seq<Seq<char>>, Seq<char>>(shell.names())
                    &&& shell.user@ == config.user@
                    &&& shell.computer@ == config.computer@
                    &&& shell.log_file@ == config.log_file@
                    &&& shell.cursor() == Seq::<char>::empty()
                    &&& shell.history() == Seq::<LogEntryView>::empty()
                    &&& shell.well_formed()
                },
                Err(reason) => opened(bytes@) == Err::<Seq<Seq<char>>, Seq<char>>(reason@),
            },
    {
        match open_archive(bytes) {
            Ok(archive) => Ok(ShellEmulator::new(config, archive)),
            Err(reason) => Err(reason),
        }
    }

    /// Carries out one command. Only `exit` ends the session; a word that
    /// names no command is reported and not logged.
    pub fn execute(&mut self, command: &Command) -> (reply: Reply)
        ensures
            final(self).follows(*old(self), old(self).effect_of(command@)),
            reply.output@ == old(self).effect_of(command@).output,
            reply.done == (command@ is Exit),
            old(self).well_formed() ==> final(self).well_formed(),
    {
        match command {
            Command::Nothing => Reply { output: String::new(), done: false },
            Command::Ls(dir) => Reply { output: self.ls(dir.as_str()), done: false },
            Command::Cd(dir) => Reply { output: self.cd(dir.as_str()), done: false },
            Command::Cat(file) => Reply { output: self.cat(file.as_str()), done: false },
            Command::Pwd => Reply { output: self.pwd(), done: false },
            Command::Clear => Reply { output: self.clear(), done: false },
            Command::Exit => {
                self.log("exit", "shell exited".to_owned());
                Reply { output: String::new(), done: true }
            },
            Command::Unknown(word) => {
                let mut message = glue("mysh: ", word.as_str());
                message.append(": unknown command");
                Reply { output: line_of(message.as_str()), done: false }
            },
        }
    }

    /// Reads one command line and carries it out.
    pub fn run(&mut self, input: &str) -> (reply: Reply)
        ensures
            final(self).follows(*old(self), old(self).effect_of(parsed(input@))),
            reply.output@ == old(self).effect_of(parsed(input@)).output,
            reply.done == (parsed(input@) is Exit),
            old(self).well_formed() ==> final(self).well_formed(),
    {
        let command = parse(input);
        self.execute(&command)
    }
}

} // verus!
