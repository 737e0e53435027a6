//! Ex-commands: reading the command line key by key, cutting it into words
//! and carrying the command out.
use vstd::prelude::*;

use crate::buffer::line_views;
use crate::editor::Editor;
use crate::handler::Key;
use crate::text::push_char;

verus! {

/// Whether `c` is a white-space character (the Unicode `White_Space` property).
pub open spec fn is_space(c: char) -> bool {
    ||| '\u{9}' <= c <= '\u{d}'
    ||| c == ' '
    ||| c == '\u{85}'
    ||| c == '\u{a0}'
    ||| c == '\u{1680}'
    ||| '\u{2000}' <= c <= '\u{200a}'
    ||| c == '\u{2028}'
    ||| c == '\u{2029}'
    ||| c == '\u{202f}'
    ||| c == '\u{205f}'
    ||| c == '\u{3000}'
}

/// The words of `s` that are complete, and the word being read at its end.
pub open spec fn scan(s: Seq<char>) -> (Seq<Seq<char>>, Seq<char>)
    decreases s.len(),
{
    if s.len() == 0 {
        (Seq::empty(), Seq::empty())
    } else {
        let (done, cur) = scan(s.drop_last());
        let c = s.last();
        if is_space(c) {
            if cur.len() > 0 {
                (done.push(cur), Seq::empty())
            } else {
                (done, cur)
            }
        } else {
            (done, cur.push(c))
        }
    }
}

/// The maximal runs of non-space characters of `s`, in order.
pub open spec fn words(s: Seq<char>) -> Seq<Seq<char>> {
    let (done, cur) = scan(s);
    if cur.len() > 0 {
        done.push(cur)
    } else {
        done
    }
}

/// Whether `c` is a white-space character.
pub fn is_white_space(c: char) -> (r: bool)
    ensures
        r == is_space(c),
{
    ('\u{9}' <= c && c <= '\u{d}') || c == ' ' || c == '\u{85}' || c == '\u{a0}' || c == '\u{1680}'
        || ('\u{2000}' <= c && c <= '\u{200a}') || c == '\u{2028}' || c == '\u{2029}' || c
        == '\u{202f}' || c == '\u{205f}' || c == '\u{3000}'
}

/// The words of `s`, split at white space.
pub fn split_words(s: &Vec<char>) -> (r: Vec<String>)
    ensures
        line_views(r@) == words(s@),
{
    let mut done: Vec<String> = Vec::new();
    let mut cur = String::new();
    let mut i: usize = 0;
    proof {
        assert(s@.take(0) =~= Seq::<char>::empty());
        assert(line_views(done@) =~= Seq::<Seq<char>>::empty());
    }
    while i < s.len()
        invariant
            i <= s@.len(),
            (line_views(done@), cur@) == scan(s@.take(i as int)),
        decreases s@.len() - i,
    {
        let c = s[i];
        let ghost before = line_views(done@);
        proof {
            assert(s@.take(i + 1).drop_last() =~= s@.take(i as int));
            assert(s@.take(i + 1).last() == c);
        }
        if is_white_space(c) {
            if cur.as_str().unicode_len() > 0 {
                let ghost was = cur@;
                done.push(cur);
                cur = String::new();
                proof {
                    assert(line_views(done@) =~= before.push(was));
                }
            }
        } else {
            push_char(&mut cur, c);
        }
        i = i + 1;
    }
    proof {
        assert(s@.take(s@.len() as int) =~= s@);
    }
    if cur.as_str().unicode_len() > 0 {
        let ghost before = line_views(done@);
        done.push(cur);
        proof {
            assert(line_views(done@) =~= before.push(cur@));
        }
    }
    done
}

/// What a key did to the command line.
#[derive(Clone, Copy, Debug, PartialEq, Eq, Structural)]
pub enum LineInput {
    /// The line is still being typed.
    Pending,
    /// Enter: the line is complete.
    Submit,
    /// Escape: the line is dropped and nothing is carried out.
    Cancel,
}

/// An ex-command line as it is being typed.
pub struct CommandLine {
    pub chars: Vec<char>,
}

impl CommandLine {
    pub fn new() -> (r: CommandLine)
        ensures
            r.chars@ == Seq::<char>::empty(),
    {
        CommandLine { chars: Vec::new() }
    }

    /// Takes one key: Enter completes the line, Escape drops it, Backspace
    /// takes off the last character, and any other character is added.
    pub fn key(&mut self, key: Key) -> (r: LineInput)
        ensures
            match key {
                Key::Char('\n') => r == LineInput::Submit && final(self).chars@ == old(self).chars@,
                Key::Char(c) => r == LineInput::Pending && final(self).chars@ == old(
                    self,
                ).chars@.push(c),
                Key::Backspace => r == LineInput::Pending && final(self).chars@ == (if old(
                    self,
                ).chars@.len() > 0 {
                    old(self).chars@.drop_last()
                } else {
                    old(self).chars@
                }),
                Key::Esc => r == LineInput::Cancel && final(self).chars@ == old(self).chars@,
                Key::Unknown => r == LineInput::Pending && final(self).chars@ == old(self).chars@,
            },
    {
        match key {
            Key::Char('\n') => LineInput::Submit,
            Key::Char(c) => {
                self.chars.push(c);
                LineInput::Pending
            },
            Key::Backspace => {
                if self.chars.len() > 0 {
                    let _ = self.chars.pop();
                }
                LineInput::Pending
            },
            Key::Esc => LineInput::Cancel,
            Key::Unknown => LineInput::Pending,
        }
    }

    /// The words of the line.
    pub fn parts(&self) -> (r: Vec<String>)
        ensures
            line_views(r@) == words(self.chars@),
    {
        split_words(&self.chars)
    }
}

/// Whether `s` holds exactly the characters of `w`.
pub fn eq_str(s: &String, w: &str) -> (r: bool)
    ensures
        r == (s@ == w@),
{
    let a = s.as_str();
    let n = a.unicode_len();
    if n != w.unicode_len() {
        return false;
    }
    let mut i: usize = 0;
    while i < n
        invariant
            i <= n == a@.len() == w@.len(),
            a@ == s@,
            forall|j: int| 0 <= j < i ==> a@[j] == w@[j],
        decreases n - i,
    {
        if a.get_char(i) != w.get_char(i) {
            return false;
        }
        i = i + 1;
    }
    proof {
        assert(s@ =~= w@);
    }
    true
}

/// An ex-command, as its words name it.
#[derive(Clone, Debug, PartialEq, Eq)]
pub enum Command {
    /// `q`: quit unless there are unsaved changes.
    Quit,
    /// `q!`: quit whatever the changes.
    ForceQuit,
    /// `e`: load the current file again.
    Edit,
    /// `e <path>`: make `path` the current file and load it.
    EditFile(String),
    /// `w`: save to the current file.
    Write,
    /// `w <path>`: make `path` the current file and save to it.
    WriteFile(String),
    /// `lua`: run the script host's command.
    Script,
    /// Anything else; it is ignored.
    Unknown,
}

/// `r` is the command that the words `parts` name.
pub open spec fn parsed(parts: Seq<Seq<char>>, r: Command) -> bool {
    if parts.len() == 1 {
        if parts[0] == "q"@ {
            r == Command::Quit
        } else if parts[0] == "q!"@ {
            r == Command::ForceQuit
        } else if parts[0] == "e"@ {
            r == Command::Edit
        } else if parts[0] == "w"@ {
            r == Command::Write
        } else if parts[0] == "lua"@ {
            r == Command::Script
        } else {
            r == Command::Unknown
        }
    } else if parts.len() == 2 {
        if parts[0] == "e"@ {
            r is EditFile && r->EditFile_0@ == parts[1]
        } else if parts[0] == "w"@ {
            r is WriteFile && r->WriteFile_0@ == parts[1]
        } else {
            r == Command::Unknown
        }
    } else {
        r == Command::Unknown
    }
}

/// The command that the words `parts` name.
pub fn parse_command(parts: &Vec<String>) -> (r: Command)
    ensures
        parsed(line_views(parts@), r),
{
    let ghost p = line_views(parts@);
    if parts.len() == 1 {
        assert(p[0] == parts@[0]@);
        if eq_str(&parts[0], "q") {
            Command::Quit
        } else if eq_str(&parts[0], "q!") {
            Command::ForceQuit
        } else if eq_str(&parts[0], "e") {
            Command::Edit
        } else if eq_str(&parts[0], "w") {
            Command::Write
        } else if eq_str(&parts[0], "lua") {
            Command::Script
        } else {
            Command::Unknown
        }
    } else if parts.len() == 2 {
        assert(p[0] == parts@[0]@);
        assert(p[1] == parts@[1]@);
        if eq_str(&parts[0], "e") {
            Command::EditFile(parts[1].clone())
        } else if eq_str(&parts[0], "w") {
            Command::WriteFile(parts[1].clone())
        } else {
            Command::Unknown
        }
    } else {
        Command::Unknown
    }
}

/// Work that a command leaves to the caller, which owns files and scripts.
#[derive(Clone, Debug, PartialEq, Eq)]
pub enum Request {
    Nothing,
    /// Read the file at this path and hand its text to `Editor::load_text`.
    Load(String),
    /// Write `Editor::save_text` to the file at this path, then call
    /// `Editor::mark_saved`.
    Save(String),
    /// Run the script host's command.
    RunScript,
}

/// Why reading or writing a file failed.
#[derive(Clone, Copy, Debug, PartialEq, Eq, Structural)]
pub enum IoError {
    NotFound,
    PermissionDenied,
    Other,
}

/// Why a command was refused or failed.
#[derive(Clone, Copy, Debug, PartialEq, Eq, Structural)]
pub enum CommandError {
    /// `e` or `w` without a current file.
    NoFileName,
    /// `q` with changes that were not saved.
    UnsavedChanges,
    /// The file could not be read or written.
    Io(IoError),
}

pub open spec fn message_of(e: CommandError) -> Seq<char> {
    match e {
        CommandError::NoFileName => "No file name"@,
        CommandError::UnsavedChanges => "No write since last change (add ! to override)"@,
        CommandError::Io(IoError::NotFound) => "File not found"@,
        CommandError::Io(IoError::PermissionDenied) => "Permission denied"@,
        CommandError::Io(IoError::Other) => "Could not read or write the file"@,
    }
}

impl CommandError {
    /// The status text shown for the error.
    pub fn message(&self) -> (r: String)
        ensures
            r@ == message_of(*self),
    {
        match *self {
            CommandError::NoFileName => "No file name".to_owned(),
            CommandError::UnsavedChanges => "No write since last change (add ! to override)".to_owned(),
            CommandError::Io(IoError::NotFound) => "File not found".to_owned(),
            CommandError::Io(IoError::PermissionDenied) => "Permission denied".to_owned(),
            CommandError::Io(IoError::Other) => "Could not read or write the file".to_owned(),
        }
    }
}

/// What carrying out `cmd` did, from `o` to `f`, with result `r`.
pub open spec fn ran(o: Editor, f: Editor, cmd: Command, r: Result<Request, CommandError>) -> bool {
    match cmd {
        Command::Quit => if o.modified {
            f == o && r == Err::<Request, CommandError>(CommandError::UnsavedChanges)
        } else {
            f == (Editor { running: false, ..o }) && r == Ok::<Request, CommandError>(
                Request::Nothing,
            )
        },
        Command::ForceQuit => f == (Editor { running: false, ..o }) && r == Ok::<
            Request,
            CommandError,
        >(Request::Nothing),
        Command::Edit => f == o && if o.file_name@.len() == 0 {
            r == Err::<Request, CommandError>(CommandError::NoFileName)
        } else {
            r is Ok && r->Ok_0 is Load && r->Ok_0->Load_0@ == o.file_name@
        },
        Command::EditFile(p) => f == (Editor { file_name: p, ..o }) && r is Ok && r->Ok_0 is Load
            && r->Ok_0->Load_0@ == p@,
        Command::Write => f == o && if o.file_name@.len() == 0 {
            r == Err::<Request, CommandError>(CommandError::NoFileName)
        } else {
            r is Ok && r->Ok_0 is Save && r->Ok_0->Save_0@ == o.file_name@
        },
        Command::WriteFile(p) => f == (Editor { file_name: p, ..o }) && r is Ok && r->Ok_0 is Save
            && r->Ok_0->Save_0@ == p@,
        Command::Script => f == o && r == Ok::<Request, CommandError>(Request::RunScript),
        Command::Unknown => f == o && r == Ok::<Request, CommandError>(Request::Nothing),
    }
}

impl Editor {
    /// Carries out an ex-command. Quitting clears the running flag; loading
    /// and saving are handed back as a request, since files belong to the
    /// caller.
    pub fn handle_command(&mut self, cmd: Command) -> (r: Result<Request, CommandError>)
        requires
            old(self).wf(),
        ensures
            final(self).wf(),
            ran(*old(self), *final(self), cmd, r),
    {
        match cmd {
            Command::Quit => {
                if self.modified {
                    Err(CommandError::UnsavedChanges)
                } else {
                    self.running = false;
                    Ok(Request::Nothing)
                }
            },
            Command::ForceQuit => {
                self.running = false;
                Ok(Request::Nothing)
            },
            Command::Edit => {
                if self.file_name.as_str().unicode_len() == 0 {
                    Err(CommandError::NoFileName)
                } else {
                    Ok(Request::Load(self.file_name.clone()))
                }
            },
            Command::EditFile(p) => {
                let path = p.clone();
                self.file_name = p;
                Ok(Request::Load(path))
            },
            Command::Write => {
                if self.file_name.as_str().unicode_len() == 0 {
                    Err(CommandError::NoFileName)
                } else {
                    Ok(Request::Save(self.file_name.clone()))
                }
            },
            Command::WriteFile(p) => {
                let path = p.clone();
                self.file_name = p;
                Ok(Request::Save(path))
            },
            Command::Script => Ok(Request::RunScript),
            Command::Unknown => Ok(Request::Nothing),
        }
    }
}

} // verus!
