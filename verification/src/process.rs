//! External commands: what is run, what comes back, and how a result is
//! judged.
//!
//! Nothing here starts a process. A [`Command`] describes one; the host runs
//! it and reports an [`Output`]. A command that ran and exited with a
//! non-zero status is an ordinary `Output`: whether that is fatal is decided
//! by [`check_output`].

use crate::error::{error_result_view, Error, ErrorView};
use crate::text::{words, words_spec};
use vstd::prelude::*;
use vstd::string::*;

verus! {

/// Where the source of the tool is fetched from.
pub const REPOSITORY: &'static str = "http://github.com/google/flatbuffers";

/// A command line and the directory it runs in.
#[derive(Debug, PartialEq, Eq)]
pub struct Command {
    pub program: String,
    pub args: Vec<String>,
    /// Working directory; `None` keeps the directory of the host.
    pub dir: Option<String>,
}

/// A [`Command`] as contracts see it.
pub struct CommandView {
    pub program: Seq<char>,
    pub args: Seq<Seq<char>>,
    pub dir: Option<Seq<char>>,
}

/// What a finished child process left behind.
#[derive(Debug, PartialEq, Eq)]
pub struct Output {
    /// Exit code; `None` if the process was ended by a signal.
    pub code: Option<i32>,
    pub stdout: Vec<u8>,
    pub stderr: Vec<u8>,
}

/// An [`Output`] as contracts see it.
pub struct OutputView {
    pub code: Option<i32>,
    pub stdout: Seq<u8>,
    pub stderr: Seq<u8>,
}

impl CommandView {
    /// The command line: the program and its arguments, separated by
    /// spaces.
    pub open spec fn line(self) -> Seq<char> {
        words_spec(self.program, self.args)
    }
}

impl OutputView {
    /// A process succeeded if it exited with code zero.
    pub open spec fn success(self) -> bool {
        self.code == Some(0i32)
    }
}

/// The text of an optional string.
pub open spec fn opt_text(s: Option<String>) -> Option<Seq<char>> {
    match s {
        Some(s) => Some(s@),
        None => None,
    }
}

impl View for Command {
    type V = CommandView;

    open spec fn view(&self) -> CommandView {
        CommandView {
            program: self.program@,
            args: self.args.deep_view(),
            dir: opt_text(self.dir),
        }
    }
}

impl View for Output {
    type V = OutputView;

    open spec fn view(&self) -> OutputView {
        OutputView { code: self.code, stdout: self.stdout@, stderr: self.stderr@ }
    }
}

/// `git clone <repository>`, run in the cache root.
pub open spec fn fetch_command_spec(root: Seq<char>) -> CommandView {
    CommandView { program: "git"@, args: seq!["clone"@, REPOSITORY@], dir: Some(root) }
}

/// `cmake -Bbuild -H.`, run in the source tree.
pub open spec fn configure_command_spec(tree: Seq<char>) -> CommandView {
    CommandView { program: "cmake"@, args: seq!["-Bbuild"@, "-H."@], dir: Some(tree) }
}

/// `cmake --build build --target flatc`, run in the source tree.
pub open spec fn compile_command_spec(tree: Seq<char>) -> CommandView {
    CommandView {
        program: "cmake"@,
        args: seq!["--build"@, "build"@, "--target"@, "flatc"@],
        dir: Some(tree),
    }
}

/// `<binary> --rust -o <out_dir> -b <schema>`, run where the host stands.
pub open spec fn generate_command_spec(
    binary: Seq<char>,
    out_dir: Seq<char>,
    schema: Seq<char>,
) -> CommandView {
    CommandView {
        program: binary,
        args: seq!["--rust"@, "-o"@, out_dir, "-b"@, schema],
        dir: None,
    }
}

fn clone_bytes(bytes: &Vec<u8>) -> (copy: Vec<u8>)
    ensures
        copy@ == bytes@,
{
    let mut copy: Vec<u8> = Vec::new();
    let mut i: usize = 0;
    while i < bytes.len()
        invariant
            i <= bytes.len(),
            copy@ == bytes@.subrange(0, i as int),
        decreases bytes.len() - i,
    {
        copy.push(bytes[i]);
        i += 1;
        assert(copy@ =~= bytes@.subrange(0, i as int));
    }
    assert(bytes@.subrange(0, bytes.len() as int) =~= bytes@);
    copy
}

fn clone_texts(texts: &Vec<String>) -> (copy: Vec<String>)
    ensures
        copy.deep_view() == texts.deep_view(),
{
    let mut copy: Vec<String> = Vec::new();
    let mut i: usize = 0;
    while i < texts.len()
        invariant
            i <= texts.len(),
            copy.len() == i,
            forall|k: int| 0 <= k < i ==> copy@[k]@ == texts@[k]@,
        decreases texts.len() - i,
    {
        copy.push(texts[i].clone());
        i += 1;
    }
    assert(copy.deep_view() =~= texts.deep_view());
    copy
}

impl Clone for Command {
    fn clone(&self) -> (copy: Self)
        ensures
            copy@ == self@,
    {
        Command {
            program: self.program.clone(),
            args: clone_texts(&self.args),
            dir: match &self.dir {
                Some(d) => Some(d.clone()),
                None => None,
            },
        }
    }
}

impl Clone for Output {
    fn clone(&self) -> (copy: Self)
        ensures
            copy@ == self@,
    {
        Output {
            code: self.code,
            stdout: clone_bytes(&self.stdout),
            stderr: clone_bytes(&self.stderr),
        }
    }
}

impl Command {
    /// The command line: the program and its arguments, separated by
    /// spaces.
    pub fn line(&self) -> (line: String)
        ensures
            line@ == self@.line(),
    {
        words(self.program.as_str(), &self.args)
    }
}

impl Output {
    /// Whether the process exited with code zero.
    pub fn success(&self) -> (ok: bool)
        ensures
            ok == self@.success(),
    {
        match self.code {
            Some(code) => code == 0,
            None => false,
        }
    }
}

/// The command that fetches the source of the tool into the cache root.
pub fn fetch_command(root: &str) -> (command: Command)
    ensures
        command@ == fetch_command_spec(root@),
{
    let mut args: Vec<String> = Vec::new();
    args.push(String::from_str("clone"));
    args.push(String::from_str(REPOSITORY));
    let command = Command {
        program: String::from_str("git"),
        args,
        dir: Some(String::from_str(root)),
    };
    assert(command.args.deep_view() =~= seq!["clone"@, REPOSITORY@]);
    command
}

/// The command that configures the build in the source tree.
pub fn configure_command(tree: &str) -> (command: Command)
    ensures
        command@ == configure_command_spec(tree@),
{
    let mut args: Vec<String> = Vec::new();
    args.push(String::from_str("-Bbuild"));
    args.push(String::from_str("-H."));
    let command = Command {
        program: String::from_str("cmake"),
        args,
        dir: Some(String::from_str(tree)),
    };
    assert(command.args.deep_view() =~= seq!["-Bbuild"@, "-H."@]);
    command
}

/// The command that builds the executable in the source tree.
pub fn compile_command(tree: &str) -> (command: Command)
    ensures
        command@ == compile_command_spec(tree@),
{
    let mut args: Vec<String> = Vec::new();
    args.push(String::from_str("--build"));
    args.push(String::from_str("build"));
    args.push(String::from_str("--target"));
    args.push(String::from_str("flatc"));
    let command = Command {
        program: String::from_str("cmake"),
        args,
        dir: Some(String::from_str(tree)),
    };
    assert(command.args.deep_view() =~= seq!["--build"@, "build"@, "--target"@, "flatc"@]);
    command
}

/// The command that turns `schema` into Rust source below `out_dir`.
pub fn generate_command(binary: &str, out_dir: &str, schema: &str) -> (command: Command)
    ensures
        command@ == generate_command_spec(binary@, out_dir@, schema@),
{
    let mut args: Vec<String> = Vec::new();
    args.push(String::from_str("--rust"));
    args.push(String::from_str("-o"));
    args.push(String::from_str(out_dir));
    args.push(String::from_str("-b"));
    args.push(String::from_str(schema));
    let command = Command { program: String::from_str(binary), args, dir: None };
    assert(command.args.deep_view() =~= seq!["--rust"@, "-o"@, out_dir@, "-b"@, schema@]);
    command
}

/// What [`check_output`] makes of an output.
pub open spec fn check_output_spec(output: OutputView, command: CommandView) -> Result<
    (),
    ErrorView,
> {
    if output.success() {
        Ok(())
    } else {
        Err(ErrorView::ExternalCommand { command, output })
    }
}

/// Judges a finished command: a zero exit is accepted, anything else becomes
/// an error that carries the command and all it printed, byte for byte.
pub fn check_output(output: &Output, command: &Command) -> (checked: Result<(), Error>)
    ensures
        error_result_view(checked) == check_output_spec(output@, command@),
{
    if output.success() {
        Ok(())
    } else {
        Err(Error::ExternalCommand { command: command.clone(), output: output.clone() })
    }
}

} // verus!
