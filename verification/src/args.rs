//! Tool-call argument handling: extracting typed argument shapes from the
//! raw JSON text a call carries, and deciding which action a call asks for.
//! The JSON reading itself is done by serde_json behind trusted wrappers;
//! everything decided from the extracted values is verified.

use vstd::prelude::*;

use crate::msg::ToolCall;
use crate::text::str_eq;

verus! {

/// What extracting the string under a key of a JSON text yields: the text
/// under the key when the text parses as an object holding a string there,
/// nothing otherwise.  The outcome depends on the text and the key alone.
pub uninterp spec fn spec_string_field(args: Seq<char>, key: Seq<char>) -> Option<Seq<char>>;

/// What extracting the integer under a key of a JSON text yields: the
/// number under the key when the text parses as an object holding an
/// unsigned integer there, nothing otherwise.  The outcome depends on the
/// text and the key alone.
pub uninterp spec fn spec_u64_field(args: Seq<char>, key: Seq<char>) -> Option<u64>;

/// Relies on serde_json::from_str::<Value>, Value::get and Value::as_str:
/// parses the JSON text and reads the string under the key.  A text that
/// is not valid JSON, a missing key and a non-string value each become
/// `None`; nothing here panics, and the result is a function of the text
/// and key alone.
#[verifier::external_body]
fn json_string_field(arguments: &str, key: &str) -> (r: Option<String>)
    ensures
        r.deep_view() == spec_string_field(arguments@, key@),
{
    match serde_json::from_str::<serde_json::Value>(arguments) {
        Ok(v) => match v.get(key) {
            Some(f) => f.as_str().map(|s| s.to_string()),
            None => None,
        },
        Err(_) => None,
    }
}

/// Relies on serde_json::from_str::<Value>, Value::get and Value::as_u64:
/// parses the JSON text and reads the unsigned integer under the key.  A
/// text that is not valid JSON, a missing key and a value that is no
/// unsigned integer each become `None`; nothing here panics, and the
/// result is a function of the text and key alone.
#[verifier::external_body]
fn json_u64_field(arguments: &str, key: &str) -> (r: Option<u64>)
    ensures
        r == spec_u64_field(arguments@, key@),
{
    match serde_json::from_str::<serde_json::Value>(arguments) {
        Ok(v) => match v.get(key) {
            Some(f) => f.as_u64(),
            None => None,
        },
        Err(_) => None,
    }
}

/// Mathematical image of a [`ShellArgs`].
pub ghost struct ShellArgsView {
    pub command: Seq<char>,
    pub reason: Seq<char>,
}

/// The arguments of an `execute_shell` call.
#[derive(Debug)]
pub struct ShellArgs {
    /// The command to run through the system shell.
    pub command: String,
    /// Why the backend wants it run; empty when none was given.
    pub reason: String,
}

impl DeepView for ShellArgs {
    type V = ShellArgsView;

    open spec fn deep_view(&self) -> ShellArgsView {
        ShellArgsView { command: self.command@, reason: self.reason@ }
    }
}

/// Mathematical image of a [`ReadFileArgs`].
pub ghost struct ReadFileArgsView {
    pub path: Seq<char>,
    pub start_line: Option<usize>,
    pub end_line: Option<usize>,
}

/// The arguments of a `read_file` call.
#[derive(Debug)]
pub struct ReadFileArgs {
    /// Path of the file to read.
    pub path: String,
    /// First line of the excerpt, 1-based.
    pub start_line: Option<usize>,
    /// Last line of the excerpt, 1-based.
    pub end_line: Option<usize>,
}

impl DeepView for ReadFileArgs {
    type V = ReadFileArgsView;

    open spec fn deep_view(&self) -> ReadFileArgsView {
        ReadFileArgsView {
            path: self.path@,
            start_line: self.start_line,
            end_line: self.end_line,
        }
    }
}

/// Mathematical image of a [`WriteFileArgs`].
pub ghost struct WriteFileArgsView {
    pub path: Seq<char>,
    pub content: Seq<char>,
    pub mode: Option<Seq<char>>,
    pub start_line: Option<usize>,
    pub end_line: Option<usize>,
}

/// The arguments of a `write_file` call, the mode still as the wire names
/// it.
#[derive(Debug)]
pub struct WriteFileArgs {
    /// Path of the file to write.
    pub path: String,
    /// The content to write.
    pub content: String,
    /// The requested mode name; absent means overwrite.
    pub mode: Option<String>,
    /// First line for insert and replace, 1-based.
    pub start_line: Option<usize>,
    /// Last line for replace, 1-based.
    pub end_line: Option<usize>,
}

impl DeepView for WriteFileArgs {
    type V = WriteFileArgsView;

    open spec fn deep_view(&self) -> WriteFileArgsView {
        WriteFileArgsView {
            path: self.path@,
            content: self.content@,
            mode: self.mode.deep_view(),
            start_line: self.start_line,
            end_line: self.end_line,
        }
    }
}

/// An optional count taken from the wire's integers.
pub open spec fn spec_opt_usize(v: Option<u64>) -> Option<usize> {
    match v {
        Some(x) => Some(x as usize),
        None => None,
    }
}

fn opt_usize(v: Option<u64>) -> (r: Option<usize>)
    ensures
        r == spec_opt_usize(v),
{
    match v {
        Some(x) => Some(x as usize),
        None => None,
    }
}

/// Builds shell arguments from the extracted fields: the command is
/// required, a missing reason counts as empty.
pub fn shell_args_from(command: Option<String>, reason: Option<String>) -> (r: Result<
    ShellArgs,
    String,
>)
    ensures
        match r {
            Ok(a) => command is Some && a.deep_view() == (ShellArgsView {
                command: command.deep_view().unwrap(),
                reason: crate::compact::spec_opt_text(reason.deep_view()),
            }),
            Err(e) => command is None && e@ == "Missing required argument: command"@,
        },
{
    match command {
        Some(c) => Ok(
            ShellArgs {
                command: c,
                reason: match reason {
                    Some(x) => x,
                    None => String::new(),
                },
            },
        ),
        None => Err("Missing required argument: command".to_owned()),
    }
}

/// Builds read-file arguments from the extracted fields: the path is
/// required, the line range optional.
pub fn read_file_args_from(
    path: Option<String>,
    start_line: Option<u64>,
    end_line: Option<u64>,
) -> (r: Result<ReadFileArgs, String>)
    ensures
        match r {
            Ok(a) => path is Some && a.deep_view() == (ReadFileArgsView {
                path: path.deep_view().unwrap(),
                start_line: spec_opt_usize(start_line),
                end_line: spec_opt_usize(end_line),
            }),
            Err(e) => path is None && e@ == "Missing required argument: path"@,
        },
{
    match path {
        Some(p) => Ok(
            ReadFileArgs {
                path: p,
                start_line: opt_usize(start_line),
                end_line: opt_usize(end_line),
            },
        ),
        None => Err("Missing required argument: path".to_owned()),
    }
}

/// Builds write-file arguments from the extracted fields: path and content
/// are required, mode and line range optional.
pub fn write_file_args_from(
    path: Option<String>,
    content: Option<String>,
    mode: Option<String>,
    start_line: Option<u64>,
    end_line: Option<u64>,
) -> (r: Result<WriteFileArgs, String>)
    ensures
        match r {
            Ok(a) => path is Some && content is Some && a.deep_view() == (WriteFileArgsView {
                path: path.deep_view().unwrap(),
                content: content.deep_view().unwrap(),
                mode: mode.deep_view(),
                start_line: spec_opt_usize(start_line),
                end_line: spec_opt_usize(end_line),
            }),
            Err(e) => (path is None && e@ == "Missing required argument: path"@) || (path is Some
                && content is None && e@ == "Missing required argument: content"@),
        },
{
    match path {
        Some(p) => match content {
            Some(c) => Ok(
                WriteFileArgs {
                    path: p,
                    content: c,
                    mode,
                    start_line: opt_usize(start_line),
                    end_line: opt_usize(end_line),
                },
            ),
            None => Err("Missing required argument: content".to_owned()),
        },
        None => Err("Missing required argument: path".to_owned()),
    }
}

/// The action one tool call asks the dispatcher to take.
#[derive(Debug)]
pub enum ToolAction {
    /// Run a shell command.
    RunShell(ShellArgs),
    /// Read an excerpt of a file.
    ReadFile(ReadFileArgs),
    /// Write to a file.
    WriteFile(WriteFileArgs),
    /// The call named a known tool but its arguments are unusable; the text
    /// becomes the call's result so the model can react.
    InvalidArguments(String),
    /// The call named a tool this client does not have.
    Unknown(String),
}

/// Mathematical image of a [`ToolAction`].
pub ghost enum ToolActionView {
    RunShell(ShellArgsView),
    ReadFile(ReadFileArgsView),
    WriteFile(WriteFileArgsView),
    InvalidArguments(Seq<char>),
    Unknown(Seq<char>),
}

impl DeepView for ToolAction {
    type V = ToolActionView;

    open spec fn deep_view(&self) -> ToolActionView {
        match self {
            ToolAction::RunShell(a) => ToolActionView::RunShell(a.deep_view()),
            ToolAction::ReadFile(a) => ToolActionView::ReadFile(a.deep_view()),
            ToolAction::WriteFile(a) => ToolActionView::WriteFile(a.deep_view()),
            ToolAction::InvalidArguments(e) => ToolActionView::InvalidArguments(e@),
            ToolAction::Unknown(n) => ToolActionView::Unknown(n@),
        }
    }
}

/// The action a call with the given tool name and argument text asks for:
/// the tool is picked by name, its arguments are the named fields of the
/// JSON text, a missing required field turns the call into an invalid-
/// arguments result, and an unrecognised name is reported as unknown.
pub open spec fn spec_plan_tool_call(name: Seq<char>, args: Seq<char>) -> ToolActionView {
    if name == "execute_shell"@ {
        match spec_string_field(args, "command"@) {
            Some(command) => ToolActionView::RunShell(
                ShellArgsView {
                    command,
                    reason: crate::compact::spec_opt_text(spec_string_field(args, "reason"@)),
                },
            ),
            None => ToolActionView::InvalidArguments("Missing required argument: command"@),
        }
    } else if name == "read_file"@ {
        match spec_string_field(args, "path"@) {
            Some(path) => ToolActionView::ReadFile(
                ReadFileArgsView {
                    path,
                    start_line: spec_opt_usize(spec_u64_field(args, "start_line"@)),
                    end_line: spec_opt_usize(spec_u64_field(args, "end_line"@)),
                },
            ),
            None => ToolActionView::InvalidArguments("Missing required argument: path"@),
        }
    } else if name == "write_file"@ {
        match spec_string_field(args, "path"@) {
            Some(path) => match spec_string_field(args, "content"@) {
                Some(content) => ToolActionView::WriteFile(
                    WriteFileArgsView {
                        path,
                        content,
                        mode: spec_string_field(args, "mode"@),
                        start_line: spec_opt_usize(spec_u64_field(args, "start_line"@)),
                        end_line: spec_opt_usize(spec_u64_field(args, "end_line"@)),
                    },
                ),
                None => ToolActionView::InvalidArguments("Missing required argument: content"@),
            },
            None => ToolActionView::InvalidArguments("Missing required argument: path"@),
        }
    } else {
        ToolActionView::Unknown(name)
    }
}

/// Decides what one tool call asks for.  The tool is picked by name; its
/// arguments are extracted from the call's JSON text, and a known tool with
/// unusable arguments becomes an [`ToolAction::InvalidArguments`] result
/// rather than an error.
pub fn plan_tool_call(call: &ToolCall) -> (r: ToolAction)
    ensures
        r.deep_view() == spec_plan_tool_call(call.function.name@, call.function.arguments@),
{
    proof {
        reveal_strlit("execute_shell");
        reveal_strlit("read_file");
        reveal_strlit("write_file");
        assert("execute_shell"@.len() == 13);
        assert("read_file"@.len() == 9);
        assert("write_file"@.len() == 10);
    }
    let name = call.function.name.as_str();
    let arguments = call.function.arguments.as_str();
    if str_eq(name, "execute_shell") {
        let command = json_string_field(arguments, "command");
        let reason = json_string_field(arguments, "reason");
        match shell_args_from(command, reason) {
            Ok(a) => ToolAction::RunShell(a),
            Err(e) => ToolAction::InvalidArguments(e),
        }
    } else if str_eq(name, "read_file") {
        let path = json_string_field(arguments, "path");
        let start_line = json_u64_field(arguments, "start_line");
        let end_line = json_u64_field(arguments, "end_line");
        match read_file_args_from(path, start_line, end_line) {
            Ok(a) => ToolAction::ReadFile(a),
            Err(e) => ToolAction::InvalidArguments(e),
        }
    } else if str_eq(name, "write_file") {
        let path = json_string_field(arguments, "path");
        let content = json_string_field(arguments, "content");
        let mode = json_string_field(arguments, "mode");
        let start_line = json_u64_field(arguments, "start_line");
        let end_line = json_u64_field(arguments, "end_line");
        match write_file_args_from(path, content, mode, start_line, end_line) {
            Ok(a) => ToolAction::WriteFile(a),
            Err(e) => ToolAction::InvalidArguments(e),
        }
    } else {
        ToolAction::Unknown(call.function.name.clone())
    }
}

} // verus!
