//! Shell-tool result handling: trimming oversized command output under the
//! configured limit, and composing the result text a tool call records.

use vstd::prelude::*;
use vstd::utf8::{decode_utf8, encode_utf8, is_char_boundary};

use crate::limits::{OutputLimit, TrimMethod};
use crate::text::{
    clone_string_range, join_with, spec_dec, spec_dec_int, spec_join, spec_lines, split_lines,
    i64_to_dec, u64_to_dec,
};

verus! {

/// The notice appended when only the first lines of an output are kept.
pub open spec fn spec_head_notice(kept: nat, total: nat) -> Seq<char> {
    "\n... [Output truncated: showing first "@ + spec_dec(kept) + " lines of "@ + spec_dec(total)
        + "]"@
}

/// The notice prepended when only the last lines of an output are kept.
pub open spec fn spec_tail_notice(kept: nat, total: nat) -> Seq<char> {
    "... [Output truncated: showing last "@ + spec_dec(kept) + " lines of "@ + spec_dec(total)
        + "]\n"@
}

/// The notice appended when an output is cut at a byte offset.
pub open spec fn spec_bytes_notice(max: nat) -> Seq<char> {
    "\n... [Output truncated at "@ + spec_dec(max) + " bytes]"@
}

/// Output trimmed under the limit: disabled at size zero; head keeps the
/// first `max_size / 80` lines with a trailing notice; tail keeps the last
/// that many lines with a leading notice; bytes cuts at the byte offset
/// with a trailing notice.  Output within the limit passes unchanged.
pub open spec fn spec_trim_output(s: Seq<char>, limit: OutputLimit) -> Seq<char> {
    if limit.max_size == 0 {
        s
    } else {
        match limit.method {
            TrimMethod::Head => {
                let lines = spec_lines(s);
                let max_lines = limit.max_size as nat / 80;
                if lines.len() > max_lines {
                    spec_join(lines.take(max_lines as int), "\n"@) + spec_head_notice(
                        max_lines,
                        lines.len(),
                    )
                } else {
                    s
                }
            },
            TrimMethod::Tail => {
                let lines = spec_lines(s);
                let max_lines = limit.max_size as nat / 80;
                if lines.len() > max_lines {
                    spec_tail_notice(max_lines, lines.len()) + spec_join(
                        lines.skip(lines.len() - max_lines),
                        "\n"@,
                    )
                } else {
                    s
                }
            },
            TrimMethod::Bytes => {
                if encode_utf8(s).len() > limit.max_size {
                    decode_utf8(encode_utf8(s).take(limit.max_size as int)) + spec_bytes_notice(
                        limit.max_size as nat,
                    )
                } else {
                    s
                }
            },
        }
    }
}

/// Trims command output under the limit.  A byte-mode cut must fall on a
/// character boundary; the caller checks before calling.
pub fn trim_output(output: &str, limit: &OutputLimit) -> (r: String)
    requires
        (limit.method == TrimMethod::Bytes && limit.max_size > 0 && encode_utf8(output@).len()
            > limit.max_size) ==> is_char_boundary(encode_utf8(output@), limit.max_size as int),
    ensures
        r@ == spec_trim_output(output@, *limit),
{
    if limit.max_size == 0 {
        return output.to_owned();
    }
    match limit.method {
        TrimMethod::Head => {
            let lines = split_lines(output);
            let max_lines = limit.max_size / 80;
            if lines.len() > max_lines {
                let kept = clone_string_range(&lines, 0, max_lines);
                proof {
                    assert(kept.deep_view() =~= spec_lines(output@).take(max_lines as int));
                }
                let mut r = join_with(&kept, "\n");
                r.append("\n... [Output truncated: showing first ");
                r.append(u64_to_dec(max_lines as u64).as_str());
                r.append(" lines of ");
                r.append(u64_to_dec(lines.len() as u64).as_str());
                r.append("]");
                proof {
                    assert(r@ =~= spec_trim_output(output@, *limit));
                }
                r
            } else {
                output.to_owned()
            }
        },
        TrimMethod::Tail => {
            let lines = split_lines(output);
            let max_lines = limit.max_size / 80;
            if lines.len() > max_lines {
                let kept = clone_string_range(&lines, lines.len() - max_lines, lines.len());
                proof {
                    assert(kept.deep_view() =~= spec_lines(output@).skip(
                        spec_lines(output@).len() - max_lines,
                    ));
                }
                let mut r = "... [Output truncated: showing last ".to_owned();
                r.append(u64_to_dec(max_lines as u64).as_str());
                r.append(" lines of ");
                r.append(u64_to_dec(lines.len() as u64).as_str());
                r.append("]\n");
                r.append(join_with(&kept, "\n").as_str());
                proof {
                    assert(r@ =~= spec_trim_output(output@, *limit));
                }
                r
            } else {
                output.to_owned()
            }
        },
        TrimMethod::Bytes => {
            let byte_len = output.as_bytes().len();
            if byte_len > limit.max_size {
                let halves = output.split_at(limit.max_size);
                let head = halves.0;
                let mut r = head.to_owned();
                r.append("\n... [Output truncated at ");
                r.append(u64_to_dec(limit.max_size as u64).as_str());
                r.append(" bytes]");
                proof {
                    vstd::utf8::encode_utf8_decode_utf8(head@);
                    assert(encode_utf8(head@) =~= encode_utf8(output@).take(
                        limit.max_size as int,
                    ));
                    assert(head@ == decode_utf8(encode_utf8(output@).take(limit.max_size as int)));
                    assert(r@ =~= spec_trim_output(output@, *limit));
                }
                r
            } else {
                output.to_owned()
            }
        },
    }
}

/// The result text of a failed command: its exit code, or -1 when the code
/// is unknown, and what it wrote to standard error.
pub open spec fn spec_command_failure_text(exit_code: Option<i32>, stderr: Seq<char>) -> Seq<
    char,
> {
    "Command failed with exit code "@ + spec_dec_int(
        match exit_code {
            Some(c) => c as int,
            None => -1,
        },
    ) + ": "@ + stderr
}

/// The result text a shell-tool execution records: on failure the exit code
/// and standard error; on success standard output trimmed under the limit.
pub fn command_result_text(
    exit_success: bool,
    exit_code: Option<i32>,
    stdout: &str,
    stderr: &str,
    limit: &OutputLimit,
) -> (r: String)
    requires
        (exit_success && limit.method == TrimMethod::Bytes && limit.max_size > 0 && encode_utf8(
            stdout@,
        ).len() > limit.max_size) ==> is_char_boundary(
            encode_utf8(stdout@),
            limit.max_size as int,
        ),
    ensures
        !exit_success ==> r@ == spec_command_failure_text(exit_code, stderr@),
        exit_success ==> r@ == spec_trim_output(stdout@, *limit),
{
    if !exit_success {
        let code: i64 = match exit_code {
            Some(c) => c as i64,
            None => -1,
        };
        let mut r = "Command failed with exit code ".to_owned();
        r.append(i64_to_dec(code).as_str());
        r.append(": ");
        r.append(stderr);
        proof {
            assert(r@ =~= spec_command_failure_text(exit_code, stderr@));
        }
        r
    } else {
        trim_output(stdout, limit)
    }
}

/// The schema text of the shell tool, as the backend's function-calling
/// interface takes it.
pub open spec fn spec_shell_tool_schema() -> Seq<char> {
    "{\"type\":\"function\",\"function\":{\"name\":\"execute_shell\",\"description\":\"Execute a shell command on the system\",\"parameters\":{\"type\":\"object\",\"properties\":{\"command\":{\"type\":\"string\",\"description\":\"The shell command to execute\"},\"reason\":{\"type\":\"string\",\"description\":\"The reason the agent needs to use this command\"}},\"required\":[\"command\",\"reason\"]}}}"@
}

/// The tool-catalog entry for running shell commands.
pub fn create_shell_tool() -> (r: String)
    ensures
        r@ == spec_shell_tool_schema(),
{
    "{\"type\":\"function\",\"function\":{\"name\":\"execute_shell\",\"description\":\"Execute a shell command on the system\",\"parameters\":{\"type\":\"object\",\"properties\":{\"command\":{\"type\":\"string\",\"description\":\"The shell command to execute\"},\"reason\":{\"type\":\"string\",\"description\":\"The reason the agent needs to use this command\"}},\"required\":[\"command\",\"reason\"]}}}".to_owned()
}

/// The schema text of the file-reading tool.
pub open spec fn spec_read_file_tool_schema() -> Seq<char> {
    "{\"type\":\"function\",\"function\":{\"name\":\"read_file\",\"description\":\"Read lines from a file\",\"parameters\":{\"type\":\"object\",\"properties\":{\"path\":{\"type\":\"string\",\"description\":\"Path to the file to read\"},\"start_line\":{\"type\":\"integer\",\"description\":\"Starting line number (1-based, optional)\"},\"end_line\":{\"type\":\"integer\",\"description\":\"Ending line number (1-based, optional)\"}},\"required\":[\"path\"]}}}"@
}

/// The tool-catalog entry for reading files.
pub fn create_read_file_tool() -> (r: String)
    ensures
        r@ == spec_read_file_tool_schema(),
{
    "{\"type\":\"function\",\"function\":{\"name\":\"read_file\",\"description\":\"Read lines from a file\",\"parameters\":{\"type\":\"object\",\"properties\":{\"path\":{\"type\":\"string\",\"description\":\"Path to the file to read\"},\"start_line\":{\"type\":\"integer\",\"description\":\"Starting line number (1-based, optional)\"},\"end_line\":{\"type\":\"integer\",\"description\":\"Ending line number (1-based, optional)\"}},\"required\":[\"path\"]}}}".to_owned()
}

/// The schema text of the file-writing tool.
pub open spec fn spec_write_file_tool_schema() -> Seq<char> {
    "{\"type\":\"function\",\"function\":{\"name\":\"write_file\",\"description\":\"Write content to a file\",\"parameters\":{\"type\":\"object\",\"properties\":{\"path\":{\"type\":\"string\",\"description\":\"Path to the file to write\"},\"content\":{\"type\":\"string\",\"description\":\"Content to write to the file\"},\"mode\":{\"type\":\"string\",\"enum\":[\"overwrite\",\"append\",\"insert\",\"replace\"],\"description\":\"Write mode: overwrite (default), append, insert at line, or replace line range\"},\"start_line\":{\"type\":\"integer\",\"description\":\"Starting line number for insert/replace operations (1-based)\"},\"end_line\":{\"type\":\"integer\",\"description\":\"End line number for replace operations (1-based)\"}},\"required\":[\"path\",\"content\"]}}}"@
}

/// The tool-catalog entry for writing files.
pub fn create_write_file_tool() -> (r: String)
    ensures
        r@ == spec_write_file_tool_schema(),
{
    "{\"type\":\"function\",\"function\":{\"name\":\"write_file\",\"description\":\"Write content to a file\",\"parameters\":{\"type\":\"object\",\"properties\":{\"path\":{\"type\":\"string\",\"description\":\"Path to the file to write\"},\"content\":{\"type\":\"string\",\"description\":\"Content to write to the file\"},\"mode\":{\"type\":\"string\",\"enum\":[\"overwrite\",\"append\",\"insert\",\"replace\"],\"description\":\"Write mode: overwrite (default), append, insert at line, or replace line range\"},\"start_line\":{\"type\":\"integer\",\"description\":\"Starting line number for insert/replace operations (1-based)\"},\"end_line\":{\"type\":\"integer\",\"description\":\"End line number for replace operations (1-based)\"}},\"required\":[\"path\",\"content\"]}}}".to_owned()
}

/// The result text recorded for a rejected tool call.
pub fn rejection_result_text(feedback: &str) -> (r: String)
    ensures
        r@ == "TOOL CALL REJECTED. Feedback/Reason: "@ + feedback@,
{
    let mut r = "TOOL CALL REJECTED. Feedback/Reason: ".to_owned();
    r.append(feedback);
    r
}

/// The result text recorded for a call to a tool this client does not have.
pub fn unknown_tool_result_text(name: &str) -> (r: String)
    ensures
        r@ == "Unknown tool: "@ + name@,
{
    let mut r = "Unknown tool: ".to_owned();
    r.append(name);
    r
}

} // verus!
