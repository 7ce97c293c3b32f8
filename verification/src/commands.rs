//! The orchestrator's decisions around a human turn: recognising session
//! commands in a line of input, assembling the system prompt, and priming a
//! session's history before the first request.

use vstd::prelude::*;

use crate::msg::{MessageView, OllamaChatMessage, Role};
use crate::store::{ApplicationState, ModelConfig, StateView};
use crate::text::{
    spec_starts_with, spec_trim, starts_with, str_eq, trim_ws,
};

verus! {

/// Mathematical image of a [`SessionCommand`].
pub ghost enum SessionCommandView {
    Quit,
    Save(Seq<char>),
    Editor,
    Tools,
    Reset,
    Trim,
    Compact,
    Send,
    Message(Seq<char>),
}

/// What one line of human input asks for: a session command, or a new user
/// message.
#[derive(Debug)]
pub enum SessionCommand {
    /// End the session, saving it when it has a name.
    Quit,
    /// Save the session under the given name.
    Save(String),
    /// Open the session in an editor.
    Editor,
    /// Probe the last assistant message for tool calls.
    Tools,
    /// Reset the history to its first message.
    Reset,
    /// Trim the history locally.
    Trim,
    /// Compact the history through the backend.
    Compact,
    /// Send the history as it stands, without a new message.
    Send,
    /// An ordinary user message.
    Message(String),
}

impl DeepView for SessionCommand {
    type V = SessionCommandView;

    open spec fn deep_view(&self) -> SessionCommandView {
        match self {
            SessionCommand::Quit => SessionCommandView::Quit,
            SessionCommand::Save(n) => SessionCommandView::Save(n@),
            SessionCommand::Editor => SessionCommandView::Editor,
            SessionCommand::Tools => SessionCommandView::Tools,
            SessionCommand::Reset => SessionCommandView::Reset,
            SessionCommand::Trim => SessionCommandView::Trim,
            SessionCommand::Compact => SessionCommandView::Compact,
            SessionCommand::Send => SessionCommandView::Send,
            SessionCommand::Message(m) => SessionCommandView::Message(m@),
        }
    }
}

/// The command one trimmed line of input names; any other line is a new
/// user message holding the trimmed text.
pub open spec fn spec_parse_session_command(s: Seq<char>) -> SessionCommandView {
    let t = spec_trim(s);
    if t == "/quit"@ || t == "/exit"@ || t == "/done"@ {
        SessionCommandView::Quit
    } else if spec_starts_with(t, "/save"@) {
        SessionCommandView::Save(spec_trim(t.skip("/save"@.len() as int)))
    } else if t == "/edit"@ || t == "/editor"@ {
        SessionCommandView::Editor
    } else if t == "/tools"@ {
        SessionCommandView::Tools
    } else if t == "/reset"@ {
        SessionCommandView::Reset
    } else if t == "/trim"@ {
        SessionCommandView::Trim
    } else if t == "/compact"@ {
        SessionCommandView::Compact
    } else if t == "/send"@ {
        SessionCommandView::Send
    } else {
        SessionCommandView::Message(t)
    }
}

/// Recognises the session command a line of input names.
pub fn parse_session_command(input: &str) -> (c: SessionCommand)
    ensures
        c.deep_view() == spec_parse_session_command(input@),
{
    let trimmed = trim_ws(input);
    let t = trimmed.as_str();
    if str_eq(t, "/quit") || str_eq(t, "/exit") || str_eq(t, "/done") {
        SessionCommand::Quit
    } else if starts_with(t, "/save") {
        proof {
            reveal_strlit("/save");
        }
        let rest = t.substring_char(5, t.unicode_len());
        proof {
            assert(rest@ =~= t@.skip(5));
        }
        SessionCommand::Save(trim_ws(rest))
    } else if str_eq(t, "/edit") || str_eq(t, "/editor") {
        SessionCommand::Editor
    } else if str_eq(t, "/tools") {
        SessionCommand::Tools
    } else if str_eq(t, "/reset") {
        SessionCommand::Reset
    } else if str_eq(t, "/trim") {
        SessionCommand::Trim
    } else if str_eq(t, "/compact") {
        SessionCommand::Compact
    } else if str_eq(t, "/send") {
        SessionCommand::Send
    } else {
        SessionCommand::Message(trimmed)
    }
}

/// The agent instructions used when the model configuration brings no
/// system prompt of its own.
pub open spec fn spec_default_agent_prompt() -> Seq<char> {
    "You are working in the current directory, which is a codebase. Your role is to efficiently manage files and run commands. Here are your instructions:\n\n1. **Use Dedicated File Tools**: ALWAYS use read_file for reading files and write_file for modifications. These tools are more reliable than shell commands for file operations.\n\n2. **Focus on Specific Files and Lines**: Use read_file with line ranges to examine specific parts of files. Use write_file with insert/replace modes for targeted changes.\n\n3. **Surgical Code Changes**: Make precise changes using write_file's replace mode for specific line ranges, or insert mode to add new code at exact locations.\n\n4. **Shell Commands for Non-File Tasks**: Use execute_shell only for compilation, git operations, directory listing, and other non-file tasks.\n\n5. **Compile and Test**: After file changes, use execute_shell for compilation (make, cargo, gcc, python) and testing.\n\n6. **Loop Through Operations**: Read files to understand code, make targeted changes with write_file, then compile/test with execute_shell.\n\n7. **Version Control**: Use execute_shell for git operations - commits, branches, status checks.\n\n8. **Error Handling**: If operations fail, use read_file to examine error logs or configuration files, then use write_file to fix issues.\n\n9. **Efficiency**: Minimize context by reading only necessary file sections and making targeted writes rather than rewriting entire files.\n\n10. **File Tool Priority**: Remember - read_file and write_file are your primary tools. Use execute_shell as a secondary tool for everything else.\n\nBy following these instructions, you will efficiently manage the codebase with precise file operations and minimal context growth.\n"@
}

/// The tool instructions appended when the model takes tools.
pub open spec fn spec_tools_prompt() -> Seq<char> {
    "You are an AI assistant with access to specialized file tools and shell commands. ALWAYS prefer the dedicated file tools over shell commands for reading and writing files:\n\n**PREFERRED FILE TOOLS:**\n- `read_file`: Read file contents or specific line ranges. Use this instead of `cat`, `head`, `tail`, or `less`.\n- `write_file`: Write, append, insert, or replace file content. Use this instead of `echo >`, `sed`, `awk`, or text editors.\n- `execute_shell`: Use only for operations that cannot be done with file tools (compilation, git, directory operations, etc.).\n\n**Shell commands for non-file operations:**\n- `ls`: List directory contents.\n- `git`: Version control operations.\n- `make`, `cargo`, `gcc`: Build and compilation.\n- `grep`: Search within command output (not files - use read_file + search).\n- `find`: Locate files and directories.\n- `chmod`, `chown`: File permissions.\n- `curl`, `ssh`, `scp`: Network operations.\n\n**IMPORTANT:** Always work within the current or project directory. Always use read_file for reading files and write_file for modifications. Only use shell commands when the file tools cannot accomplish the task.\n"@
}

/// The reminder inserted into a session resumed with existing history.
pub open spec fn spec_reminder_text() -> Seq<char> {
    "REMINDER: You have access to execute_shell, read_file, and write_file tools. Use them to run commands and manage files."@
}

/// The system prompt of a session: the model's own prompt or the default
/// agent instructions, then the project context if any, then the tool
/// instructions when the model takes tools.
pub open spec fn spec_system_content(
    custom: Option<Seq<char>>,
    agent_context: Option<Seq<char>>,
    tools_enabled: bool,
) -> Seq<char> {
    (match custom {
        Some(c) => c,
        None => spec_default_agent_prompt(),
    }) + (match agent_context {
        Some(cx) => "\n\n## Project Context\n"@ + cx,
        None => Seq::empty(),
    }) + (if tools_enabled {
        spec_tools_prompt()
    } else {
        Seq::empty()
    })
}

/// Assembles the system prompt from the model configuration, the optional
/// project-context text, and whether the model takes tools.
pub fn build_system_content(model_config: &ModelConfig, agent_context: Option<&str>) -> (r:
    String)
    ensures
        r@ == spec_system_content(
            model_config.deep_view().system_prompt,
            agent_context.deep_view(),
            model_config.tools,
        ),
{
    let mut r: String = match &model_config.system_prompt {
        Some(c) => c.clone(),
        None => "You are working in the current directory, which is a codebase. Your role is to efficiently manage files and run commands. Here are your instructions:\n\n1. **Use Dedicated File Tools**: ALWAYS use read_file for reading files and write_file for modifications. These tools are more reliable than shell commands for file operations.\n\n2. **Focus on Specific Files and Lines**: Use read_file with line ranges to examine specific parts of files. Use write_file with insert/replace modes for targeted changes.\n\n3. **Surgical Code Changes**: Make precise changes using write_file's replace mode for specific line ranges, or insert mode to add new code at exact locations.\n\n4. **Shell Commands for Non-File Tasks**: Use execute_shell only for compilation, git operations, directory listing, and other non-file tasks.\n\n5. **Compile and Test**: After file changes, use execute_shell for compilation (make, cargo, gcc, python) and testing.\n\n6. **Loop Through Operations**: Read files to understand code, make targeted changes with write_file, then compile/test with execute_shell.\n\n7. **Version Control**: Use execute_shell for git operations - commits, branches, status checks.\n\n8. **Error Handling**: If operations fail, use read_file to examine error logs or configuration files, then use write_file to fix issues.\n\n9. **Efficiency**: Minimize context by reading only necessary file sections and making targeted writes rather than rewriting entire files.\n\n10. **File Tool Priority**: Remember - read_file and write_file are your primary tools. Use execute_shell as a secondary tool for everything else.\n\nBy following these instructions, you will efficiently manage the codebase with precise file operations and minimal context growth.\n".to_owned(),
    };
    if let Some(cx) = agent_context {
        r.append("\n\n## Project Context\n");
        r.append(cx);
    }
    if model_config.tools {
        r.append(
            "You are an AI assistant with access to specialized file tools and shell commands. ALWAYS prefer the dedicated file tools over shell commands for reading and writing files:\n\n**PREFERRED FILE TOOLS:**\n- `read_file`: Read file contents or specific line ranges. Use this instead of `cat`, `head`, `tail`, or `less`.\n- `write_file`: Write, append, insert, or replace file content. Use this instead of `echo >`, `sed`, `awk`, or text editors.\n- `execute_shell`: Use only for operations that cannot be done with file tools (compilation, git, directory operations, etc.).\n\n**Shell commands for non-file operations:**\n- `ls`: List directory contents.\n- `git`: Version control operations.\n- `make`, `cargo`, `gcc`: Build and compilation.\n- `grep`: Search within command output (not files - use read_file + search).\n- `find`: Locate files and directories.\n- `chmod`, `chown`: File permissions.\n- `curl`, `ssh`, `scp`: Network operations.\n\n**IMPORTANT:** Always work within the current or project directory. Always use read_file for reading files and write_file for modifications. Only use shell commands when the file tools cannot accomplish the task.\n",
        );
    }
    proof {
        assert(r@ =~= spec_system_content(
            model_config.deep_view().system_prompt,
            agent_context.deep_view(),
            model_config.tools,
        ));
    }
    r
}

impl ApplicationState {
    /// Primes the history before the first request of a sitting: an empty
    /// history gets the system prompt; a resumed one gets a reminder about
    /// the tools inserted after its first message.
    pub fn prime_session(&mut self, sys_content: String)
        ensures
            final(self).deep_view() == (StateView {
                messages: if old(self).deep_view().messages.len() == 0 {
                    seq![
                        MessageView {
                            role: Role::System,
                            content: sys_content@,
                            tool_calls: None,
                            tool_name: None,
                            tool_call_id: None,
                        },
                    ]
                } else {
                    old(self).deep_view().messages.insert(
                        1,
                        MessageView {
                            role: Role::System,
                            content: spec_reminder_text(),
                            tool_calls: None,
                            tool_name: None,
                            tool_call_id: None,
                        },
                    )
                },
                ..old(self).deep_view()
            }),
    {
        let ghost before = self.messages.deep_view();
        if self.messages.len() == 0 {
            self.messages.push(OllamaChatMessage::plain(Role::System, sys_content));
            proof {
                assert(self.messages.deep_view() =~= before.push(
                    self.messages.deep_view().last(),
                ));
                assert(before.push(self.messages.deep_view().last()) =~= seq![
                    self.messages.deep_view().last(),
                ]);
            }
        } else {
            let reminder = OllamaChatMessage::plain(
                Role::System,
                "REMINDER: You have access to execute_shell, read_file, and write_file tools. Use them to run commands and manage files.".to_owned(),
            );
            let ghost rv = reminder.deep_view();
            self.messages.insert(1, reminder);
            proof {
                assert(self.messages.deep_view() =~= before.insert(1, rv));
            }
        }
    }
}

} // verus!
