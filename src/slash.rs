//! The slash commands: what each one does with its arguments, and the output
//! shown in the editor.
use vstd::prelude::*;
use vstd::string::*;
use crate::extension::{GitLabDuoExtension, string_views};
use crate::text::same_text;

verus! {

/// A labelled part of a command's output, given as a byte range of the text.
pub struct SlashCommandOutputSection {
    pub start: usize,
    pub end: usize,
    pub label: String,
}

/// The text that a slash command puts into the editor, with its sections.
pub struct SlashCommandOutput {
    pub text: String,
    pub sections: Vec<SlashCommandOutputSection>,
}

/// A completion offered for a slash command's argument.
pub struct SlashCommandArgumentCompletion {
    pub label: String,
    pub new_text: String,
    pub run_command: bool,
}

/// What a request to GitLab Duo asks for.
#[derive(PartialEq, Eq, Structural, Clone, Copy, Debug)]
pub enum DuoCommand {
    Ask,
    Refactor,
    GenerateTests,
}

/// A file sent along with a request.
pub struct FileContext {
    pub path: String,
    pub content: String,
}

/// What a slash command does next.
pub enum SlashStep {
    /// Show this output; nothing is sent.
    Reply(SlashCommandOutput),
    /// Send this text as a question.
    Ask(String),
    /// Read the file at this path, then send it for the command.
    ReadFile(DuoCommand, String),
}

/// An output of text alone, with no sections.
pub open spec fn plain_output(o: SlashCommandOutput, text: Seq<char>) -> bool {
    o.text@ == text && o.sections@.len() == 0
}

/// The arguments joined by single spaces.
pub open spec fn joined(args: Seq<Seq<char>>) -> Seq<char>
    decreases args.len(),
{
    if args.len() == 0 {
        Seq::empty()
    } else if args.len() == 1 {
        args[0]
    } else {
        joined(args.drop_last()) + seq![' '] + args.last()
    }
}

pub open spec fn worktree_message(name: Seq<char>) -> Seq<char> {
    "Worktree is required for "@ + name + " command"@
}

pub open spec fn unknown_command_message(name: Seq<char>) -> Seq<char> {
    "Unknown slash command: "@ + name
}

pub open spec fn ask_usage() -> Seq<char> {
    "Please provide code or text to ask about after the command, e.g.: /duo-ask function myFunction() { ... }"@
}

pub open spec fn ask_empty() -> Seq<char> {
    "Please provide code or text to ask about."@
}

pub open spec fn refactor_usage() -> Seq<char> {
    "Please provide a file path to refactor, e.g.: /duo-refactor src/main.rs"@
}

pub open spec fn generate_tests_usage() -> Seq<char> {
    "Please provide a file path to generate tests for, e.g.: /duo-generate-tests src/main.rs"@
}

pub open spec fn read_failure_message(path: Seq<char>, e: Seq<char>) -> Seq<char> {
    "Failed to read file '"@ + path + "': "@ + e
}

pub open spec fn empty_file_message(path: Seq<char>) -> Seq<char> {
    "The file '"@ + path + "' is empty."@
}

pub open spec fn is_known_command(name: Seq<char>) -> bool {
    name == "duo-ask"@ || name == "duo-refactor"@ || name == "duo-generate-tests"@
}

/// `args` joined by single spaces.
pub fn join_args(args: &Vec<String>) -> (r: String)
    ensures
        r@ == joined(string_views(args@)),
{
    let ghost v = string_views(args@);
    let mut out = String::new();
    let mut i: usize = 0;
    while i < args.len()
        invariant
            v == string_views(args@),
            i <= args@.len(),
            out@ == joined(v.take(i as int)),
        decreases args@.len() - i,
    {
        assert(v.take(i + 1).drop_last() =~= v.take(i as int));
        proof {
            reveal_strlit(" ");
        }
        if i > 0 {
            out.append(" ");
        }
        out.append(args[i].as_str());
        proof {
            assert(v[i as int] == args@[i as int]@);
            assert(v.take(i + 1).last() == v[i as int]);
            if i == 0 {
                assert(out@ =~= joined(v.take(1)));
            } else {
                assert(joined(v.take(i + 1)) == joined(v.take(i as int)) + seq![' '] + v[i as int]);
                assert(out@ =~= joined(v.take(i + 1)));
            }
        }
        i = i + 1;
    }
    assert(v.take(i as int) =~= v);
    out
}

/// `a` followed by `b` and `c`.
pub fn concat3(a: &str, b: &str, c: &str) -> (r: String)
    ensures
        r@ == a@ + b@ + c@,
{
    let mut s = a.to_string();
    s.append(b);
    s.append(c);
    s
}

impl SlashCommandOutput {
    /// An output of `text` alone.
    pub fn plain(text: String) -> (r: SlashCommandOutput)
        ensures
            plain_output(r, text@),
    {
        SlashCommandOutput { text, sections: Vec::new() }
    }
}

impl GitLabDuoExtension {
    /// Decides what the slash command `name` does with `args`: a request
    /// needs a worktree, `duo-ask` needs some text and the file commands a
    /// path.
    pub fn plan_slash_command(&self, name: &str, args: &Vec<String>, has_worktree: bool) -> (r:
        Result<SlashStep, String>)
        ensures
            !is_known_command(name@) ==> (r matches Err(e) && e@ == unknown_command_message(name@)),
            is_known_command(name@) && !has_worktree ==> (r matches Err(e) && e@
                == worktree_message(name@)),
            name@ == "duo-ask"@ && has_worktree ==> {
                if args@.len() == 0 {
                    r matches Ok(SlashStep::Reply(o)) && plain_output(o, ask_usage())
                } else if joined(string_views(args@)).len() == 0 {
                    r matches Ok(SlashStep::Reply(o)) && plain_output(o, ask_empty())
                } else {
                    r matches Ok(SlashStep::Ask(c)) && c@ == joined(string_views(args@))
                }
            },
            name@ == "duo-refactor"@ && has_worktree ==> {
                if args@.len() == 0 {
                    r matches Ok(SlashStep::Reply(o)) && plain_output(o, refactor_usage())
                } else {
                    r matches Ok(SlashStep::ReadFile(k, p)) && k == DuoCommand::Refactor && p@
                        == args@[0]@
                }
            },
            name@ == "duo-generate-tests"@ && has_worktree ==> {
                if args@.len() == 0 {
                    r matches Ok(SlashStep::Reply(o)) && plain_output(o, generate_tests_usage())
                } else {
                    r matches Ok(SlashStep::ReadFile(k, p)) && k == DuoCommand::GenerateTests
                        && p@ == args@[0]@
                }
            },
    {
        proof {
            reveal_strlit("duo-ask");
            reveal_strlit("duo-refactor");
            reveal_strlit("duo-generate-tests");
            assert("duo-ask"@.len() == 7);
            assert("duo-refactor"@.len() == 12);
            assert("duo-generate-tests"@.len() == 18);
        }
        let ask = same_text(name, "duo-ask");
        let refactor = same_text(name, "duo-refactor");
        let generate = same_text(name, "duo-generate-tests");
        if !ask && !refactor && !generate {
            let mut e = "Unknown slash command: ".to_string();
            e.append(name);
            return Err(e);
        }
        if !has_worktree {
            return Err(concat3("Worktree is required for ", name, " command"));
        }
        if ask {
            if args.len() == 0 {
                return Ok(
                    SlashStep::Reply(
                        SlashCommandOutput::plain(
                            "Please provide code or text to ask about after the command, e.g.: /duo-ask function myFunction() { ... }".to_string(),
                        ),
                    ),
                );
            }
            let content = join_args(args);
            if content.as_str().is_empty() {
                return Ok(
                    SlashStep::Reply(
                        SlashCommandOutput::plain(
                            "Please provide code or text to ask about.".to_string(),
                        ),
                    ),
                );
            }
            Ok(SlashStep::Ask(content))
        } else if refactor {
            if args.len() == 0 {
                return Ok(
                    SlashStep::Reply(
                        SlashCommandOutput::plain(
                            "Please provide a file path to refactor, e.g.: /duo-refactor src/main.rs".to_string(),
                        ),
                    ),
                );
            }
            Ok(SlashStep::ReadFile(DuoCommand::Refactor, args[0].clone()))
        } else {
            if args.len() == 0 {
                return Ok(
                    SlashStep::Reply(
                        SlashCommandOutput::plain(
                            "Please provide a file path to generate tests for, e.g.: /duo-generate-tests src/main.rs".to_string(),
                        ),
                    ),
                );
            }
            Ok(SlashStep::ReadFile(DuoCommand::GenerateTests, args[0].clone()))
        }
    }

    /// The file to send, from the outcome of reading `path`: a failed read
    /// or an empty file gives the output to show instead.
    pub fn file_context(&self, path: &str, read: Result<String, String>) -> (r: Result<
        FileContext,
        SlashCommandOutput,
    >)
        ensures
            read matches Err(e) ==> (r matches Err(o) && plain_output(
                o,
                read_failure_message(path@, e@),
            )),
            read matches Ok(c) ==> if c@.len() == 0 {
                r matches Err(o) && plain_output(o, empty_file_message(path@))
            } else {
                r matches Ok(f) && f.path@ == path@ && f.content == c
            },
    {
        match read {
            Err(e) => {
                let mut m = concat3("Failed to read file '", path, "': ");
                m.append(e.as_str());
                Err(SlashCommandOutput::plain(m))
            },
            Ok(content) => {
                if content.as_str().is_empty() {
                    Err(SlashCommandOutput::plain(concat3("The file '", path, "' is empty.")))
                } else {
                    Ok(FileContext { path: path.to_string(), content })
                }
            },
        }
    }

    /// The completions for a slash command's argument: none for the known
    /// commands, whose arguments are free text or a path.
    pub fn complete_slash_command_argument(&self, name: &str) -> (r: Result<
        Vec<SlashCommandArgumentCompletion>,
        String,
    >)
        ensures
            is_known_command(name@) ==> (r matches Ok(v) && v@.len() == 0),
            !is_known_command(name@) ==> (r matches Err(e) && e@ == unknown_command_message(name@)),
    {
        if same_text(name, "duo-ask") || same_text(name, "duo-refactor") || same_text(
            name,
            "duo-generate-tests",
        ) {
            Ok(Vec::new())
        } else {
            let mut e = "Unknown slash command: ".to_string();
            e.append(name);
            Err(e)
        }
    }
}

} // verus!
