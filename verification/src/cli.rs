//! The command line: what an invocation asks for, and the texts it prints.
//!
//! `get <URL> [<PATH>]` downloads; `-h`, `--help`, `h`, `help` or no argument
//! at all shows the usage; `-v`, `--version`, `v`, `version` shows the
//! version.

use vstd::prelude::*;
use vstd::string::StringExecFns;
use crate::request::{DownloadRequest, RequestView};
use crate::target::resolved_target;

verus! {

/// What an invocation asks for.
#[derive(Debug, PartialEq, Eq)]
pub enum Command {
    /// Show how the tool is called.
    Usage,
    /// Show the tool's name and version.
    Version,
    /// Download what the request names.
    Download(DownloadRequest),
}

/// The mathematical content of a `Command`.
pub ghost enum CommandView {
    Usage,
    Version,
    Download(RequestView),
}

impl View for Command {
    type V = CommandView;

    open spec fn view(&self) -> CommandView {
        match self {
            Command::Usage => CommandView::Usage,
            Command::Version => CommandView::Version,
            Command::Download(request) => CommandView::Download(request@),
        }
    }
}

/// The arguments as texts.
pub open spec fn words(args: Seq<String>) -> Seq<Seq<char>> {
    Seq::new(args.len(), |i: int| args[i]@)
}

/// Whether `word` asks for the usage.
pub open spec fn asks_for_help(word: Seq<char>) -> bool {
    word == "-h"@ || word == "--help"@ || word == "h"@ || word == "help"@
}

/// Whether `word` asks for the version.
pub open spec fn asks_for_version(word: Seq<char>) -> bool {
    word == "-v"@ || word == "--version"@ || word == "v"@ || word == "version"@
}

/// What the arguments `args` ask for, `args[0]` being the program's own name:
/// the usage where there is no argument or the first one asks for help, the
/// version where it asks for that, and else a download of the first argument
/// to the second or, without a second, to the name derived from the first.
pub open spec fn command_for(args: Seq<Seq<char>>) -> CommandView {
    if args.len() <= 1 || asks_for_help(args[1]) {
        CommandView::Usage
    } else if asks_for_version(args[1]) {
        CommandView::Version
    } else {
        CommandView::Download(
            RequestView {
                url: args[1],
                path: resolved_target(
                    args[1],
                    if args.len() > 2 {
                        Some(args[2])
                    } else {
                        None
                    },
                ),
            },
        )
    }
}

fn is_word(word: &String, literal: &str) -> (same: bool)
    ensures
        same == (word@ == literal@),
{
    *word == String::from_str(literal)
}

/// Reads the arguments of an invocation, the program's own name first.
pub fn parse_args(args: &Vec<String>) -> (command: Command)
    ensures
        command@ == command_for(words(args@)),
{
    if args.len() <= 1 {
        return Command::Usage;
    }
    let first = &args[1];
    if is_word(first, "-h") || is_word(first, "--help") || is_word(first, "h") || is_word(
        first,
        "help",
    ) {
        return Command::Usage;
    }
    if is_word(first, "-v") || is_word(first, "--version") || is_word(first, "v") || is_word(
        first,
        "version",
    ) {
        return Command::Version;
    }
    let explicit = if args.len() > 2 {
        Some(args[2].as_str())
    } else {
        None
    };
    Command::Download(DownloadRequest::resolve(first.as_str(), explicit))
}

/// The usage text.
pub fn usage_text() -> (text: String)
    ensures
        text@ == "\nUsage: get <URL> <PATH>"@,
{
    String::from_str("\nUsage: get <URL> <PATH>")
}

/// The version text for the version number `version`.
pub fn version_text(version: &str) -> (text: String)
    ensures
        text@ == "\nget v"@ + version@,
{
    let mut text = String::from_str("\nget v");
    text.append(version);
    text
}

} // verus!
