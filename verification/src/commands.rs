//! The command surface: the closed set of commands the shell around this
//! library can dispatch to, their help text, and the parsing of one input
//! line into a command word and its arguments.
//!
//! Executing a command — reading files, writing the store, printing — is
//! the shell's affair; what is verified here is the surface itself: which
//! words name which command, and how an input line is split.

use vstd::prelude::*;

use crate::text::{split_words, str_eq, words_of};

verus! {

/// The closed set of commands.
#[derive(PartialEq, Eq, Structural, Clone, Copy, Debug)]
pub enum CommandId {
    /// Produce synthetic input files.
    Generate,
    /// Run the transform-and-load pipeline.
    Transform,
    /// Delete produced files and the store.
    Clean,
    /// Describe the commands.
    Help,
    /// Leave the interactive shell.
    Exit,
}

/// The word that names a command.
pub open spec fn spec_label(id: CommandId) -> Seq<char> {
    match id {
        CommandId::Generate => "generate"@,
        CommandId::Transform => "transform"@,
        CommandId::Clean => "clean"@,
        CommandId::Help => "help"@,
        CommandId::Exit => "exit"@,
    }
}

/// The shorter words that also name a command.
pub open spec fn spec_aliases(id: CommandId) -> Seq<Seq<char>> {
    match id {
        CommandId::Generate => seq!["g"@, "gen"@],
        CommandId::Transform => seq!["t"@],
        CommandId::Clean => seq!["c"@, "cl"@],
        CommandId::Help => seq!["h"@, "--help"@, "?"@],
        CommandId::Exit => seq!["q"@, "quit"@],
    }
}

/// This word names this command, as its label or as one of its aliases.
pub open spec fn word_names(id: CommandId, word: Seq<char>) -> bool {
    word == spec_label(id) || spec_aliases(id).contains(word)
}

/// The help surface of one command.
pub struct HelpInfo {
    /// The word that names the command.
    pub label: &'static str,
    /// The shorter words that also name it.
    pub aliases: Vec<&'static str>,
    /// One line on what the command does.
    pub description: &'static str,
    /// How an invocation is written.
    pub usage: &'static str,
}

/// The help surface of the given command. The label and aliases are the
/// words `find_command` dispatches on.
pub fn command_info(id: CommandId) -> (r: HelpInfo)
    ensures
        r.label@ == spec_label(id),
        r.aliases.deep_view() == spec_aliases(id),
{
    let r = match id {
        CommandId::Generate => HelpInfo {
            label: "generate",
            aliases: vec!["g", "gen"],
            description: "Generates synthetic input data (csv or ndjson).",
            usage: "generate [format]",
        },
        CommandId::Transform => HelpInfo {
            label: "transform",
            aliases: vec!["t"],
            description: "Processes records, applies the basic transformation, and loads 'storage.db'.",
            usage: "transform [format]",
        },
        CommandId::Clean => HelpInfo {
            label: "clean",
            aliases: vec!["c", "cl"],
            description: "Deletes the generated data directory and the store.",
            usage: "clean",
        },
        CommandId::Help => HelpInfo {
            label: "help",
            aliases: vec!["h", "--help", "?"],
            description: "Describes the commands.",
            usage: "help [command]",
        },
        CommandId::Exit => HelpInfo {
            label: "exit",
            aliases: vec!["q", "quit"],
            description: "Leaves the interactive shell.",
            usage: "exit",
        },
    };
    proof {
        assert(r.aliases.deep_view() =~= spec_aliases(id));
    }
    r
}

/// The contract every command signs: it can describe itself.
pub trait Command {
    /// Which command this is.
    spec fn id(&self) -> CommandId;

    /// The command's help surface.
    fn info(&self) -> (r: HelpInfo)
        ensures
            r.label@ == spec_label(self.id()),
            r.aliases.deep_view() == spec_aliases(self.id()),
    ;
}

/// Produce synthetic input files.
pub struct GenerateCommand;

impl Command for GenerateCommand {
    open spec fn id(&self) -> CommandId {
        CommandId::Generate
    }

    fn info(&self) -> (r: HelpInfo) {
        command_info(CommandId::Generate)
    }
}

/// Run the transform-and-load pipeline.
pub struct TransformCommand;

impl Command for TransformCommand {
    open spec fn id(&self) -> CommandId {
        CommandId::Transform
    }

    fn info(&self) -> (r: HelpInfo) {
        command_info(CommandId::Transform)
    }
}

/// Delete produced files and the store.
pub struct CleanCommand;

impl Command for CleanCommand {
    open spec fn id(&self) -> CommandId {
        CommandId::Clean
    }

    fn info(&self) -> (r: HelpInfo) {
        command_info(CommandId::Clean)
    }
}

/// Describe the commands.
pub struct HelpCommand;

impl Command for HelpCommand {
    open spec fn id(&self) -> CommandId {
        CommandId::Help
    }

    fn info(&self) -> (r: HelpInfo) {
        command_info(CommandId::Help)
    }
}

/// Leave the interactive shell.
pub struct ExitCommand;

impl Command for ExitCommand {
    open spec fn id(&self) -> CommandId {
        CommandId::Exit
    }

    fn info(&self) -> (r: HelpInfo) {
        command_info(CommandId::Exit)
    }
}

/// Every command, in the order the shell presents them.
pub fn get_all_commands() -> (r: Vec<CommandId>)
    ensures
        r@ == seq![
            CommandId::Generate,
            CommandId::Transform,
            CommandId::Clean,
            CommandId::Help,
            CommandId::Exit,
        ],
{
    let r = vec![
        CommandId::Generate,
        CommandId::Transform,
        CommandId::Clean,
        CommandId::Help,
        CommandId::Exit,
    ];
    proof {
        assert(r@ =~= seq![
            CommandId::Generate,
            CommandId::Transform,
            CommandId::Clean,
            CommandId::Help,
            CommandId::Exit,
        ]);
    }
    r
}

/// Does this word name this command?
pub fn command_matches(id: CommandId, word: &str) -> (r: bool)
    ensures
        r == word_names(id, word@),
{
    let info = command_info(id);
    if str_eq(word, info.label) {
        return true;
    }
    let n = info.aliases.len();
    let mut i: usize = 0;
    while i < n
        invariant
            n == info.aliases.len(),
            i <= n,
            info.aliases.deep_view() == spec_aliases(id),
            word@ != spec_label(id),
            forall|j: int| 0 <= j < i ==> spec_aliases(id)[j] != word@,
        decreases n - i,
    {
        if str_eq(word, info.aliases[i]) {
            proof {
                assert(spec_aliases(id)[i as int] == word@);
            }
            return true;
        }
        i += 1;
    }
    proof {
        if spec_aliases(id).contains(word@) {
            let j = choose|j: int| 0 <= j < spec_aliases(id).len() && spec_aliases(id)[j] == word@;
            assert(spec_aliases(id)[j] == word@);
        }
    }
    false
}

/// The command a word names, if any. Labels and aliases are disjoint
/// across commands, so at most one command answers to a word.
pub fn find_command(word: &str) -> (r: Option<CommandId>)
    ensures
        match r {
            Some(id) => word_names(id, word@),
            None => forall|id: CommandId| !word_names(id, word@),
        },
{
    let ids = get_all_commands();
    let n = ids.len();
    let mut i: usize = 0;
    while i < n
        invariant
            n == ids.len(),
            ids@ == seq![
                CommandId::Generate,
                CommandId::Transform,
                CommandId::Clean,
                CommandId::Help,
                CommandId::Exit,
            ],
            i <= n,
            forall|j: int| 0 <= j < i ==> !word_names(ids@[j], word@),
        decreases n - i,
    {
        let id = ids[i];
        if command_matches(id, word) {
            return Some(id);
        }
        i += 1;
    }
    proof {
        assert forall|id: CommandId| !word_names(id, word@) by {
            match id {
                CommandId::Generate => assert(ids@[0] == id),
                CommandId::Transform => assert(ids@[1] == id),
                CommandId::Clean => assert(ids@[2] == id),
                CommandId::Help => assert(ids@[3] == id),
                CommandId::Exit => assert(ids@[4] == id),
            }
        }
    }
    None
}

/// One input line split into the command word and its arguments.
pub struct ParsedCommand {
    /// The first word of the line.
    pub label: String,
    /// The words after the first.
    pub args: Vec<String>,
}

impl ParsedCommand {
    /// Split an input line on whitespace into the command word and its
    /// arguments; a line with no words is no command.
    pub fn new(input: &str) -> (r: Option<ParsedCommand>)
        ensures
            r is Some <==> words_of(input@).len() != 0,
            r matches Some(p) ==> {
                &&& p.label@ == words_of(input@)[0]
                &&& p.args.deep_view() == words_of(input@).drop_first()
            },
    {
        let mut words = split_words(input);
        if words.len() == 0 {
            return None;
        }
        let ghost all = words.deep_view();
        let ghost before = words@;
        let label = words.remove(0);
        proof {
            assert(label@ == all[0]);
            assert forall|j: int| 0 <= j < words@.len() implies words.deep_view()[j]
                == all.drop_first()[j] by {
                assert(words@[j] == before[j + 1]);
            }
            assert(words.deep_view() =~= all.drop_first());
        }
        Some(ParsedCommand { label, args: words })
    }
}

} // verus!
