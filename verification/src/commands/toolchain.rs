//! The toolchains that can be managed and what can be done to one.

use vstd::prelude::*;
use crate::text::same_text;

verus! {

/// A toolchain that the package manager knows how to manage.
#[allow(clippy::upper_case_acronyms)]
#[derive(Debug, Clone, Copy, PartialEq, Eq, Structural)]
pub enum AvailableToolchains {
    LLVM,
}

/// What can be done to a toolchain.
#[derive(Debug, Clone, Copy, PartialEq, Eq, Structural)]
pub enum ToolchainSubCommand {
    Install,
    Repair,
    Update,
}

/// The toolchain that a command-line word names, if it names one.
pub open spec fn toolchain_named(word: Seq<char>) -> Option<AvailableToolchains> {
    if word == "llvm"@ {
        Some(AvailableToolchains::LLVM)
    } else {
        None
    }
}

/// The subcommand that a command-line word names, if it names one.
pub open spec fn subcommand_named(word: Seq<char>) -> Option<ToolchainSubCommand> {
    if word == "install"@ {
        Some(ToolchainSubCommand::Install)
    } else if word == "repair"@ {
        Some(ToolchainSubCommand::Repair)
    } else if word == "update"@ {
        Some(ToolchainSubCommand::Update)
    } else {
        None
    }
}

impl ToolchainSubCommand {
    /// The accepted spellings, in the order of the variants.
    pub fn get_representation() -> (words: [&'static str; 3])
        ensures
            words@.len() == 3,
            words@[0]@ == "install"@,
            words@[1]@ == "repair"@,
            words@[2]@ == "update"@,
    {
        ["install", "repair", "update"]
    }

    /// The subcommand that `word` spells, if it spells one.
    pub fn named(word: &str) -> (subcommand: Option<ToolchainSubCommand>)
        ensures
            subcommand == subcommand_named(word@),
    {
        let words = Self::get_representation();
        if same_text(word, words[0]) {
            Some(ToolchainSubCommand::Install)
        } else if same_text(word, words[1]) {
            Some(ToolchainSubCommand::Repair)
        } else if same_text(word, words[2]) {
            Some(ToolchainSubCommand::Update)
        } else {
            None
        }
    }
}

impl AvailableToolchains {
    /// The accepted spellings, in the order of the variants.
    pub fn get_representation() -> (words: [&'static str; 1])
        ensures
            words@.len() == 1,
            words@[0]@ == "llvm"@,
    {
        ["llvm"]
    }

    /// The toolchain that `word` spells, if it spells one.
    pub fn named(word: &str) -> (toolchain: Option<AvailableToolchains>)
        ensures
            toolchain == toolchain_named(word@),
    {
        let words = Self::get_representation();
        if same_text(word, words[0]) {
            Some(AvailableToolchains::LLVM)
        } else {
            None
        }
    }
}

/// Runs `subcommand` for `toolchain`. Every action is still a no-op, so the
/// caller learns nothing from the call and must not wait for anything.
pub fn execute(toolchain: AvailableToolchains, subcommand: ToolchainSubCommand) {
    match subcommand {
        ToolchainSubCommand::Install => install(),
        ToolchainSubCommand::Repair => repair(),
        ToolchainSubCommand::Update => update(),
    }
}

fn update() {
}

fn install() {
}

fn repair() {
}

} // verus!
