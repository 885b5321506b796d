use thorium::commands::toolchain::{execute, AvailableToolchains, ToolchainSubCommand};

#[test]
fn subcommand_spellings() {
    assert_eq!(ToolchainSubCommand::get_representation(), ["install", "repair", "update"]);
}

#[test]
fn toolchain_spellings() {
    assert_eq!(AvailableToolchains::get_representation(), ["llvm"]);
}

#[test]
fn subcommands_by_name() {
    assert_eq!(ToolchainSubCommand::named("install"), Some(ToolchainSubCommand::Install));
    assert_eq!(ToolchainSubCommand::named("repair"), Some(ToolchainSubCommand::Repair));
    assert_eq!(ToolchainSubCommand::named("update"), Some(ToolchainSubCommand::Update));
    assert_eq!(ToolchainSubCommand::named("Install"), None);
    assert_eq!(ToolchainSubCommand::named(""), None);
}

#[test]
fn toolchains_by_name() {
    assert_eq!(AvailableToolchains::named("llvm"), Some(AvailableToolchains::LLVM));
    assert_eq!(AvailableToolchains::named("gcc"), None);
    assert_eq!(AvailableToolchains::named("llvm "), None);
}

#[test]
fn execute_returns_for_every_subcommand() {
    execute(AvailableToolchains::LLVM, ToolchainSubCommand::Install);
    execute(AvailableToolchains::LLVM, ToolchainSubCommand::Repair);
    execute(AvailableToolchains::LLVM, ToolchainSubCommand::Update);
}
