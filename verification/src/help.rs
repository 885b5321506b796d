//! The help texts, as batches of static segments, and the version string.

use vstd::prelude::*;
use crossterm::style::Color;
use vstd::string::StringExecFns;
use crate::printer::{
    Op,
    OutputTarget,
    Printer,
    RenderOp,
    Rendered,
    Segment,
    StaticStringPrintable,
    batch_ops,
    ops_of,
    static_segments,
};

verus! {

/// The part of the command tree that a help text explains.
#[derive(Debug, Clone, Copy, PartialEq, Eq, Structural)]
pub enum HelpScope {
    /// The commands of the top level.
    TopLevel,
    /// `toolchain` and what follows it.
    Toolchain,
    /// `new` and the name that follows it.
    New,
}

/// The semantic version of the package manager.
pub fn version() -> (version: &'static str)
    ensures
        version@ == "0.1.0"@,
{
    "0.1.0"
}

/// The line that tells the version: the version and a line end.
pub open spec fn version_line() -> Seq<char> {
    "0.1.0"@ + "\n"@
}

/// The grey in which names stand out in the help texts.
pub open spec fn accent_color() -> Color {
    Color::Rgb { r: 141, g: 141, b: 142 }
}

/// A name that stands out: grey and bold, reset afterwards.
pub open spec fn accent(text: Seq<char>) -> Segment {
    Segment { text, foreground: Some(accent_color()), set_bold: true, reset_color: true }
}

/// A bright white word: white and bold, reset afterwards.
pub open spec fn bright(text: Seq<char>) -> Segment {
    Segment { text, foreground: Some(Color::White), set_bold: true, reset_color: true }
}

/// Bold text in the terminal's own color, reset afterwards.
pub open spec fn strong(text: Seq<char>) -> Segment {
    Segment { text, foreground: None, set_bold: true, reset_color: true }
}

/// Text without any style: the blanks, brackets and line ends in between.
pub open spec fn plain(text: Seq<char>) -> Segment {
    Segment { text, foreground: None, set_bold: false, reset_color: false }
}

/// The line that explains one command: a bullet, the name in brackets, and
/// what the command does.
pub open spec fn entry(name: Seq<char>, description: Seq<char>) -> Seq<Segment> {
    seq![
        strong("•"@),
        plain(" ["@),
        accent(name),
        plain("] "@),
        strong(description),
        plain("\n"@),
    ]
}

/// The heading of a help text: the name of the program and, for a scoped
/// help, a bar and the title of the scope.
pub open spec fn heading(title: Option<Seq<char>>) -> Seq<Segment> {
    match title {
        None => seq![accent("Thorium Package Manager"@), plain("\n\n"@)],
        Some(title) => seq![
            accent("Thorium Package Manager"@),
            plain(" "@),
            bright("|"@),
            plain(" "@),
            accent(title),
            plain("\n\n"@),
        ],
    }
}

/// The usage line: the command so far and what is to follow it.
pub open spec fn usage(command: Seq<char>, operands: Seq<char>, end: Seq<char>) -> Seq<Segment> {
    seq![
        strong("Usage:"@),
        plain(" "@),
        accent(command),
        plain(" "@),
        strong(operands),
        plain(end),
    ]
}

/// The help text of the top level.
pub open spec fn top_level_help() -> Seq<Segment> {
    heading(None) + usage("thorium"@, "[command]"@, "\n\n"@) + seq![strong("Commands:\n\n"@)]
        + entry("help"@, "Prints this help message."@) + entry(
        "version"@,
        "Prints the current version."@,
    ) + entry("toolchain"@, "Manage a toolchain."@) + entry("new"@, "Creates a new project."@)
        + entry("add"@, "Adds a dependency."@) + entry("run"@, "Runs the project."@) + entry(
        "build"@,
        "Builds the project."@,
    )
}

/// The help text of `toolchain`.
pub open spec fn toolchain_help() -> Seq<Segment> {
    heading(Some("Toolchains"@)) + usage(
        "thorium toolchain"@,
        "[toolchain] [command]"@,
        "\n\n"@,
    ) + seq![
        strong("Available toolchains:"@),
        plain("\n "@),
        accent("• LLVM Toolchain"@),
        strong(" ("@),
        bright("llvm"@),
        strong(")"@),
        plain("\n\n"@),
        strong("Commands:\n\n"@),
    ] + entry("install"@, "Installs the specified toolchain."@) + entry(
        "repair"@,
        "Repairs any broken binaries of the toolchain."@,
    ) + entry("update"@, "Updates the toolchain."@)
}

/// The help text of `new`.
pub open spec fn new_help() -> Seq<Segment> {
    heading(Some("Create a new project"@)) + usage("thorium new"@, "[name]"@, "\n"@) + seq![
        strong("Note:"@),
        plain(" "@),
        accent("The identifier cannot contain spaces and non UTF-8 characters."@),
        plain("\n\n"@),
    ]
}

/// The help text of a scope.
pub open spec fn help_text(scope: HelpScope) -> Seq<Segment> {
    match scope {
        HelpScope::TopLevel => top_level_help(),
        HelpScope::Toolchain => toolchain_help(),
        HelpScope::New => new_help(),
    }
}

/// Whether a segment leaves the stream as it found it: one that sets a color
/// or bold also resets.
pub open spec fn self_contained(segment: Segment) -> bool {
    (segment.foreground is Some || segment.set_bold) ==> segment.reset_color
}


fn push_segment(
    batch: &mut Vec<StaticStringPrintable<'static>>,
    text: &'static str,
    foreground: Option<Color>,
    set_bold: bool,
    reset_color: bool,
)
    ensures
        static_segments(final(batch)@) == static_segments(old(batch)@).push(
            Segment { text: text@, foreground, set_bold, reset_color },
        ),
{
    batch.push(StaticStringPrintable::new(text, foreground, set_bold, reset_color));
    assert(static_segments(batch@) =~= static_segments(old(batch)@).push(
        Segment { text: text@, foreground, set_bold, reset_color },
    ));
}

fn push_accent(batch: &mut Vec<StaticStringPrintable<'static>>, text: &'static str)
    ensures
        static_segments(final(batch)@) == static_segments(old(batch)@).push(accent(text@)),
{
    push_segment(batch, text, Some(Color::Rgb { r: 141, g: 141, b: 142 }), true, true);
}

fn push_bright(batch: &mut Vec<StaticStringPrintable<'static>>, text: &'static str)
    ensures
        static_segments(final(batch)@) == static_segments(old(batch)@).push(bright(text@)),
{
    push_segment(batch, text, Some(Color::White), true, true);
}

fn push_strong(batch: &mut Vec<StaticStringPrintable<'static>>, text: &'static str)
    ensures
        static_segments(final(batch)@) == static_segments(old(batch)@).push(strong(text@)),
{
    push_segment(batch, text, None, true, true);
}

fn push_plain(batch: &mut Vec<StaticStringPrintable<'static>>, text: &'static str)
    ensures
        static_segments(final(batch)@) == static_segments(old(batch)@).push(plain(text@)),
{
    push_segment(batch, text, None, false, false);
}

fn push_entry(
    batch: &mut Vec<StaticStringPrintable<'static>>,
    name: &'static str,
    description: &'static str,
)
    ensures
        static_segments(final(batch)@) == static_segments(old(batch)@) + entry(
            name@,
            description@,
        ),
{
    push_strong(batch, "•");
    push_plain(batch, " [");
    push_accent(batch, name);
    push_plain(batch, "] ");
    push_strong(batch, description);
    push_plain(batch, "\n");
    assert(static_segments(batch@) =~= static_segments(old(batch)@) + entry(
        name@,
        description@,
    ));
}

fn push_heading(batch: &mut Vec<StaticStringPrintable<'static>>, title: Option<&'static str>)
    ensures
        static_segments(final(batch)@) == static_segments(old(batch)@) + heading(
            match title {
                Some(title) => Some(title@),
                None => None,
            },
        ),
{
    push_accent(batch, "Thorium Package Manager");
    match title {
        None => {
            push_plain(batch, "\n\n");
            assert(static_segments(batch@) =~= static_segments(old(batch)@) + heading(None));
        },
        Some(title) => {
            push_plain(batch, " ");
            push_bright(batch, "|");
            push_plain(batch, " ");
            push_accent(batch, title);
            push_plain(batch, "\n\n");
            assert(static_segments(batch@) =~= static_segments(old(batch)@) + heading(
                Some(title@),
            ));
        },
    }
}

fn push_usage(
    batch: &mut Vec<StaticStringPrintable<'static>>,
    command: &'static str,
    operands: &'static str,
    end: &'static str,
)
    ensures
        static_segments(final(batch)@) == static_segments(old(batch)@) + usage(
            command@,
            operands@,
            end@,
        ),
{
    push_strong(batch, "Usage:");
    push_plain(batch, " ");
    push_accent(batch, command);
    push_plain(batch, " ");
    push_strong(batch, operands);
    push_plain(batch, end);
    assert(static_segments(batch@) =~= static_segments(old(batch)@) + usage(
        command@,
        operands@,
        end@,
    ));
}

/// The help text of the top level, ready for the renderer.
pub fn help() -> (batch: Vec<StaticStringPrintable<'static>>)
    ensures
        static_segments(batch@) == top_level_help(),
{
    let mut batch: Vec<StaticStringPrintable<'static>> = Vec::new();
    assert(static_segments(batch@) =~= Seq::<Segment>::empty());
    push_heading(&mut batch, None);
    push_usage(&mut batch, "thorium", "[command]", "\n\n");
    push_strong(&mut batch, "Commands:\n\n");
    push_entry(&mut batch, "help", "Prints this help message.");
    push_entry(&mut batch, "version", "Prints the current version.");
    push_entry(&mut batch, "toolchain", "Manage a toolchain.");
    push_entry(&mut batch, "new", "Creates a new project.");
    push_entry(&mut batch, "add", "Adds a dependency.");
    push_entry(&mut batch, "run", "Runs the project.");
    push_entry(&mut batch, "build", "Builds the project.");
    assert(static_segments(batch@) =~= top_level_help());
    batch
}

/// The help text of `toolchain`, ready for the renderer.
pub fn help_toolchain() -> (batch: Vec<StaticStringPrintable<'static>>)
    ensures
        static_segments(batch@) == toolchain_help(),
{
    let mut batch: Vec<StaticStringPrintable<'static>> = Vec::new();
    assert(static_segments(batch@) =~= Seq::<Segment>::empty());
    push_heading(&mut batch, Some("Toolchains"));
    push_usage(&mut batch, "thorium toolchain", "[toolchain] [command]", "\n\n");
    push_strong(&mut batch, "Available toolchains:");
    push_plain(&mut batch, "\n ");
    push_accent(&mut batch, "• LLVM Toolchain");
    push_strong(&mut batch, " (");
    push_bright(&mut batch, "llvm");
    push_strong(&mut batch, ")");
    push_plain(&mut batch, "\n\n");
    push_strong(&mut batch, "Commands:\n\n");
    push_entry(&mut batch, "install", "Installs the specified toolchain.");
    push_entry(&mut batch, "repair", "Repairs any broken binaries of the toolchain.");
    push_entry(&mut batch, "update", "Updates the toolchain.");
    assert(static_segments(batch@) =~= toolchain_help());
    batch
}

/// The help text of `new`, ready for the renderer.
pub fn help_new() -> (batch: Vec<StaticStringPrintable<'static>>)
    ensures
        static_segments(batch@) == new_help(),
{
    let mut batch: Vec<StaticStringPrintable<'static>> = Vec::new();
    assert(static_segments(batch@) =~= Seq::<Segment>::empty());
    push_heading(&mut batch, Some("Create a new project"));
    push_usage(&mut batch, "thorium new", "[name]", "\n");
    push_strong(&mut batch, "Note:");
    push_plain(&mut batch, " ");
    push_accent(&mut batch, "The identifier cannot contain spaces and non UTF-8 characters.");
    push_plain(&mut batch, "\n\n");
    assert(static_segments(batch@) =~= new_help());
    batch
}

/// The help text of `scope`, ready for the renderer.
pub fn help_for(scope: HelpScope) -> (batch: Vec<StaticStringPrintable<'static>>)
    ensures
        static_segments(batch@) == help_text(scope),
{
    match scope {
        HelpScope::TopLevel => help(),
        HelpScope::Toolchain => help_toolchain(),
        HelpScope::New => help_new(),
    }
}

/// Renders the help text of `scope`. A help text always goes to the error
/// stream.
pub fn render_help(scope: HelpScope) -> (rendered: Rendered)
    ensures
        rendered.target == OutputTarget::Stderr,
        ops_of(rendered.ops@) == batch_ops(OutputTarget::Stderr, help_text(scope)),
{
    let batch = help_for(scope);
    let mut printer: Printer = Printer::default();
    printer.set_use_stderr(true);
    printer.set_static_strings(batch.as_slice());
    assert(batch_ops(printer.target(), printer.dynamic_batch()) =~= Seq::<Op>::empty());
    let rendered = printer.print();
    assert(ops_of(rendered.ops@) =~= batch_ops(OutputTarget::Stderr, help_text(scope)));
    rendered
}

/// Renders the version. It always goes to the standard stream, as one line
/// without any style.
pub fn render_version() -> (rendered: Rendered)
    ensures
        rendered.target == OutputTarget::Stdout,
        ops_of(rendered.ops@) == seq![Op::Print(version_line())],
{
    let mut ops: Vec<RenderOp> = Vec::new();
    ops.push(RenderOp::Print(version().to_owned().concat("\n")));
    assert(ops_of(ops@) =~= seq![Op::Print(version_line())]);
    Rendered { target: OutputTarget::Stdout, ops }
}

/// No help text leaves a style behind: every segment of it that sets a color
/// or bold also resets, so the text that follows the help on the stream is
/// written as the terminal was before.
pub proof fn lemma_help_is_self_contained(scope: HelpScope, i: int)
    requires
        0 <= i < help_text(scope).len(),
    ensures
        self_contained(help_text(scope)[i]),
{
}

} // verus!
