//! Leveled messages on top of the renderer: a label in the color of the
//! level, then the message.

use vstd::prelude::*;
use crossterm::style::Color;
use crate::printer::{
    OutputTarget,
    Op,
    Printer,
    Rendered,
    Segment,
    StringPrintable,
    batch_ops,
    dynamic_segments,
    ops_of,
    target_of,
};

verus! {

/// The level of a message.
#[derive(Debug, PartialEq)]
pub enum LogType {
    /// A label and a color of the caller's choice.
    Custom(String, Color),
    Warning,
    Panic,
    Error,
}

/// Whether `text` stands somewhere in `whole`, unbroken.
pub open spec fn holds_text(whole: Seq<char>, text: Seq<char>) -> bool {
    exists|start: int|
        0 <= start && start + text.len() <= whole.len() && #[trigger] whole.subrange(
            start,
            start + text.len(),
        ) == text
}

/// What is known of a text once the terminal library has styled it: it holds
/// the text, unbroken, or it is empty.
pub open spec fn styled_form(styled: Seq<char>, text: Seq<char>) -> bool {
    styled.len() == 0 || holds_text(styled, text)
}

/// The two segments of a message: the label, bold, and the message; both
/// reset the stream behind them.
pub open spec fn log_batch(label: Seq<char>, message: Seq<char>) -> Seq<Segment> {
    seq![
        Segment { text: label, foreground: None, set_bold: true, reset_color: true },
        Segment { text: message, foreground: None, set_bold: false, reset_color: true },
    ]
}

impl LogType {
    /// The label that a message of this level begins with.
    pub open spec fn label(&self) -> Seq<char> {
        match self {
            LogType::Warning => "WARNING "@,
            LogType::Panic => "PANIC "@,
            LogType::Error => "ERROR "@,
            LogType::Custom(text, _) => text@,
        }
    }

    /// The color of the label.
    pub open spec fn color(&self) -> Color {
        match self {
            LogType::Warning => Color::Yellow,
            LogType::Panic => Color::Red,
            LogType::Error => Color::Red,
            LogType::Custom(_, color) => *color,
        }
    }

    /// The stream of the level: the error stream for errors and panics, the
    /// standard stream for the rest.
    pub open spec fn target(&self) -> OutputTarget {
        match self {
            LogType::Panic => OutputTarget::Stderr,
            LogType::Error => OutputTarget::Stderr,
            _ => OutputTarget::Stdout,
        }
    }

    /// The text of the label.
    pub fn label_text(&self) -> (text: &str)
        ensures
            text@ == self.label(),
    {
        match self {
            LogType::Warning => "WARNING ",
            LogType::Panic => "PANIC ",
            LogType::Error => "ERROR ",
            LogType::Custom(text, _) => text.as_str(),
        }
    }

    /// The color of the label.
    pub fn label_color(&self) -> (color: Color)
        ensures
            color == self.color(),
    {
        match self {
            LogType::Warning => Color::Yellow,
            LogType::Panic => Color::Red,
            LogType::Error => Color::Red,
            LogType::Custom(_, color) => *color,
        }
    }

    /// Whether a message of this level goes to the error stream.
    pub fn uses_stderr(&self) -> (yes: bool)
        ensures
            target_of(yes) == self.target(),
    {
        match self {
            LogType::Panic => true,
            LogType::Error => true,
            _ => false,
        }
    }

    /// The label as it is written: its text, with what the terminal library
    /// puts around it to show it in the color of the level. What that is
    /// depends on the process and on the console: with colors switched off
    /// nothing is put around the text, and for a console that takes no escape
    /// sequences the library hands back nothing at all. So the contract only
    /// says that the text of the label stands in the result unless the result
    /// is empty.
    pub fn to_styled(&self) -> (styled: String)
        ensures
            styled_form(styled@, self.label()),
    {
        styled_text(self.label_text(), self.label_color())
    }
}

/// Calls `crossterm::style::style` on `text`, sets the foreground color with
/// `Stylize::with` and formats the result with `to_string`. The library writes
/// the escape sequence of the color, the text, and the escape sequence that
/// resets the foreground; where colors are switched off the sequences carry
/// no color. On Windows, for a console that takes no escape sequences, it
/// writes nothing instead, not even the text. The contract claims what holds
/// in each of these cases: the result is empty, or `text` stands in it,
/// unbroken.
#[verifier::external_body]
fn styled_text(text: &str, color: Color) -> (styled: String)
    ensures
        styled_form(styled@, text@),
{
    crossterm::style::Stylize::with(crossterm::style::style(text), color).to_string()
}

/// Renders a message whose label is already styled: the label, bold, then the
/// message, each followed by a reset, for the error stream if
/// `use_stderr` and for the standard stream otherwise.
pub fn log_styled(use_stderr: bool, label: String, message: String) -> (rendered: Rendered)
    ensures
        rendered.target == target_of(use_stderr),
        ops_of(rendered.ops@) == batch_ops(target_of(use_stderr), log_batch(label@, message@)),
{
    let mut printer: Printer = Printer::default();

    if use_stderr {
        printer.set_use_stderr(true);
    }

    let mut strings = [
        StringPrintable::new(label, None, true, true),
        StringPrintable::new(message, None, false, true),
    ];

    assert(dynamic_segments(strings@) =~= log_batch(label@, message@));
    printer.set_dynamic_strings(&mut strings);
    assert(batch_ops(printer.target(), printer.static_batch()) =~= Seq::<Op>::empty());
    let rendered = printer.print();
    assert(ops_of(rendered.ops@) =~= batch_ops(
        target_of(use_stderr),
        log_batch(label@, message@),
    ));
    rendered
}

/// Renders `message` at the level `log_type`: the label of the level as the
/// terminal library styles it, bold, then the message, each followed by a
/// reset. Errors and panics are meant for the error stream, everything else
/// for the standard stream. The styled label holds the label of the level,
/// or is empty where the terminal library hands back nothing.
pub fn log(log_type: LogType, message: String) -> (rendered: Rendered)
    ensures
        rendered.target == log_type.target(),
        exists|label: Seq<char>|
            styled_form(label, log_type.label()) && ops_of(rendered.ops@) == #[trigger] batch_ops(
                log_type.target(),
                log_batch(label, message@),
            ),
{
    let label = log_type.to_styled();
    let ghost styled = label@;
    let rendered = log_styled(log_type.uses_stderr(), label, message);
    assert(ops_of(rendered.ops@) == batch_ops(log_type.target(), log_batch(styled, message@)));
    rendered
}

} // verus!
