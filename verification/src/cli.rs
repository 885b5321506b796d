//! The dispatcher: it walks the command line with a cursor, matches each word
//! against the command tree and reports which handlers are to run and how the
//! run ends.
//!
//! A word is an argument without the white space around it. A read behind the
//! last word gives the last word, so a command line that stops too early ends
//! in a help text and never in a fault.

use vstd::prelude::*;
use crate::commands::toolchain::{
    AvailableToolchains,
    ToolchainSubCommand,
    subcommand_named,
    toolchain_named,
};
use crate::help::{HelpScope, help_text, render_help, render_version, version_line};
use crate::printer::{Op, OutputTarget, Rendered, batch_ops, ops_of};
use crate::text::{
    contains_char,
    is_white_space,
    lemma_trimmed_unchanged,
    same_text,
    trim,
    trimmed,
};

verus! {

/// A handler that the command line asks for.
#[derive(Debug, PartialEq, Eq)]
pub enum Action {
    /// Run a subcommand for a toolchain.
    Toolchain(AvailableToolchains, ToolchainSubCommand),
    /// Create the project of this name.
    NewProject(String),
}

/// A handler, as contracts speak of it.
pub enum ActionView {
    Toolchain(AvailableToolchains, ToolchainSubCommand),
    NewProject(Seq<char>),
}

impl View for Action {
    type V = ActionView;

    open spec fn view(&self) -> ActionView {
        match self {
            Action::Toolchain(toolchain, subcommand) => ActionView::Toolchain(
                *toolchain,
                *subcommand,
            ),
            Action::NewProject(name) => ActionView::NewProject(name@),
        }
    }
}

/// How a run of the dispatcher ends.
#[derive(Debug, Clone, Copy, PartialEq, Eq, Structural)]
pub enum Outcome {
    /// Every word was matched; the handlers are to run and the process goes on.
    Completed,
    /// The help text of the scope is to go to the error stream; exit status 1.
    Help(HelpScope),
    /// The version is to go to the standard stream; exit status 0.
    Version,
}

/// What the command that starts at the cursor means.
#[derive(Debug, PartialEq, Eq)]
pub enum Step {
    /// A handler is to run; the walk goes on.
    Invoke(Action),
    /// A reserved command: nothing to do yet; the walk goes on.
    Reserved,
    /// The walk ends with the help text of the scope.
    Help(HelpScope),
    /// The walk ends with the version.
    Version,
}

/// A step, as contracts speak of it.
pub enum StepView {
    Invoke(ActionView),
    Reserved,
    Help(HelpScope),
    Version,
}

impl View for Step {
    type V = StepView;

    open spec fn view(&self) -> StepView {
        match self {
            Step::Invoke(action) => StepView::Invoke(action@),
            Step::Reserved => StepView::Reserved,
            Step::Help(scope) => StepView::Help(*scope),
            Step::Version => StepView::Version,
        }
    }
}

/// A matched command: what it means and how many words it takes.
#[derive(Debug, PartialEq, Eq)]
pub struct Matched {
    pub step: Step,
    pub consumed: usize,
}

/// A matched command, as contracts speak of it.
pub struct MatchedView {
    pub step: StepView,
    pub consumed: int,
}

impl View for Matched {
    type V = MatchedView;

    open spec fn view(&self) -> MatchedView {
        MatchedView { step: self.step@, consumed: self.consumed as int }
    }
}

/// The spellings of the help command.
pub open spec fn is_help_word(word: Seq<char>) -> bool {
    word == "help"@ || word == "-h"@ || word == "--help"@
}

/// The spellings of the version command.
pub open spec fn is_version_word(word: Seq<char>) -> bool {
    word == "version"@ || word == "-v"@ || word == "--version"@
}

/// The commands that are reserved and do nothing yet.
pub open spec fn is_reserved_word(word: Seq<char>) -> bool {
    word == "add"@ || word == "run"@ || word == "build"@ || word == "remove"@ || word
        == "install"@
}

/// Whether a word can name a new project: it is not empty, it is not the
/// command word itself, and it holds no blank, slash or backslash.
pub open spec fn valid_project_name(name: Seq<char>) -> bool {
    &&& name.len() > 0
    &&& name != "new"@
    &&& !name.contains(' ')
    &&& !name.contains('/')
    &&& !name.contains('\\')
}

/// What `toolchain` means with the two words that follow it. A toolchain that
/// is not known ends the walk behind its name, a subcommand that is not known
/// behind the subcommand; both end it with the help text of `toolchain`.
pub open spec fn toolchain_step(name: Seq<char>, subcommand: Seq<char>) -> MatchedView {
    match toolchain_named(name) {
        None => MatchedView { step: StepView::Help(HelpScope::Toolchain), consumed: 2 },
        Some(toolchain) => match subcommand_named(subcommand) {
            None => MatchedView { step: StepView::Help(HelpScope::Toolchain), consumed: 3 },
            Some(subcommand) => MatchedView {
                step: StepView::Invoke(ActionView::Toolchain(toolchain, subcommand)),
                consumed: 3,
            },
        },
    }
}

/// What `new` means with the word that follows it.
pub open spec fn new_step(name: Seq<char>) -> MatchedView {
    if valid_project_name(name) {
        MatchedView { step: StepView::Invoke(ActionView::NewProject(name)), consumed: 2 }
    } else {
        MatchedView { step: StepView::Help(HelpScope::New), consumed: 2 }
    }
}

/// What the command `word` means, given the two words that follow it. A word
/// that no command is spelled like ends the walk with the help text of the
/// top level.
pub open spec fn step_of(word: Seq<char>, second: Seq<char>, third: Seq<char>) -> MatchedView {
    if is_help_word(word) {
        MatchedView { step: StepView::Help(HelpScope::TopLevel), consumed: 1 }
    } else if is_version_word(word) {
        MatchedView { step: StepView::Version, consumed: 1 }
    } else if word == "toolchain"@ {
        toolchain_step(second, third)
    } else if word == "new"@ {
        new_step(second)
    } else if is_reserved_word(word) {
        MatchedView { step: StepView::Reserved, consumed: 1 }
    } else {
        MatchedView { step: StepView::Help(HelpScope::TopLevel), consumed: 1 }
    }
}

/// The words of a command line: each argument without the white space around
/// it.
pub open spec fn words_of(args: Seq<String>) -> Seq<Seq<char>> {
    args.map_values(|arg: String| trimmed(arg@))
}

/// The index that a read at `index` goes to: `index` itself, or the last one
/// where `index` lies behind the end.
pub open spec fn clamped(len: int, index: int) -> int {
    if index < len {
        index
    } else {
        len - 1
    }
}

/// The word that a read at `index` gives.
pub open spec fn word_at(words: Seq<Seq<char>>, index: int) -> Seq<char>
    recommends
        words.len() > 0,
        0 <= index,
{
    words[clamped(words.len() as int, index)]
}

/// What the command at the cursor means.
pub open spec fn step_at(words: Seq<Seq<char>>, cursor: int) -> MatchedView
    recommends
        0 <= cursor < words.len(),
{
    step_of(words[cursor], word_at(words, cursor + 1), word_at(words, cursor + 2))
}

/// Where the cursor stands after the command at `cursor`: behind the words it
/// took, and never behind the end.
pub open spec fn next_cursor(words: Seq<Seq<char>>, cursor: int) -> int
    recommends
        0 <= cursor < words.len(),
{
    if cursor + step_at(words, cursor).consumed <= words.len() {
        cursor + step_at(words, cursor).consumed
    } else {
        words.len() as int
    }
}

/// What a walk finds: the handlers to run, in their order, and how it ends.
pub struct Trace {
    pub actions: Seq<ActionView>,
    pub outcome: Outcome,
}

/// The walk from `cursor` to the end of the words, or to the first command
/// that ends it.
pub open spec fn walk_from(words: Seq<Seq<char>>, cursor: int) -> Trace
    decreases words.len() - cursor,
{
    if cursor < 0 || cursor >= words.len() {
        Trace { actions: Seq::empty(), outcome: Outcome::Completed }
    } else {
        match step_at(words, cursor).step {
            StepView::Help(scope) => Trace {
                actions: Seq::empty(),
                outcome: Outcome::Help(scope),
            },
            StepView::Version => Trace { actions: Seq::empty(), outcome: Outcome::Version },
            StepView::Reserved => walk_from(words, next_cursor(words, cursor)),
            StepView::Invoke(action) => {
                let rest = walk_from(words, next_cursor(words, cursor));
                Trace { actions: seq![action] + rest.actions, outcome: rest.outcome }
            },
        }
    }
}

/// What a command line without the name of the program asks for. Without any
/// word it asks for the help text of the top level.
pub open spec fn dispatch(words: Seq<Seq<char>>) -> Trace {
    if words.len() == 0 {
        Trace { actions: Seq::empty(), outcome: Outcome::Help(HelpScope::TopLevel) }
    } else {
        walk_from(words, 0)
    }
}

/// The exit status that goes with an outcome.
pub open spec fn exit_status(outcome: Outcome) -> i32 {
    match outcome {
        Outcome::Completed => 0i32,
        Outcome::Version => 0i32,
        Outcome::Help(_) => 1i32,
    }
}


/// The handlers of a list of actions, as contracts speak of them.
pub open spec fn actions_of(actions: Seq<Action>) -> Seq<ActionView> {
    actions.map_values(|action: Action| action@)
}

/// The arguments behind the name of the program.
pub open spec fn arguments_of(args: Seq<String>) -> Seq<String> {
    if args.len() == 0 {
        args
    } else {
        args.subrange(1, args.len() as int)
    }
}

fn is_help(word: &str) -> (yes: bool)
    ensures
        yes == is_help_word(word@),
{
    same_text(word, "help") || same_text(word, "-h") || same_text(word, "--help")
}

fn is_version(word: &str) -> (yes: bool)
    ensures
        yes == is_version_word(word@),
{
    same_text(word, "version") || same_text(word, "-v") || same_text(word, "--version")
}

fn is_reserved(word: &str) -> (yes: bool)
    ensures
        yes == is_reserved_word(word@),
{
    same_text(word, "add") || same_text(word, "run") || same_text(word, "build") || same_text(
        word,
        "remove",
    ) || same_text(word, "install")
}

/// Whether `name` can name a new project.
pub fn is_valid_project_name(name: &str) -> (valid: bool)
    ensures
        valid == valid_project_name(name@),
{
    !name.is_empty() && !same_text(name, "new") && !contains_char(name, ' ') && !contains_char(
        name,
        '/',
    ) && !contains_char(name, '\\')
}

/// Matches the command `word` against the command tree, with the two words
/// that follow it on the command line. All three are taken as they are: the
/// caller has trimmed them and has put the last word in place of a missing one.
pub fn decide(word: &str, second: &str, third: &str) -> (matched: Matched)
    ensures
        matched@ == step_of(word@, second@, third@),
{
    if is_help(word) {
        Matched { step: Step::Help(HelpScope::TopLevel), consumed: 1 }
    } else if is_version(word) {
        Matched { step: Step::Version, consumed: 1 }
    } else if same_text(word, "toolchain") {
        match AvailableToolchains::named(second) {
            None => Matched { step: Step::Help(HelpScope::Toolchain), consumed: 2 },
            Some(toolchain) => match ToolchainSubCommand::named(third) {
                None => Matched { step: Step::Help(HelpScope::Toolchain), consumed: 3 },
                Some(subcommand) => Matched {
                    step: Step::Invoke(Action::Toolchain(toolchain, subcommand)),
                    consumed: 3,
                },
            },
        }
    } else if same_text(word, "new") {
        if is_valid_project_name(second) {
            Matched { step: Step::Invoke(Action::NewProject(second.to_owned())), consumed: 2 }
        } else {
            Matched { step: Step::Help(HelpScope::New), consumed: 2 }
        }
    } else if is_reserved(word) {
        Matched { step: Step::Reserved, consumed: 1 }
    } else {
        Matched { step: Step::Help(HelpScope::TopLevel), consumed: 1 }
    }
}

/// What an outcome puts on the terminal, and on which stream: a help text
/// goes to the error stream, the version to the standard stream, and a walk
/// that was completed writes nothing.
pub open spec fn outcome_output(outcome: Outcome) -> Option<(OutputTarget, Seq<Op>)> {
    match outcome {
        Outcome::Completed => None,
        Outcome::Help(scope) => Some(
            (OutputTarget::Stderr, batch_ops(OutputTarget::Stderr, help_text(scope))),
        ),
        Outcome::Version => Some((OutputTarget::Stdout, seq![Op::Print(version_line())])),
    }
}

impl Outcome {
    /// Renders what the outcome puts on the terminal, if it puts anything
    /// there.
    pub fn render(&self) -> (rendered: Option<Rendered>)
        ensures
            match rendered {
                Some(rendered) => outcome_output(*self) == Some(
                    (rendered.target, ops_of(rendered.ops@)),
                ),
                None => outcome_output(*self) is None,
            },
    {
        match self {
            Outcome::Completed => None,
            Outcome::Help(scope) => Some(render_help(*scope)),
            Outcome::Version => Some(render_version()),
        }
    }

    /// The exit status that goes with the outcome: 1 where a help text is
    /// shown, 0 otherwise.
    pub fn exit_code(&self) -> (status: i32)
        ensures
            status == exit_status(*self),
    {
        match self {
            Outcome::Completed => 0,
            Outcome::Version => 0,
            Outcome::Help(_) => 1,
        }
    }
}


/// A command line that was walked: its arguments, the handlers it asks for and
/// how the walk ended.
#[derive(Debug)]
pub struct Cli {
    args: Vec<String>,
    actions: Vec<Action>,
    outcome: Outcome,
}

impl Cli {
    /// The arguments that were walked: those behind the name of the program.
    pub closed spec fn arguments(&self) -> Seq<String> {
        self.args@
    }

    /// The words that were walked: the arguments, each without the white
    /// space around it.
    pub open spec fn words(&self) -> Seq<Seq<char>> {
        words_of(self.arguments())
    }

    /// What the walk found.
    pub closed spec fn trace(&self) -> Trace {
        Trace { actions: actions_of(self.actions@), outcome: self.outcome }
    }

    /// Walks the command line `args`, whose first entry is the name of the
    /// program. The result holds the handlers that the command line asks for,
    /// in the order in which they are to run, and the way the walk ended; the
    /// caller runs the handlers and then acts on the outcome.
    pub fn parse(args: Vec<String>) -> (cli: Cli)
        ensures
            cli.arguments() == arguments_of(args@),
            cli.trace() == dispatch(cli.words()),
    {
        let mut cli: Cli = Self { args, actions: Vec::new(), outcome: Outcome::Completed };
        cli._parse();

        cli
    }

    fn _parse(&mut self)
        requires
            old(self).actions@.len() == 0,
        ensures
            final(self).args@ == arguments_of(old(self).args@),
            final(self).trace() == dispatch(final(self).words()),
    {
        if self.args.len() > 0 {
            self.args.remove(0);
        }
        assert(self.args@ =~= arguments_of(old(self).args@));
        assert(actions_of(self.actions@) =~= Seq::<ActionView>::empty());

        if self.args.is_empty() {
            self.outcome = Outcome::Help(HelpScope::TopLevel);
            return;
        }
        self.outcome = Outcome::Completed;

        let ghost words = self.words();
        let ghost whole = walk_from(words, 0);
        let mut depth: usize = 0;
        let mut stopped: bool = false;

        while !stopped && depth != self.args.len()
            invariant
                depth <= self.args@.len(),
                self.args@ == arguments_of(old(self).args@),
                words == self.words(),
                whole == walk_from(words, 0),
                !stopped ==> self.outcome == Outcome::Completed,
                !stopped ==> whole.outcome == walk_from(words, depth as int).outcome,
                !stopped ==> whole.actions == actions_of(self.actions@) + walk_from(
                    words,
                    depth as int,
                ).actions,
                stopped ==> whole.outcome == self.outcome,
                stopped ==> whole.actions == actions_of(self.actions@),
            decreases self.args@.len() - depth,
        {
            let ghost before = actions_of(self.actions@);
            let ghost here = depth as int;
            let step = self.analyze(&mut depth);
            match step {
                Step::Invoke(action) => {
                    self.actions.push(action);
                    assert(actions_of(self.actions@) =~= before + seq![action@]);
                    assert(whole.actions =~= actions_of(self.actions@) + walk_from(
                        words,
                        depth as int,
                    ).actions);
                },
                Step::Reserved => {},
                Step::Help(scope) => {
                    self.outcome = Outcome::Help(scope);
                    stopped = true;
                    assert(whole.actions =~= before);
                },
                Step::Version => {
                    self.outcome = Outcome::Version;
                    stopped = true;
                    assert(whole.actions =~= before);
                },
            }
        }
        assert(whole.actions =~= actions_of(self.actions@));
    }

    /// Matches the command at the cursor `index` and moves the cursor behind
    /// the words that the command took. The cursor always moves forward, and
    /// never behind the end.
    fn analyze(&self, index: &mut usize) -> (step: Step)
        requires
            *old(index) < self.args@.len(),
        ensures
            step@ == step_at(self.words(), *old(index) as int).step,
            *final(index) == next_cursor(self.words(), *old(index) as int),
            *old(index) < *final(index) <= self.args@.len(),
    {
        let cursor: usize = *index;
        let len: usize = self.args.len();
        let second_index: usize = if cursor + 1 < len {
            cursor + 1
        } else {
            len - 1
        };
        let third_index: usize = if second_index + 1 < len {
            second_index + 1
        } else {
            len - 1
        };
        let matched = decide(
            self.get_arg(cursor),
            self.get_arg(second_index),
            self.get_arg(third_index),
        );
        if matched.consumed <= len - cursor {
            *index = cursor + matched.consumed;
        } else {
            *index = len;
        }
        matched.step
    }

    /// The word at `index`, or the last word where `index` lies behind the
    /// end.
    fn get_arg(&self, index: usize) -> (word: &str)
        requires
            self.args@.len() > 0,
        ensures
            word@ == word_at(self.words(), index as int),
    {
        let at: usize = if index < self.args.len() {
            index
        } else {
            self.args.len() - 1
        };
        trim(self.args[at].as_str())
    }

    /// The arguments behind the name of the program, as they were given.
    pub fn args(&self) -> (args: &Vec<String>)
        ensures
            args@ == self.arguments(),
    {
        &self.args
    }

    /// The handlers that the command line asks for, in the order in which
    /// they are to run.
    pub fn actions(&self) -> (actions: &Vec<Action>)
        ensures
            actions_of(actions@) == self.trace().actions,
    {
        &self.actions
    }

    /// How the walk ended.
    pub fn outcome(&self) -> (outcome: Outcome)
        ensures
            outcome == self.trace().outcome,
    {
        self.outcome
    }
}


/// The walk always ends: every command moves the cursor forward by at least
/// one word, and the cursor never passes the end of the words.
pub proof fn lemma_cursor_advances(words: Seq<Seq<char>>, cursor: int)
    requires
        0 <= cursor < words.len(),
    ensures
        cursor < next_cursor(words, cursor) <= words.len(),
        1 <= step_at(words, cursor).consumed <= 3,
{
}

/// A command after which the walk goes on took only words that are there:
/// where a word is missing, the last word is read in its place, and the
/// command tree accepts it neither as the name of a toolchain behind
/// `toolchain`, nor as a subcommand behind that name, nor as the name of a
/// project behind `new`.
pub proof fn lemma_walk_goes_on_within_words(words: Seq<Seq<char>>, cursor: int)
    requires
        0 <= cursor < words.len(),
        step_at(words, cursor).step is Invoke || step_at(words, cursor).step is Reserved,
    ensures
        next_cursor(words, cursor) == cursor + step_at(words, cursor).consumed,
{
    reveal_strlit("toolchain");
    reveal_strlit("new");
    reveal_strlit("llvm");
    reveal_strlit("install");
    reveal_strlit("repair");
    reveal_strlit("update");
    reveal_strlit("help");
    reveal_strlit("-h");
    reveal_strlit("--help");
    reveal_strlit("version");
    reveal_strlit("-v");
    reveal_strlit("--version");
    let word = words[cursor];
    if !is_help_word(word) && !is_version_word(word) {
        if word == "toolchain"@ {
            if cursor + 1 >= words.len() {
                assert(word_at(words, cursor + 1) == word);
                assert(word.len() == 9);
                assert("llvm"@.len() == 4);
            } else if cursor + 2 >= words.len() {
                assert(word_at(words, cursor + 2) == word_at(words, cursor + 1));
                assert("llvm"@.len() == 4);
                assert("install"@.len() == 7);
                assert("repair"@.len() == 6);
                assert("update"@.len() == 6);
            }
        } else if word == "new"@ {
            if cursor + 1 >= words.len() {
                assert(word_at(words, cursor + 1) == word);
            }
        }
    }
}

/// Whether a text has no white space around it.
pub open spec fn is_trimmed(text: Seq<char>) -> bool {
    text.len() > 0 ==> !is_white_space(text.first()) && !is_white_space(text.last())
}

/// Arguments without white space around them are walked as they are: each is
/// its own word.
pub proof fn lemma_words_of_trimmed_arguments(args: Seq<String>)
    requires
        forall|i: int| 0 <= i < args.len() ==> is_trimmed(#[trigger] args[i]@),
    ensures
        words_of(args) == args.map_values(|arg: String| arg@),
{
    assert forall|i: int| 0 <= i < args.len() implies #[trigger] words_of(args)[i] == args[i]@ by {
        lemma_trimmed_unchanged(args[i]@);
    }
    assert(words_of(args) =~= args.map_values(|arg: String| arg@));
}

/// The handlers of a walk were all asked for by words of the command line:
/// there are never more handlers than words.
pub proof fn lemma_actions_bounded(words: Seq<Seq<char>>, cursor: int)
    requires
        0 <= cursor <= words.len(),
    ensures
        walk_from(words, cursor).actions.len() <= words.len() - cursor,
    decreases words.len() - cursor,
{
    if cursor < words.len() {
        lemma_cursor_advances(words, cursor);
        lemma_actions_bounded(words, next_cursor(words, cursor));
    }
}

} // verus!
