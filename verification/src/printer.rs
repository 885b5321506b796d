//! Styled segments and the renderer that turns a batch of them into the
//! ordered terminal operations it stands for.
//!
//! The renderer writes nothing itself. It hands back the operations, in the
//! order in which they are to reach the chosen stream; a dynamic segment gives
//! up its text while doing so.

use vstd::prelude::*;
use crossterm::style::Color;

verus! {

/// The terminal colors, as the terminal library defines them.
#[verifier::external_type_specification]
pub struct ExColor(crossterm::style::Color);

/// The stream that a batch is written to.
#[derive(Debug, Clone, Copy, PartialEq, Eq, Structural)]
pub enum OutputTarget {
    Stdout,
    Stderr,
}

/// What the renderer reads of a segment, static or dynamic.
pub struct Segment {
    pub text: Seq<char>,
    pub foreground: Option<Color>,
    pub set_bold: bool,
    pub reset_color: bool,
}

/// One terminal operation, as contracts speak of it.
pub enum Op {
    SetForeground(Color),
    SetBold,
    SetNormalIntensity,
    Print(Seq<char>),
    ResetColor,
}

/// One terminal operation of a rendered batch.
#[derive(Debug, PartialEq, Eq)]
pub enum RenderOp {
    /// Switch the foreground color of the stream.
    SetForeground(Color),
    /// Switch the stream to bold.
    SetBold,
    /// Switch the stream back to normal intensity.
    SetNormalIntensity,
    /// Write the text.
    Print(String),
    /// Reset the colors and attributes of the stream.
    ResetColor,
}

impl View for RenderOp {
    type V = Op;

    open spec fn view(&self) -> Op {
        match self {
            RenderOp::SetForeground(color) => Op::SetForeground(*color),
            RenderOp::SetBold => Op::SetBold,
            RenderOp::SetNormalIntensity => Op::SetNormalIntensity,
            RenderOp::Print(text) => Op::Print(text@),
            RenderOp::ResetColor => Op::ResetColor,
        }
    }
}

/// A rendered batch: the stream it is meant for, and the operations in the
/// order in which they are to be performed.
#[derive(Debug)]
pub struct Rendered {
    pub target: OutputTarget,
    pub ops: Vec<RenderOp>,
}

/// The operations of a rendered batch, one by one.
pub open spec fn ops_of(ops: Seq<RenderOp>) -> Seq<Op> {
    ops.map_values(|op: RenderOp| op@)
}

/// The stream that the flag of a printer selects.
pub open spec fn target_of(use_stderr: bool) -> OutputTarget {
    if use_stderr {
        OutputTarget::Stderr
    } else {
        OutputTarget::Stdout
    }
}

/// The color operation of a segment: one if it has a foreground color.
pub open spec fn color_ops(foreground: Option<Color>) -> Seq<Op> {
    match foreground {
        Some(color) => seq![Op::SetForeground(color)],
        None => Seq::empty(),
    }
}

/// The intensity operation of a segment. Only the standard stream gets one;
/// the error stream is written to without any.
pub open spec fn intensity_ops(target: OutputTarget, set_bold: bool) -> Seq<Op> {
    match target {
        OutputTarget::Stdout => if set_bold {
            seq![Op::SetBold]
        } else {
            seq![Op::SetNormalIntensity]
        },
        OutputTarget::Stderr => Seq::empty(),
    }
}

/// The reset operation of a segment: one if it asks for a reset.
pub open spec fn reset_ops(reset_color: bool) -> Seq<Op> {
    if reset_color {
        seq![Op::ResetColor]
    } else {
        Seq::empty()
    }
}

/// The operations of one segment: color, intensity, the text, reset.
pub open spec fn segment_ops(target: OutputTarget, segment: Segment) -> Seq<Op> {
    color_ops(segment.foreground) + intensity_ops(target, segment.set_bold) + seq![
        Op::Print(segment.text),
    ] + reset_ops(segment.reset_color)
}

/// The operations of a batch: those of its segments, in the order of the
/// segments.
pub open spec fn batch_ops(target: OutputTarget, batch: Seq<Segment>) -> Seq<Op>
    decreases batch.len(),
{
    if batch.len() == 0 {
        Seq::empty()
    } else {
        batch_ops(target, batch.drop_last()) + segment_ops(target, batch.last())
    }
}

/// A segment after it was printed as a dynamic one: the text is gone, the
/// style is kept.
pub open spec fn consumed(segment: Segment) -> Segment {
    Segment { text: Seq::empty(), ..segment }
}

/// A batch of dynamic segments after it was printed.
pub open spec fn consumed_batch(batch: Seq<Segment>) -> Seq<Segment> {
    batch.map_values(|segment: Segment| consumed(segment))
}


/// A segment of fixed text, as help texts are made of. Printing does not
/// change it.
#[derive(Debug)]
pub struct StaticStringPrintable<'a> {
    str: &'a str,
    foreground: Option<Color>,
    set_bold: bool,
    reset_color: bool,
}

/// A segment whose text is made when it is needed. Printing takes the text
/// out of it.
#[derive(Debug)]
pub struct StringPrintable {
    string: String,
    foreground: Option<Color>,
    set_bold: bool,
    reset_color: bool,
}

impl<'a> View for StaticStringPrintable<'a> {
    type V = Segment;

    closed spec fn view(&self) -> Segment {
        Segment {
            text: self.str@,
            foreground: self.foreground,
            set_bold: self.set_bold,
            reset_color: self.reset_color,
        }
    }
}

impl View for StringPrintable {
    type V = Segment;

    closed spec fn view(&self) -> Segment {
        Segment {
            text: self.string@,
            foreground: self.foreground,
            set_bold: self.set_bold,
            reset_color: self.reset_color,
        }
    }
}

/// What the renderer reads of a batch of static segments.
pub open spec fn static_segments(batch: Seq<StaticStringPrintable<'_>>) -> Seq<Segment> {
    batch.map_values(|segment: StaticStringPrintable<'_>| segment@)
}

/// What the renderer reads of a batch of dynamic segments.
pub open spec fn dynamic_segments(batch: Seq<StringPrintable>) -> Seq<Segment> {
    batch.map_values(|segment: StringPrintable| segment@)
}

impl<'a> StaticStringPrintable<'a> {
    pub fn new(str: &'a str, foreground: Option<Color>, set_bold: bool, reset_color: bool) -> (segment: Self)
        ensures
            segment@ == (Segment { text: str@, foreground, set_bold, reset_color }),
    {
        Self { str, foreground, set_bold, reset_color }
    }

    /// The text of the segment.
    pub fn text(&self) -> (text: &'a str)
        ensures
            text@ == self@.text,
    {
        self.str
    }
}

impl StringPrintable {
    pub fn new(string: String, foreground: Option<Color>, set_bold: bool, reset_color: bool) -> (segment: Self)
        ensures
            segment@ == (Segment { text: string@, foreground, set_bold, reset_color }),
    {
        Self { string, foreground, set_bold, reset_color }
    }

    /// The text that the segment still holds: none once it was printed.
    pub fn text(&self) -> (text: &str)
        ensures
            text@ == self@.text,
    {
        self.string.as_str()
    }

    /// Moves the text out of the segment and leaves it empty.
    fn take_text(&mut self) -> (text: String)
        ensures
            text@ == old(self)@.text,
            final(self)@ == consumed(old(self)@),
    {
        let mut text = String::new();
        std::mem::swap(&mut self.string, &mut text);
        text
    }
}

/// Appends the operations of one segment to `ops`.
fn push_segment(
    ops: &mut Vec<RenderOp>,
    target: OutputTarget,
    foreground: Option<Color>,
    set_bold: bool,
    text: String,
    reset_color: bool,
)
    ensures
        ops_of(final(ops)@) == ops_of(old(ops)@) + segment_ops(
            target,
            Segment { text: text@, foreground, set_bold, reset_color },
        ),
{
    let ghost before = ops_of(ops@);
    let ghost segment = Segment { text: text@, foreground, set_bold, reset_color };
    if let Some(color) = foreground {
        ops.push(RenderOp::SetForeground(color));
    }
    assert(ops_of(ops@) =~= before + color_ops(foreground));
    match target {
        OutputTarget::Stdout => {
            if set_bold {
                ops.push(RenderOp::SetBold);
            } else {
                ops.push(RenderOp::SetNormalIntensity);
            }
        },
        OutputTarget::Stderr => {},
    }
    assert(ops_of(ops@) =~= before + color_ops(foreground) + intensity_ops(target, set_bold));
    ops.push(RenderOp::Print(text));
    assert(ops_of(ops@) =~= before + color_ops(foreground) + intensity_ops(target, set_bold)
        + seq![Op::Print(segment.text)]);
    if reset_color {
        ops.push(RenderOp::ResetColor);
    }
    assert(ops_of(ops@) =~= before + segment_ops(target, segment));
}

/// Renders a batch of static segments for `target`: the operations of its
/// segments, in the order of the segments. The batch is only read, so the
/// same batch renders the same way every time.
pub fn render_static(target: OutputTarget, batch: &[StaticStringPrintable<'_>]) -> (ops: Vec<RenderOp>)
    ensures
        ops_of(ops@) == batch_ops(target, static_segments(batch@)),
{
    let mut ops: Vec<RenderOp> = Vec::new();
    let mut i: usize = 0;
    assert(ops_of(ops@) =~= Seq::<Op>::empty());
    assert(static_segments(batch@).take(0) =~= Seq::<Segment>::empty());
    while i < batch.len()
        invariant
            i <= batch@.len(),
            ops_of(ops@) == batch_ops(target, static_segments(batch@).take(i as int)),
        decreases batch@.len() - i,
    {
        let segment = &batch[i];
        let text: String = segment.str.to_owned();
        proof {
            let done = static_segments(batch@).take(i as int);
            let next = static_segments(batch@).take(i + 1);
            assert(next.drop_last() =~= done);
            assert(next.last() == segment@);
        }
        push_segment(&mut ops, target, segment.foreground, segment.set_bold, text, segment.reset_color);
        i += 1;
    }
    assert(static_segments(batch@).take(i as int) =~= static_segments(batch@));
    ops
}

/// Renders a batch of dynamic segments for `target`: the operations of its
/// segments, in the order of the segments. Each segment gives up its text, so
/// the batch is left consumed: a second rendering prints no text.
pub fn render_dynamic(target: OutputTarget, batch: &mut [StringPrintable]) -> (ops: Vec<RenderOp>)
    ensures
        ops_of(ops@) == batch_ops(target, dynamic_segments(old(batch)@)),
        dynamic_segments(final(batch)@) == consumed_batch(dynamic_segments(old(batch)@)),
{
    let mut ops: Vec<RenderOp> = Vec::new();
    let mut i: usize = 0;
    let n: usize = batch.len();
    assert(ops_of(ops@) =~= Seq::<Op>::empty());
    assert(dynamic_segments(batch@).take(0) =~= Seq::<Segment>::empty());
    while i < n
        invariant
            i <= n,
            n == batch@.len(),
            batch@.len() == old(batch)@.len(),
            ops_of(ops@) == batch_ops(target, dynamic_segments(old(batch)@).take(i as int)),
            forall|k: int| 0 <= k < i ==> (#[trigger] batch@[k])@ == consumed(old(batch)@[k]@),
            forall|k: int| i <= k < n ==> #[trigger] batch@[k] == old(batch)@[k],
        decreases n - i,
    {
        let foreground = batch[i].foreground;
        let set_bold = batch[i].set_bold;
        let reset_color = batch[i].reset_color;
        let text: String = batch[i].take_text();
        proof {
            let done = dynamic_segments(old(batch)@).take(i as int);
            let next = dynamic_segments(old(batch)@).take(i + 1);
            assert(next.drop_last() =~= done);
            assert(next.last() == old(batch)@[i as int]@);
        }
        push_segment(&mut ops, target, foreground, set_bold, text, reset_color);
        i += 1;
    }
    assert(dynamic_segments(old(batch)@).take(i as int) =~= dynamic_segments(old(batch)@));
    assert(dynamic_segments(batch@) =~= consumed_batch(dynamic_segments(old(batch)@)));
    ops
}


/// The renderer: a batch of static segments and a batch of dynamic segments,
/// both borrowed, and the stream they go to.
#[derive(Debug)]
pub struct Printer<'a> {
    pub static_strings: &'a [StaticStringPrintable<'a>],
    pub dynamic_strings: &'a mut [StringPrintable],
    pub use_stderr: bool,
}

impl<'a> Default for Printer<'a> {
    /// A printer that holds nothing and writes to the standard stream.
    fn default() -> (printer: Self)
        ensures
            printer.static_batch().len() == 0,
            printer.dynamic_batch().len() == 0,
            printer.target() == OutputTarget::Stdout,
    {
        Printer { static_strings: &[], dynamic_strings: &mut [], use_stderr: false }
    }
}

impl<'a> Printer<'a> {
    /// The static segments that the next print renders.
    pub open spec fn static_batch(&self) -> Seq<Segment> {
        static_segments(self.static_strings@)
    }

    /// The dynamic segments that the next print renders, as they are now.
    pub open spec fn dynamic_batch(&self) -> Seq<Segment> {
        dynamic_segments(self.dynamic_strings@)
    }

    /// The stream that the next print is meant for.
    pub open spec fn target(&self) -> OutputTarget {
        target_of(self.use_stderr)
    }

    /// Renders what the printer holds for its stream: the static batch first,
    /// then the dynamic batch, each in the order of its segments. The dynamic
    /// batch goes back to its owner consumed, and the printer holds nothing
    /// afterwards; its stream stays as it was set.
    pub fn print(&mut self) -> (rendered: Rendered)
        ensures
            rendered.target == old(self).target(),
            ops_of(rendered.ops@) == batch_ops(old(self).target(), old(self).static_batch())
                + batch_ops(old(self).target(), old(self).dynamic_batch()),
            dynamic_segments(final(old(self).dynamic_strings)@) == consumed_batch(
                old(self).dynamic_batch(),
            ),
            final(self).static_batch().len() == 0,
            final(self).dynamic_batch().len() == 0,
            final(self).target() == old(self).target(),
    {
        let target = if self.use_stderr {
            OutputTarget::Stderr
        } else {
            OutputTarget::Stdout
        };
        let mut ops = render_static(target, self.static_strings);
        let mut dynamic_ops = render_dynamic(target, self.dynamic_strings);
        let ghost first = ops_of(ops@);
        let ghost second = ops_of(dynamic_ops@);
        ops.append(&mut dynamic_ops);
        assert(ops_of(ops@) =~= first + second);
        self.static_strings = &[];
        self.dynamic_strings = &mut [];
        Rendered { target, ops }
    }

    /// Lends the printer the static segments of the next print.
    #[inline]
    pub fn set_static_strings(&mut self, static_strings: &'a [StaticStringPrintable<'a>])
        ensures
            final(self).static_batch() == static_segments(static_strings@),
            final(self).dynamic_batch() == old(self).dynamic_batch(),
            final(final(self).dynamic_strings)@ == final(old(self).dynamic_strings)@,
            final(self).target() == old(self).target(),
    {
        self.static_strings = static_strings;
    }

    /// Lends the printer the dynamic segments of the next print. What the
    /// printer held before goes back to its owner as it is.
    #[inline]
    pub fn set_dynamic_strings(&mut self, dynamic_strings: &'a mut [StringPrintable])
        ensures
            final(self).dynamic_batch() == dynamic_segments(old(dynamic_strings)@),
            final(final(self).dynamic_strings)@ == final(dynamic_strings)@,
            final(old(self).dynamic_strings)@ == old(self).dynamic_strings@,
            final(self).static_batch() == old(self).static_batch(),
            final(self).target() == old(self).target(),
    {
        self.dynamic_strings = dynamic_strings;
    }

    /// Chooses the stream: the error stream if `use_stderr`, else the
    /// standard stream.
    #[inline]
    pub fn set_use_stderr(&mut self, use_stderr: bool)
        ensures
            final(self).target() == target_of(use_stderr),
            final(self).static_batch() == old(self).static_batch(),
            final(self).dynamic_batch() == old(self).dynamic_batch(),
            final(final(self).dynamic_strings)@ == final(old(self).dynamic_strings)@,
    {
        self.use_stderr = use_stderr;
    }
}


/// Rendering goes segment by segment: the operations of a batch are those of
/// its front part followed by those of the rest.
pub proof fn lemma_batch_ops_concat(target: OutputTarget, front: Seq<Segment>, rest: Seq<Segment>)
    ensures
        batch_ops(target, front + rest) == batch_ops(target, front) + batch_ops(target, rest),
    decreases rest.len(),
{
    if rest.len() == 0 {
        assert(front + rest =~= front);
        assert(batch_ops(target, front) + batch_ops(target, rest) =~= batch_ops(target, front));
    } else {
        lemma_batch_ops_concat(target, front, rest.drop_last());
        assert((front + rest).drop_last() =~= front + rest.drop_last());
        assert((front + rest).last() == rest.last());
        assert(batch_ops(target, front + rest) =~= batch_ops(target, front) + batch_ops(
            target,
            rest,
        ));
    }
}

/// Where the operations of segment `i` begin in the operations of `batch`:
/// behind those of all the segments before it.
pub open spec fn ops_before(target: OutputTarget, batch: Seq<Segment>, i: int) -> int {
    batch_ops(target, batch.take(i)).len() as int
}

/// Segments are rendered in the order in which they were given, each as one
/// unbroken run of operations in which the text comes once, after the color
/// and intensity of its own segment. A segment that asks for a reset ends its
/// run with the reset, so nothing of its style is still in force when the next
/// segment begins.
pub proof fn lemma_segments_in_order(target: OutputTarget, batch: Seq<Segment>, i: int)
    requires
        0 <= i < batch.len(),
    ensures
        0 <= ops_before(target, batch, i) < ops_before(target, batch, i + 1) <= batch_ops(
            target,
            batch,
        ).len(),
        batch_ops(target, batch).subrange(
            ops_before(target, batch, i),
            ops_before(target, batch, i + 1),
        ) == segment_ops(target, batch[i]),
        segment_ops(target, batch[i]) == color_ops(batch[i].foreground) + intensity_ops(
            target,
            batch[i].set_bold,
        ) + seq![Op::Print(batch[i].text)] + reset_ops(batch[i].reset_color),
        batch[i].reset_color ==> batch_ops(target, batch)[ops_before(target, batch, i + 1) - 1]
            == Op::ResetColor,
        ops_before(target, batch, batch.len() as int) == batch_ops(target, batch).len(),
{
    let done = batch.take(i);
    let upto = batch.take(i + 1);
    let rest = batch.skip(i + 1);
    assert(upto.drop_last() =~= done);
    assert(upto.last() == batch[i]);
    assert(upto + rest =~= batch);
    assert(batch.take(batch.len() as int) =~= batch);
    lemma_batch_ops_concat(target, upto, rest);
    let run = segment_ops(target, batch[i]);
    assert(run.len() >= 1);
    assert(batch_ops(target, upto) == batch_ops(target, done) + run);
    assert(batch_ops(target, batch).subrange(
        ops_before(target, batch, i),
        ops_before(target, batch, i + 1),
    ) =~= run);
    if batch[i].reset_color {
        assert(run.last() == Op::ResetColor);
    }
}

/// A static batch can be printed as often as it is needed: printing only
/// reads it, so two renderings of one batch for one stream are the same
/// operations.
pub proof fn lemma_static_batch_prints_alike(
    target: OutputTarget,
    batch: Seq<StaticStringPrintable<'_>>,
    first: Seq<RenderOp>,
    second: Seq<RenderOp>,
)
    requires
        ops_of(first) == batch_ops(target, static_segments(batch)),
        ops_of(second) == batch_ops(target, static_segments(batch)),
    ensures
        ops_of(first) == ops_of(second),
        first.len() == second.len(),
        forall|k: int| 0 <= k < first.len() ==> (#[trigger] first[k])@ == second[k]@,
{
    assert(ops_of(first).len() == first.len());
    assert(ops_of(second).len() == second.len());
    assert forall|k: int| 0 <= k < first.len() implies (#[trigger] first[k])@ == second[k]@ by {
        assert(ops_of(first)[k] == first[k]@);
        assert(ops_of(second)[k] == second[k]@);
    }
}

/// A dynamic batch can be printed once: what is left of it after a print
/// holds no text, prints no text when it is rendered again, and is not changed
/// any further by that.
pub proof fn lemma_consumed_batch_is_empty(target: OutputTarget, batch: Seq<Segment>)
    ensures
        consumed_batch(batch).len() == batch.len(),
        forall|i: int|
            0 <= i < batch.len() ==> (#[trigger] consumed_batch(batch)[i]).text
                == Seq::<char>::empty(),
        forall|k: int|
            0 <= k < batch_ops(target, consumed_batch(batch)).len() && (#[trigger] batch_ops(
                target,
                consumed_batch(batch),
            )[k]) is Print ==> batch_ops(target, consumed_batch(batch))[k] == Op::Print(
                Seq::<char>::empty(),
            ),
        consumed_batch(consumed_batch(batch)) == consumed_batch(batch),
    decreases batch.len(),
{
    assert(consumed_batch(consumed_batch(batch)) =~= consumed_batch(batch));
    if batch.len() > 0 {
        lemma_consumed_batch_is_empty(target, batch.drop_last());
        assert(consumed_batch(batch).drop_last() =~= consumed_batch(batch.drop_last()));
    }
}

} // verus!
