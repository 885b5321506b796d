use crossterm::style::Color;
use thorium::printer::{
    render_dynamic, render_static, OutputTarget, Printer, RenderOp, StaticStringPrintable,
    StringPrintable,
};

fn print_op(text: &str) -> RenderOp {
    RenderOp::Print(text.to_string())
}

#[test]
fn static_segment_on_stdout() {
    let batch = [StaticStringPrintable::new("hi", Some(Color::Green), true, true)];
    assert_eq!(
        render_static(OutputTarget::Stdout, &batch),
        vec![
            RenderOp::SetForeground(Color::Green),
            RenderOp::SetBold,
            print_op("hi"),
            RenderOp::ResetColor,
        ]
    );
}

#[test]
fn plain_segment_on_stdout_sets_normal_intensity() {
    let batch = [StaticStringPrintable::new("hi", None, false, false)];
    assert_eq!(
        render_static(OutputTarget::Stdout, &batch),
        vec![RenderOp::SetNormalIntensity, print_op("hi")]
    );
}

#[test]
fn stderr_gets_no_intensity_operation() {
    let batch = [
        StaticStringPrintable::new("a", Some(Color::Red), true, true),
        StaticStringPrintable::new("b", None, false, false),
    ];
    assert_eq!(
        render_static(OutputTarget::Stderr, &batch),
        vec![
            RenderOp::SetForeground(Color::Red),
            print_op("a"),
            RenderOp::ResetColor,
            print_op("b"),
        ]
    );
}

#[test]
fn empty_batches_render_nothing() {
    assert_eq!(render_static(OutputTarget::Stdout, &[]), vec![]);
    assert_eq!(render_dynamic(OutputTarget::Stderr, &mut []), vec![]);
}

#[test]
fn static_batch_prints_the_same_twice() {
    let batch = [
        StaticStringPrintable::new("Usage:", None, true, true),
        StaticStringPrintable::new(" ", None, false, false),
        StaticStringPrintable::new("thorium", Some(Color::Rgb { r: 141, g: 141, b: 142 }), true, true),
    ];
    for target in [OutputTarget::Stdout, OutputTarget::Stderr] {
        let first = render_static(target, &batch);
        let second = render_static(target, &batch);
        assert_eq!(first, second);
        assert!(!first.is_empty());
    }
    assert_eq!(batch[0].text(), "Usage:");
    assert_eq!(batch[2].text(), "thorium");

    let mut printer = Printer::default();
    printer.set_static_strings(&batch);
    let first = printer.print();
    printer.set_static_strings(&batch);
    let second = printer.print();
    assert_eq!(first.ops, second.ops);
    assert_eq!(first.ops, render_static(OutputTarget::Stdout, &batch));
}

#[test]
fn dynamic_batch_is_consumed_by_printing() {
    let mut batch = [
        StringPrintable::new("ERROR ".to_string(), Some(Color::Red), true, true),
        StringPrintable::new("disk full".to_string(), None, false, true),
    ];
    let first = render_dynamic(OutputTarget::Stdout, &mut batch);
    assert_eq!(
        first,
        vec![
            RenderOp::SetForeground(Color::Red),
            RenderOp::SetBold,
            print_op("ERROR "),
            RenderOp::ResetColor,
            RenderOp::SetNormalIntensity,
            print_op("disk full"),
            RenderOp::ResetColor,
        ]
    );
    assert_eq!(batch[0].text(), "");
    assert_eq!(batch[1].text(), "");

    let second = render_dynamic(OutputTarget::Stdout, &mut batch);
    assert_eq!(
        second,
        vec![
            RenderOp::SetForeground(Color::Red),
            RenderOp::SetBold,
            print_op(""),
            RenderOp::ResetColor,
            RenderOp::SetNormalIntensity,
            print_op(""),
            RenderOp::ResetColor,
        ]
    );
    let third = render_dynamic(OutputTarget::Stdout, &mut batch);
    assert_eq!(second, third);
}

#[test]
fn printer_hands_the_dynamic_batch_back_consumed() {
    let mut batch = [StringPrintable::new("once".to_string(), None, false, false)];
    let mut printer = Printer::default();
    printer.set_use_stderr(true);
    printer.set_dynamic_strings(&mut batch);
    let first = printer.print();
    assert_eq!(first.target, OutputTarget::Stderr);
    assert_eq!(first.ops, vec![print_op("once")]);
    let again = printer.print();
    assert_eq!(again.target, OutputTarget::Stderr);
    assert!(again.ops.is_empty());
    assert_eq!(batch[0].text(), "");

    let mut printer = Printer::default();
    printer.set_use_stderr(true);
    printer.set_dynamic_strings(&mut batch);
    let second = printer.print();
    assert_eq!(second.ops, vec![print_op("")]);
}

#[test]
fn segments_are_rendered_in_input_order() {
    let batch = [
        StaticStringPrintable::new("1", Some(Color::Blue), true, true),
        StaticStringPrintable::new("2", None, false, false),
        StaticStringPrintable::new("3", Some(Color::AnsiValue(7)), false, true),
    ];
    let ops = render_static(OutputTarget::Stdout, &batch);
    assert_eq!(
        ops,
        vec![
            RenderOp::SetForeground(Color::Blue),
            RenderOp::SetBold,
            print_op("1"),
            RenderOp::ResetColor,
            RenderOp::SetNormalIntensity,
            print_op("2"),
            RenderOp::SetForeground(Color::AnsiValue(7)),
            RenderOp::SetNormalIntensity,
            print_op("3"),
            RenderOp::ResetColor,
        ]
    );
}

#[test]
fn reset_comes_before_the_next_segment() {
    let batch = [
        StaticStringPrintable::new("styled", Some(Color::Magenta), true, true),
        StaticStringPrintable::new("next", None, false, false),
    ];
    for target in [OutputTarget::Stdout, OutputTarget::Stderr] {
        let ops = render_static(target, &batch);
        let styled = ops.iter().position(|op| *op == print_op("styled")).unwrap();
        let next = ops.iter().position(|op| *op == print_op("next")).unwrap();
        assert_eq!(ops[styled + 1], RenderOp::ResetColor);
        assert!(styled + 1 < next);
        assert!(ops[styled + 2..next]
            .iter()
            .all(|op| *op == RenderOp::SetNormalIntensity));
    }
}

#[test]
fn printer_renders_static_before_dynamic() {
    let statics = [StaticStringPrintable::new("label: ", None, true, true)];
    let mut dynamics = [StringPrintable::new("value".to_string(), Some(Color::Cyan), false, true)];
    let mut printer = Printer::default();
    printer.set_static_strings(&statics);
    printer.set_dynamic_strings(&mut dynamics);
    let rendered = printer.print();
    assert_eq!(rendered.target, OutputTarget::Stdout);
    assert_eq!(
        rendered.ops,
        vec![
            RenderOp::SetBold,
            print_op("label: "),
            RenderOp::ResetColor,
            RenderOp::SetForeground(Color::Cyan),
            RenderOp::SetNormalIntensity,
            print_op("value"),
            RenderOp::ResetColor,
        ]
    );
    assert_eq!(dynamics[0].text(), "");
    assert_eq!(statics[0].text(), "label: ");
}

#[test]
fn printer_keeps_its_stream_after_printing() {
    let mut printer = Printer::default();
    assert_eq!(printer.print().target, OutputTarget::Stdout);
    printer.set_use_stderr(true);
    assert_eq!(printer.print().target, OutputTarget::Stderr);
    assert_eq!(printer.print().target, OutputTarget::Stderr);
    printer.set_use_stderr(false);
    assert_eq!(printer.print().target, OutputTarget::Stdout);
}
