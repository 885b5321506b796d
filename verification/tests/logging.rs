use crossterm::style::Color;
use thorium::logging::{log, log_styled, LogType};
use thorium::printer::{OutputTarget, RenderOp};

fn print_op(text: &str) -> RenderOp {
    RenderOp::Print(text.to_string())
}

#[test]
fn labels_and_colors() {
    assert_eq!(LogType::Warning.label_text(), "WARNING ");
    assert_eq!(LogType::Panic.label_text(), "PANIC ");
    assert_eq!(LogType::Error.label_text(), "ERROR ");
    assert_eq!(LogType::Custom("NOTE ".to_string(), Color::Blue).label_text(), "NOTE ");
    assert_eq!(LogType::Warning.label_color(), Color::Yellow);
    assert_eq!(LogType::Panic.label_color(), Color::Red);
    assert_eq!(LogType::Error.label_color(), Color::Red);
    assert_eq!(LogType::Custom("NOTE ".to_string(), Color::Blue).label_color(), Color::Blue);
}

#[test]
fn streams_of_the_levels() {
    assert!(!LogType::Warning.uses_stderr());
    assert!(LogType::Panic.uses_stderr());
    assert!(LogType::Error.uses_stderr());
    assert!(!LogType::Custom("NOTE ".to_string(), Color::Blue).uses_stderr());
}

#[test]
fn styled_label_is_colored() {
    crossterm::style::force_color_output(true);
    assert_eq!(LogType::Warning.to_styled(), "\u{1b}[38;5;11mWARNING \u{1b}[39m");
    assert_eq!(LogType::Error.to_styled(), "\u{1b}[38;5;9mERROR \u{1b}[39m");
    assert_eq!(LogType::Panic.to_styled(), "\u{1b}[38;5;9mPANIC \u{1b}[39m");
    assert_eq!(
        LogType::Custom("NOTE ".to_string(), Color::Rgb { r: 1, g: 2, b: 3 }).to_styled(),
        "\u{1b}[38;2;1;2;3mNOTE \u{1b}[39m"
    );
}

#[test]
fn styled_label_holds_the_label() {
    crossterm::style::force_color_output(true);
    assert!(LogType::Warning.to_styled().contains("WARNING "));
    assert!(LogType::Custom("φ ".to_string(), Color::Grey).to_styled().contains("φ "));
}

#[test]
fn log_styled_on_each_stream() {
    let rendered = log_styled(false, "L ".to_string(), "message".to_string());
    assert_eq!(rendered.target, OutputTarget::Stdout);
    assert_eq!(
        rendered.ops,
        vec![
            RenderOp::SetBold,
            print_op("L "),
            RenderOp::ResetColor,
            RenderOp::SetNormalIntensity,
            print_op("message"),
            RenderOp::ResetColor,
        ]
    );
    let rendered = log_styled(true, "L ".to_string(), "message".to_string());
    assert_eq!(rendered.target, OutputTarget::Stderr);
    assert_eq!(
        rendered.ops,
        vec![print_op("L "), RenderOp::ResetColor, print_op("message"), RenderOp::ResetColor]
    );
}

#[test]
fn log_warning_goes_to_stdout() {
    crossterm::style::force_color_output(true);
    let rendered = log(LogType::Warning, "careful".to_string());
    assert_eq!(rendered.target, OutputTarget::Stdout);
    assert_eq!(rendered.ops.len(), 6);
    assert_eq!(rendered.ops[0], RenderOp::SetBold);
    assert_eq!(rendered.ops[1], print_op(&LogType::Warning.to_styled()));
    assert_eq!(rendered.ops[2], RenderOp::ResetColor);
    assert_eq!(rendered.ops[3], RenderOp::SetNormalIntensity);
    assert_eq!(rendered.ops[4], print_op("careful"));
    assert_eq!(rendered.ops[5], RenderOp::ResetColor);
}

#[test]
fn log_error_and_panic_go_to_stderr() {
    crossterm::style::force_color_output(true);
    for (level, same) in [(LogType::Error, LogType::Error), (LogType::Panic, LogType::Panic)] {
        let rendered = log(level, "broken".to_string());
        assert_eq!(rendered.target, OutputTarget::Stderr);
        assert_eq!(
            rendered.ops,
            vec![
                print_op(&same.to_styled()),
                RenderOp::ResetColor,
                print_op("broken"),
                RenderOp::ResetColor,
            ]
        );
    }
}

#[test]
fn log_custom_goes_to_stdout() {
    crossterm::style::force_color_output(true);
    let rendered = log(LogType::Custom("NOTE ".to_string(), Color::Green), "fine".to_string());
    assert_eq!(rendered.target, OutputTarget::Stdout);
    assert_eq!(rendered.ops.len(), 6);
    match &rendered.ops[1] {
        RenderOp::Print(label) => assert!(label.contains("NOTE ")),
        other => panic!("unexpected operation {:?}", other),
    }
    assert_eq!(rendered.ops[4], print_op("fine"));
}
