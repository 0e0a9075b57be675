use info_utils::output::fatal::{
    fatal_step, fatal_step_named, Latch, Termination, DEFAULT_EXIT_CODE,
};
use info_utils::output::layout::prefix_lines;
use info_utils::output::line::{named_report, named_tag, report, tag, unit_name};
use info_utils::output::severity::{Severity, RESET, UNIT_STYLE, UNKNOWN_UNIT};

#[test]
fn labels_and_styles() {
    assert_eq!(Severity::Info.label(), "info");
    assert_eq!(Severity::Warn.label(), "warn");
    assert_eq!(Severity::Error.label(), "error");
    assert_eq!(Severity::Info.style(), "\x1b[0;1;34m");
    assert_eq!(Severity::Warn.style(), "\x1b[0;1;33m");
    assert_eq!(Severity::Error.style(), "\x1b[0;1;31m");
    assert_eq!(RESET, "\x1b[0m");
    assert_eq!(UNIT_STYLE, "\x1b[0;36m");
}

#[test]
fn severities_can_be_told_apart() {
    let all = [Severity::Info, Severity::Warn, Severity::Error];
    for (i, one) in all.iter().enumerate() {
        for (j, other) in all.iter().enumerate() {
            if i != j {
                assert_ne!(one.label(), other.label());
                assert_ne!(one.style(), other.style());
                assert_ne!(tag(*one), tag(*other));
            }
        }
    }
}

#[test]
fn names_stand_in_one_column() {
    for severity in [Severity::Info, Severity::Warn, Severity::Error] {
        assert_eq!(severity.label().len() + severity.gap().len(), 6);
    }
}

#[test]
fn tags() {
    assert_eq!(tag(Severity::Info), "\x1b[0;1;34minfo\x1b[0m ");
    assert_eq!(tag(Severity::Warn), "\x1b[0;1;33mwarn\x1b[0m ");
    assert_eq!(tag(Severity::Error), "\x1b[0;1;31merror\x1b[0m ");
    assert_eq!(
        named_tag(Severity::Info, Some("main")),
        "\x1b[0;1;34minfo\x1b[0;36m  [main]:\x1b[0m "
    );
    assert_eq!(
        named_tag(Severity::Error, Some("worker-1")),
        "\x1b[0;1;31merror\x1b[0;36m [worker-1]:\x1b[0m "
    );
}

#[test]
fn unit_without_a_name() {
    assert_eq!(UNKNOWN_UNIT, "<unknown>");
    assert_eq!(unit_name(None), "<unknown>");
    assert_eq!(unit_name(Some("main")), "main");
    assert_eq!(unit_name(Some("")), "");
    assert_eq!(
        named_tag(Severity::Warn, None),
        "\x1b[0;1;33mwarn\x1b[0;36m  [<unknown>]:\x1b[0m "
    );
}

#[test]
fn report_of_one_line() {
    assert_eq!(
        report(Severity::Info, "program data: important information"),
        "\x1b[0;1;34minfo\x1b[0m program data: important information"
    );
    assert_eq!(
        report(Severity::Error, "Something unrecoverable went wrong!"),
        "\x1b[0;1;31merror\x1b[0m Something unrecoverable went wrong!"
    );
    assert_eq!(report(Severity::Warn, ""), "\x1b[0;1;33mwarn\x1b[0m ");
    assert_eq!(
        named_report(Severity::Warn, Some("main"), "low on fuel"),
        "\x1b[0;1;33mwarn\x1b[0;36m  [main]:\x1b[0m low on fuel"
    );
}

#[test]
fn report_of_several_lines() {
    assert_eq!(
        report(Severity::Error, "first\nsecond"),
        "\x1b[0;1;31merror\x1b[0m first\n\x1b[0;1;31merror\x1b[0m second"
    );
    assert_eq!(
        named_report(Severity::Info, None, "a\n\nb"),
        "\x1b[0;1;34minfo\x1b[0;36m  [<unknown>]:\x1b[0m a\n\
         \x1b[0;1;34minfo\x1b[0;36m  [<unknown>]:\x1b[0m \n\
         \x1b[0;1;34minfo\x1b[0;36m  [<unknown>]:\x1b[0m b"
    );
}

#[test]
fn prefix_before_each_line() {
    assert_eq!(prefix_lines("> ", ""), "> ");
    assert_eq!(prefix_lines("> ", "one"), "> one");
    assert_eq!(prefix_lines("> ", "one\ntwo"), "> one\n> two");
    assert_eq!(prefix_lines("> ", "one\n"), "> one\n> ");
    assert_eq!(prefix_lines("> ", "\n"), "> \n> ");
    assert_eq!(prefix_lines("", "one\ntwo"), "one\ntwo");
    assert_eq!(prefix_lines("» ", "väl\nå"), "» väl\n» å");
    assert_eq!(prefix_lines("> ", "one\r\ntwo"), "> one\r\n> two");
}

#[test]
fn layout_keeps_the_number_of_lines() {
    for message in ["", "one", "one\ntwo", "\n\n\n", "a\nb\nc\n"] {
        let laid = prefix_lines("tag ", message);
        assert_eq!(laid.matches('\n').count(), message.matches('\n').count());
        let first = prefix_lines("tag ", "head");
        let joined = format!("head\n{}", message);
        assert_eq!(prefix_lines("tag ", &joined), format!("{}\n{}", first, laid));
    }
}

#[test]
fn exit_code_defaults_to_one() {
    assert_eq!(DEFAULT_EXIT_CODE, 1);
    assert_eq!(Termination::exit(), Termination::ProcessExit { code: 1 });
    assert_ne!(Termination::exit(), Termination::UnitAbort);
}

#[test]
fn latch_is_set_once_and_stays_set() {
    let mut latch = Latch::new();
    assert!(!latch.is_set());
    assert!(!latch.fatal(Termination::exit()));
    assert!(!latch.fatal(Termination::ProcessExit { code: 3 }));
    assert!(!latch.is_set());
    assert!(latch.fatal(Termination::UnitAbort));
    assert!(latch.is_set());
    assert!(!latch.fatal(Termination::UnitAbort));
    assert!(latch.is_set());
    assert!(!latch.fatal(Termination::exit()));
    assert!(latch.is_set());
}

#[test]
fn install_is_idempotent() {
    let mut latch = Latch::new();
    assert!(latch.install());
    assert!(latch.is_set());
    assert!(!latch.install());
    assert!(latch.is_set());
}

#[test]
fn fatal_report_is_an_error_line() {
    let mut latch = Latch::new();
    let step = fatal_step(&mut latch, "Something unrecoverable went wrong!", Termination::exit());
    assert_eq!(step.text, "\x1b[0;1;31merror\x1b[0m Something unrecoverable went wrong!");
    assert_eq!(step.text, report(Severity::Error, "Something unrecoverable went wrong!"));
    assert_eq!(step.ending, Termination::ProcessExit { code: 1 });
    assert!(!step.silence);
    assert!(!latch.is_set());

    let step = fatal_step(&mut latch, "one\ntwo", Termination::ProcessExit { code: 3 });
    assert_eq!(step.text, "\x1b[0;1;31merror\x1b[0m one\n\x1b[0;1;31merror\x1b[0m two");
    assert_eq!(step.ending, Termination::ProcessExit { code: 3 });
    assert!(!step.silence);
    assert!(!latch.is_set());
}

#[test]
fn fatal_report_silences_on_the_first_unit_abort_only() {
    let mut latch = Latch::new();
    let step = fatal_step(&mut latch, "Noncritical error, thread aborting", Termination::UnitAbort);
    assert_eq!(step.text, "\x1b[0;1;31merror\x1b[0m Noncritical error, thread aborting");
    assert_eq!(step.ending, Termination::UnitAbort);
    assert!(step.silence);
    assert!(latch.is_set());

    let step = fatal_step(&mut latch, "again", Termination::UnitAbort);
    assert!(!step.silence);
    assert!(latch.is_set());

    let step = fatal_step(&mut latch, "exit", Termination::exit());
    assert!(!step.silence);
    assert!(latch.is_set());
}

#[test]
fn fatal_report_names_the_unit() {
    let mut latch = Latch::new();
    let step = fatal_step_named(&mut latch, Some("worker-1"), "down", Termination::UnitAbort);
    assert_eq!(step.text, "\x1b[0;1;31merror\x1b[0;36m [worker-1]:\x1b[0m down");
    assert_eq!(step.ending, Termination::UnitAbort);
    assert!(step.silence);
    assert!(latch.is_set());

    let step = fatal_step_named(&mut latch, None, "down", Termination::exit());
    assert_eq!(step.text, "\x1b[0;1;31merror\x1b[0;36m [<unknown>]:\x1b[0m down");
    assert_eq!(step.text, named_report(Severity::Error, None, "down"));
    assert!(!step.silence);
    assert!(latch.is_set());
}
