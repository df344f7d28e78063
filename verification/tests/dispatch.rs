use unilog::clock::{STAMP_PATTERN, STAMP_WIDTH};
use unilog::{Dispatch, FileJob, Level, UniLog};

const MONTHS: [&str; 12] =
    ["Jan", "Feb", "Mar", "Apr", "May", "Jun", "Jul", "Aug", "Sep", "Oct", "Nov", "Dec"];

fn two_digits(text: &str, at: usize) -> Option<u32> {
    let tens = text.chars().nth(at)?.to_digit(10)?;
    let ones = text.chars().nth(at + 1)?.to_digit(10)?;
    Some(tens * 10 + ones)
}

fn looks_like_a_stamp(text: &str) -> bool {
    let separators_fit = text.chars().nth(3) == Some(' ')
        && text.chars().nth(6) == Some(' ')
        && text.chars().nth(9) == Some(':')
        && text.chars().nth(12) == Some(':');
    text.chars().count() == STAMP_WIDTH
        && text.is_ascii()
        && MONTHS.contains(&&text[0..3])
        && separators_fit
        && matches!(two_digits(text, 4), Some(1..=31))
        && matches!(two_digits(text, 7), Some(0..=23))
        && matches!(two_digits(text, 10), Some(0..=59))
        && matches!(two_digits(text, 13), Some(0..=60))
}

#[test]
fn default_sink_echoes_a_green_info_line() {
    let dispatch = UniLog::init().log("hello", Level::Info);
    assert_eq!(dispatch.file, None);
    assert_eq!(dispatch.terminal, Some(String::from("\x1b[32m[] | [INFO  ]   : hello\n")));
}

#[test]
fn unstamped_lines_open_with_an_empty_bracket() {
    let sink = UniLog::init().set_log_file_name("server.log");
    for message in ["", "hello", "[x] | [y]", "multi\nline", "日本語"] {
        for level in [Level::Fatal, Level::Notice, Level::Trace] {
            let dispatch = sink.log(message, level);
            let job = dispatch.file.expect("a file is named");
            assert!(job.log_entry.starts_with("[] | ["), "{:?}", job.log_entry);
            let echoed = dispatch.terminal.expect("the echo is on");
            assert_eq!(echoed, format!("{}{}", level.color(), job.log_entry));
        }
    }
}

#[test]
fn render_builds_the_documented_line() {
    assert_eq!(UniLog::render("", "hello", Level::Info), "[] | [INFO  ]   : hello\n");
    assert_eq!(
        UniLog::render("Jul 08 00:34:60", "disk full", Level::Fatal),
        "[Jul 08 00:34:60] | [FATAL ]   : disk full\n"
    );
    assert_eq!(UniLog::render("", "", Level::Notice), "[] | [NOTICE]   : \n");
    assert_eq!(UniLog::render("x", "é", Level::Warn), "[x] | [WARNN ]   : é\n");
}

#[test]
fn log_stamped_addresses_file_and_terminal() {
    let sink = UniLog::init().set_log_file_name("server.log").max_log_file_size(5);
    let dispatch = sink.log_stamped("Jan 02 03:04:05", "started", Level::Notice);
    assert_eq!(
        dispatch,
        Dispatch {
            file: Some(FileJob {
                file_name: String::from("server.log"),
                log_entry: String::from("[Jan 02 03:04:05] | [NOTICE]   : started\n"),
                max_log_file_size_in_mb: 5,
                detached: false,
            }),
            terminal: Some(String::from("\x1b[34m[Jan 02 03:04:05] | [NOTICE]   : started\n")),
        }
    );
}

#[test]
fn detached_mode_marks_the_file_job_only() {
    let sink = UniLog::init().set_log_file_name("a.log").async_logging();
    let dispatch = sink.log("m", Level::Debug);
    let job = dispatch.file.expect("a file is named");
    assert!(job.detached);
    assert_eq!(job.max_log_file_size_in_mb, 2000);
    assert_eq!(job.file_name, "a.log");
    assert_eq!(job.log_entry, "[] | [DEBUG ]   : m\n");
    assert_eq!(dispatch.terminal, Some(String::from("\x1b[35m[] | [DEBUG ]   : m\n")));
}

#[test]
fn echo_without_colors_is_the_bare_line() {
    let mut sink = UniLog::init();
    sink.colorful = false;
    let dispatch = sink.log("plain", Level::Error);
    assert_eq!(dispatch.terminal, Some(String::from("[] | [ERROR ]   : plain\n")));
    assert_eq!(dispatch.file, None);
}

#[test]
fn echo_carries_no_reset_sequence() {
    let dispatch = UniLog::init().log("bleed", Level::Fatal);
    let echoed = dispatch.terminal.expect("the echo is on");
    assert_eq!(echoed, "\x1b[1m\x1b[31m[] | [FATAL ]   : bleed\n");
    assert!(!echoed.contains("\x1b[0m"));
}

#[test]
fn silent_sink_without_file_asks_for_nothing() {
    let dispatch = UniLog::init().log_to_terminal(false).log("lost", Level::Trace);
    assert_eq!(dispatch, Dispatch { file: None, terminal: None });
}

#[test]
fn file_only_sink_skips_the_echo() {
    let sink = UniLog::init().log_to_terminal(false).set_log_file_name("only.log");
    let dispatch = sink.log("kept", Level::Warn);
    assert_eq!(dispatch.terminal, None);
    let job = dispatch.file.expect("a file is named");
    assert_eq!(job.log_entry, "[] | [WARNN ]   : kept\n");
    assert!(!job.detached);
}

#[test]
fn stamped_lines_carry_the_time_of_day() {
    let sink = UniLog::init().enable_timestamping().set_log_file_name("t.log");
    let dispatch = sink.log("tick", Level::Info);
    let job = dispatch.file.expect("a file is named");
    let tail = "] | [INFO  ]   : tick\n";
    assert!(job.log_entry.starts_with('['));
    assert!(job.log_entry.ends_with(tail), "{:?}", job.log_entry);
    let stamp = &job.log_entry[1..job.log_entry.len() - tail.len()];
    assert!(looks_like_a_stamp(stamp), "{:?}", stamp);
    assert_ne!(stamp, STAMP_PATTERN);
    assert_eq!(dispatch.terminal, Some(format!("\x1b[32m{}", job.log_entry)));
}

#[test]
fn stamp_shape_is_told_apart_from_other_text() {
    assert!(looks_like_a_stamp("Jul 08 00:34:60"));
    assert!(looks_like_a_stamp("Dec 31 23:59:59"));
    assert!(!looks_like_a_stamp(STAMP_PATTERN));
    assert!(!looks_like_a_stamp("Jul 00 00:00:00"));
    assert!(!looks_like_a_stamp("Jul 08 24:00:00"));
    assert!(!looks_like_a_stamp("jul 08 00:00:00"));
    assert!(!looks_like_a_stamp(""));
    assert_eq!(STAMP_WIDTH, 15);
    assert_eq!(STAMP_PATTERN, "%b %d %H:%M:%S");
}

#[test]
fn log_never_fails_on_odd_messages() {
    let sink = UniLog::init().set_log_file_name("");
    let long = "x".repeat(100_000);
    for message in ["", "\n", "\0", "\x1b[0m", long.as_str()] {
        let dispatch = sink.log(message, Level::Error);
        let job = dispatch.file.expect("a file is named");
        assert_eq!(job.log_entry, format!("[] | [ERROR ]   : {}\n", message));
        assert_eq!(job.file_name, "");
    }
}
