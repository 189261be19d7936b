use janus_plugin::debug::{
    assemble_log, print_log, LabelColor, LogLevel, LogParameters, Timestamp,
};

fn fixed_clock(year: i32, month: u32, day: u32, hour: u32, min: u32, sec: u32) -> Timestamp {
    Timestamp::new(year, month, day, hour, min, sec).unwrap()
}

fn clock_of_the_tests() -> Timestamp {
    fixed_clock(2017, 10, 10, 1, 37, 46)
}

fn default_log_parameters() -> LogParameters<fn() -> Timestamp> {
    LogParameters {
        log_timestamps: false,
        log_colors: false,
        clock: clock_of_the_tests,
    }
}

#[test]
fn log_format_correctness() {
    assert_eq!(
        "[Tue Oct 10 01:37:46 2017] [WARN] Test message.\n",
        print_log(
            LogLevel::Warn,
            &format!("{}", "Test message."),
            LogParameters {
                log_timestamps: true,
                ..default_log_parameters()
            }
        )
    )
}

#[test]
fn log_colored_output() {
    assert_eq!(
        "\u{1b}[35m[FATAL] \u{1b}[0mCrash!\n",
        print_log(
            LogLevel::Fatal,
            &format!("{}", "Crash!"),
            LogParameters {
                log_colors: true,
                ..default_log_parameters()
            }
        )
    );

    assert_eq!(
        "\u{1b}[31m[ERR] \u{1b}[0mAn error occurred!\n",
        print_log(
            LogLevel::Error,
            &format!("{}", "An error occurred!"),
            LogParameters {
                log_colors: true,
                ..default_log_parameters()
            }
        )
    );

    assert_eq!(
        "\u{1b}[33m[WARN] \u{1b}[0mAttention!\n",
        print_log(
            LogLevel::Warn,
            &format!("{}", "Attention!"),
            LogParameters {
                log_colors: true,
                ..default_log_parameters()
            }
        )
    );

    assert_eq!(
        "Just a message.\n",
        print_log(
            LogLevel::Info,
            &format!("{}", "Just a message."),
            LogParameters {
                log_colors: true,
                ..default_log_parameters()
            }
        )
    );
}

#[test]
fn assembled_line_has_every_part_in_order() {
    assert_eq!(
        "[stamp] [WARN] hello\n",
        assemble_log(Some("[stamp]"), Some("[WARN] "), "hello")
    );
    assert_eq!("hello\n", assemble_log(None, None, "hello"));
}

#[test]
fn levels_have_the_numbers_of_janus() {
    let levels = [
        LogLevel::Fatal,
        LogLevel::Error,
        LogLevel::Warn,
        LogLevel::Info,
        LogLevel::Verb,
        LogLevel::Huge,
        LogLevel::Dbg,
    ];
    for (i, level) in levels.iter().enumerate() {
        assert_eq!(level.code(), i as i32 + 1);
        assert_eq!(LogLevel::from_code(i as i32 + 1), Some(*level));
    }
    assert_eq!(LogLevel::from_code(0), None);
    assert_eq!(LogLevel::from_code(8), None);
}

#[test]
fn labels_are_the_names_in_capitals() {
    assert_eq!(LogLevel::Fatal.label(), "[FATAL] ");
    assert_eq!(LogLevel::Error.label(), "[ERR] ");
    assert_eq!(LogLevel::Warn.label(), "[WARN] ");
    assert_eq!(LogLevel::Info.label(), "[INFO] ");
    assert_eq!(LogLevel::Verb.label(), "[VERB] ");
    assert_eq!(LogLevel::Huge.label(), "[HUGE] ");
    assert_eq!(LogLevel::Dbg.label(), "[DBG] ");
}

#[test]
fn the_three_most_severe_levels_have_a_color() {
    assert_eq!(LogLevel::Fatal.color(), Some(LabelColor::Magenta));
    assert_eq!(LogLevel::Error.color(), Some(LabelColor::Red));
    assert_eq!(LogLevel::Warn.color(), Some(LabelColor::Yellow));
    assert_eq!(LogLevel::Info.color(), None);
    assert_eq!(LogLevel::Dbg.color(), None);
}

#[test]
fn a_level_is_logged_up_to_the_threshold() {
    assert!(LogLevel::Warn.enabled(4));
    assert!(LogLevel::Info.enabled(4));
    assert!(!LogLevel::Verb.enabled(4));
    assert!(!LogLevel::Fatal.enabled(0));
}

#[test]
fn parameters_are_switched_on_by_one() {
    let params = LogParameters::new(1, 0, clock_of_the_tests);
    assert!(params.log_timestamps);
    assert!(!params.log_colors);
    let params = LogParameters::new(2, 1, clock_of_the_tests);
    assert!(!params.log_timestamps);
    assert!(params.log_colors);
}

#[test]
fn timestamps_are_seconds_of_the_calendar() {
    assert!(Timestamp::new(2017, 10, 10, 1, 37, 46).is_some());
    assert_eq!(
        Timestamp::new(2017, 10, 10, 1, 37, 46).unwrap().parts(),
        (2017, 10, 10, 1, 37, 46)
    );
    assert!(Timestamp::new(2016, 2, 29, 0, 0, 0).is_some());
    assert!(Timestamp::new(2017, 2, 29, 0, 0, 0).is_none());
    assert!(Timestamp::new(1900, 2, 29, 0, 0, 0).is_none());
    assert!(Timestamp::new(2000, 2, 29, 0, 0, 0).is_some());
    assert!(Timestamp::new(-4, 2, 29, 0, 0, 0).is_some());
    assert!(Timestamp::new(2017, 4, 31, 0, 0, 0).is_none());
    assert!(Timestamp::new(2017, 0, 1, 0, 0, 0).is_none());
    assert!(Timestamp::new(2017, 13, 1, 0, 0, 0).is_none());
    assert!(Timestamp::new(2017, 1, 0, 0, 0, 0).is_none());
    assert!(Timestamp::new(2017, 1, 1, 24, 0, 0).is_none());
    assert!(Timestamp::new(2017, 1, 1, 0, 60, 0).is_none());
    assert!(Timestamp::new(2017, 1, 1, 0, 0, 60).is_none());
    assert!(Timestamp::new(262142, 12, 31, 23, 59, 59).is_some());
    assert!(Timestamp::new(262143, 1, 1, 0, 0, 0).is_none());
    assert!(Timestamp::new(-262143, 1, 1, 0, 0, 0).is_some());
    assert!(Timestamp::new(-262144, 12, 31, 0, 0, 0).is_none());
}

#[test]
fn timestamps_agree_with_the_calendar_of_chrono() {
    for year in [-262143, -400, -100, -4, -1, 0, 1, 1900, 2000, 2023, 2024, 262142] {
        for month in 0..14u32 {
            for day in [0u32, 1, 28, 29, 30, 31, 32] {
                assert_eq!(
                    Timestamp::new(year, month, day, 0, 0, 0).is_some(),
                    chrono::NaiveDate::from_ymd_opt(year, month, day).is_some(),
                    "{}-{}-{}",
                    year,
                    month,
                    day
                );
            }
        }
    }
}

#[test]
fn the_clock_is_asked_only_for_lines_with_a_timestamp() {
    fn broken_clock() -> Timestamp {
        panic!("the clock was asked")
    }
    let params = LogParameters { log_timestamps: false, log_colors: false, clock: broken_clock };
    assert_eq!(print_log(LogLevel::Dbg, "quiet", params), "quiet\n");
}

#[test]
fn days_and_hours_are_padded_as_in_the_log_of_janus() {
    fn early() -> Timestamp {
        Timestamp::new(2024, 2, 3, 4, 5, 6).unwrap()
    }
    let params = LogParameters { log_timestamps: true, log_colors: false, clock: early };
    assert_eq!(
        print_log(LogLevel::Info, "up", params),
        "[Sat Feb  3 04:05:06 2024] up\n"
    );
}

#[test]
fn a_timestamp_is_printed_as_janus_prints_it() {
    assert_eq!(clock_of_the_tests().format(), "[Tue Oct 10 01:37:46 2017]");
    assert_eq!(
        Timestamp::new(1999, 12, 31, 23, 59, 59).unwrap().format(),
        "[Fri Dec 31 23:59:59 1999]"
    );
}
