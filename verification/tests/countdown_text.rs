use epomo::{format_duration, PomodoroMode};

fn expected(millis: i64, label: &str) -> String {
    format!(
        "{:02}:{:02}:{:02} {}",
        millis / 3_600_000,
        millis / 60_000,
        (millis / 1_000) % 60,
        label
    )
}

#[test]
fn ninety_seconds_of_work() {
    assert_eq!(format_duration(90_000, PomodoroMode::Work), "00:01:30 Work");
}

#[test]
fn nothing_left() {
    assert_eq!(format_duration(0, PomodoroMode::Work), "00:00:00 Work");
}

#[test]
fn a_fraction_of_a_second_is_dropped() {
    assert_eq!(format_duration(999, PomodoroMode::Work), "00:00:00 Work");
    assert_eq!(format_duration(1_000, PomodoroMode::Work), "00:00:01 Work");
    assert_eq!(format_duration(59_999, PomodoroMode::Work), "00:00:59 Work");
    assert_eq!(format_duration(60_000, PomodoroMode::Work), "00:01:00 Work");
}

#[test]
fn a_full_work_interval() {
    assert_eq!(format_duration(25 * 60_000, PomodoroMode::Work), "00:25:00 Work");
}

#[test]
fn breaks_carry_their_label() {
    assert_eq!(format_duration(5 * 60_000, PomodoroMode::ShortBreak), "00:05:00 Short break");
    assert_eq!(format_duration(15 * 60_000, PomodoroMode::LongBreak), "00:15:00 Long break");
}

#[test]
fn minutes_are_total_minutes_and_not_reduced_by_the_hour() {
    let millis = 3_600_000 + 5 * 60_000 + 30_000;
    assert_eq!(format_duration(millis, PomodoroMode::Work), "01:65:30 Work");
}

#[test]
fn the_longest_interval() {
    assert_eq!(format_duration(120 * 60_000, PomodoroMode::LongBreak), "02:120:00 Long break");
    assert_eq!(format_duration(120 * 60_000 - 1, PomodoroMode::Work), "01:119:59 Work");
}

#[test]
fn fields_grow_beyond_two_characters() {
    let millis = 100 * 3_600_000 + 7_000;
    assert_eq!(format_duration(millis, PomodoroMode::Work), "100:6000:07 Work");
}

#[test]
fn an_overrun_shows_negative_seconds() {
    assert_eq!(format_duration(-1_000, PomodoroMode::ShortBreak), "00:00:-1 Short break");
    assert_eq!(format_duration(-1_200, PomodoroMode::ShortBreak), "00:00:-1 Short break");
    assert_eq!(format_duration(-999, PomodoroMode::ShortBreak), "00:00:00 Short break");
    assert_eq!(format_duration(-59_000, PomodoroMode::Work), "00:00:-59 Work");
}

#[test]
fn an_overrun_of_minutes_and_hours() {
    assert_eq!(format_duration(-61_000, PomodoroMode::Work), "00:-1:-1 Work");
    assert_eq!(format_duration(-60_000, PomodoroMode::Work), "00:-1:00 Work");
    assert_eq!(
        format_duration(-(3_600_000 + 60_000 + 12_000), PomodoroMode::LongBreak),
        "-1:-61:-12 Long break"
    );
}

#[test]
fn the_extremes_of_the_integer_range() {
    assert_eq!(
        format_duration(i64::MAX, PomodoroMode::Work),
        "2562047788015:153722867280912:55 Work"
    );
    assert_eq!(
        format_duration(i64::MIN, PomodoroMode::Work),
        "-2562047788015:-153722867280912:-55 Work"
    );
}

#[test]
fn agrees_with_the_standard_formatter() {
    let samples: [i64; 16] = [
        0,
        1,
        -1,
        9_999,
        10_000,
        -10_000,
        599_999,
        600_000,
        3_599_999,
        3_600_000,
        35_999_999,
        36_000_000,
        -36_000_000,
        86_400_000,
        i64::MAX,
        i64::MIN,
    ];
    for millis in samples {
        assert_eq!(format_duration(millis, PomodoroMode::Work), expected(millis, "Work"));
        assert_eq!(
            format_duration(millis, PomodoroMode::ShortBreak),
            expected(millis, "Short break")
        );
        assert_eq!(
            format_duration(millis, PomodoroMode::LongBreak),
            expected(millis, "Long break")
        );
    }
}

#[test]
fn every_second_of_two_hours_agrees_with_the_standard_formatter() {
    let mut millis: i64 = -7_200_000;
    while millis <= 7_200_000 {
        assert_eq!(format_duration(millis, PomodoroMode::Work), expected(millis, "Work"));
        millis += 1_000;
    }
}
