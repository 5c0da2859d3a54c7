use timestamps::engine::{
    derive_epoch_seconds, format_token, on_style_changed, on_time_changed, parse_input,
    render_token, DerivedTimestamp,
};
use timestamps::style::{resolve_style, style_char, TimeFormatStyle};

#[test]
fn end_to_end_fulldatetime() {
    let epoch = derive_epoch_seconds("2022-04-23T18:00", 0).unwrap();
    assert_eq!(epoch, 1650736800);
    let style = resolve_style("fulldatetime");
    assert_eq!(style, TimeFormatStyle::FullDateTime);
    assert_eq!(format_token(epoch, style), "<t:1650736800:F>");
}

#[test]
fn end_to_end_relative() {
    let epoch = derive_epoch_seconds("2022-04-23T18:00", 0).unwrap();
    let style = resolve_style("relative");
    assert_eq!(style, TimeFormatStyle::Relative);
    assert_eq!(format_token(epoch, style), "<t:1650736800:R>");
}

#[test]
fn pre_epoch_minute() {
    let epoch = derive_epoch_seconds("1969-12-31T23:59", 0).unwrap();
    assert_eq!(epoch, -60);
    let token = format_token(epoch, TimeFormatStyle::ShortDate);
    assert!(token.starts_with("<t:-60:"));
    assert_eq!(token, "<t:-60:d>");
}

#[test]
fn offset_shifts_epoch() {
    // 18:00 wall-clock time two hours east of UTC is 16:00 UTC
    let east = derive_epoch_seconds("2022-04-23T18:00", 7200).unwrap();
    assert_eq!(east, 1650736800 - 7200);
    let west = derive_epoch_seconds("2022-04-23T18:00", -3600).unwrap();
    assert_eq!(west, 1650736800 + 3600);
}

#[test]
fn malformed_inputs_fail() {
    let bad = [
        "",
        "bogus",
        "2022-13-40T99:99",
        "2022-04-23 18:00",
        "2022-04-23T18:00:00",
        "22-04-23T18:00",
        "2022-4-23T18:00",
        "2022/04/23T18:00",
        "2022-04-23T18:0",
        "2022-00-10T00:00",
        "2022-04-00T00:00",
        "2022-02-30T10:00",
        "2021-02-29T00:00",
        "2022-04-31T00:00",
        "2022-04-23T24:00",
        "2022-04-23T18:60",
        "2022-04-23t18:00",
        "-022-04-23T18:00",
    ];
    for input in bad {
        assert!(parse_input(input).is_err(), "accepted {:?}", input);
        assert!(derive_epoch_seconds(input, 0).is_err(), "derived from {:?}", input);
    }
}

#[test]
fn failure_preserves_last_derived() {
    let mut cur = DerivedTimestamp { epoch_seconds: 42, style: TimeFormatStyle::Relative };
    let r = on_time_changed(&mut cur, "2022-13-40T99:99", 0);
    assert!(r.is_err());
    assert_eq!(cur, DerivedTimestamp { epoch_seconds: 42, style: TimeFormatStyle::Relative });
    let r = on_time_changed(&mut cur, "2022-04-23T18:00", 0);
    assert!(r.is_ok());
    assert_eq!(cur.epoch_seconds, 1650736800);
    assert_eq!(cur.style, TimeFormatStyle::Relative);
}

#[test]
fn style_change_keeps_epoch() {
    let mut cur = DerivedTimestamp { epoch_seconds: 1650736800, style: TimeFormatStyle::FullDateTime };
    on_style_changed(&mut cur, "timeonly");
    assert_eq!(cur.style, TimeFormatStyle::TimeOnly);
    assert_eq!(cur.epoch_seconds, 1650736800);
    assert_eq!(render_token(&cur), "<t:1650736800:t>");
}

#[test]
fn token_grammar_every_style() {
    let styles = [
        TimeFormatStyle::ShortDate,
        TimeFormatStyle::WrittenDate,
        TimeFormatStyle::WrittenDateTime,
        TimeFormatStyle::TimeOnly,
        TimeFormatStyle::TimeSeconds,
        TimeFormatStyle::Relative,
        TimeFormatStyle::FullDateTime,
    ];
    for style in styles {
        for epoch in [0i64, 7, -5, 1650736800, -62167219200, i64::MIN, i64::MAX] {
            let token = format_token(epoch, style);
            assert!(token.starts_with("<t:"), "{}", token);
            assert!(token.ends_with('>'), "{}", token);
            let inner = &token[3..token.len() - 1];
            let (num, suffix) = inner.split_at(inner.len() - 2);
            assert_eq!(&suffix[..1], ":");
            let c = suffix.chars().nth(1).unwrap();
            assert!("dDfFtTR".contains(c), "{}", token);
            let digits = num.strip_prefix('-').unwrap_or(num);
            assert!(!digits.is_empty());
            assert!(digits.chars().all(|d| d.is_ascii_digit()), "{}", token);
            assert_eq!(num.parse::<i64>().unwrap(), epoch);
        }
    }
}

#[test]
fn token_chars_match_table() {
    assert_eq!(style_char(TimeFormatStyle::ShortDate), 'd');
    assert_eq!(style_char(TimeFormatStyle::WrittenDate), 'D');
    assert_eq!(style_char(TimeFormatStyle::WrittenDateTime), 'f');
    assert_eq!(style_char(TimeFormatStyle::TimeOnly), 't');
    assert_eq!(style_char(TimeFormatStyle::TimeSeconds), 'T');
    assert_eq!(style_char(TimeFormatStyle::Relative), 'R');
    assert_eq!(style_char(TimeFormatStyle::FullDateTime), 'F');
}

#[test]
fn selectors_resolve_and_default() {
    assert_eq!(resolve_style("shortdate"), TimeFormatStyle::ShortDate);
    assert_eq!(resolve_style("writtendate"), TimeFormatStyle::WrittenDate);
    assert_eq!(resolve_style("writtendatetime"), TimeFormatStyle::WrittenDateTime);
    assert_eq!(resolve_style("timeonly"), TimeFormatStyle::TimeOnly);
    assert_eq!(resolve_style("timeseconds"), TimeFormatStyle::TimeSeconds);
    assert_eq!(resolve_style("relative"), TimeFormatStyle::Relative);
    assert_eq!(resolve_style("fulldatetime"), TimeFormatStyle::FullDateTime);
    // unknown selectors, the empty string included, fall back to the default
    assert_eq!(resolve_style("bogus"), TimeFormatStyle::FullDateTime);
    assert_eq!(resolve_style(""), TimeFormatStyle::FullDateTime);
    assert_eq!(resolve_style("SHORTDATE"), TimeFormatStyle::FullDateTime);
    assert_eq!(resolve_style("relative "), TimeFormatStyle::FullDateTime);
    assert_eq!(format_token(1650736800, resolve_style("bogus")), "<t:1650736800:F>");
}

#[test]
fn leap_year_rules() {
    assert_eq!(derive_epoch_seconds("2024-02-29T12:00", 0).unwrap(), 1709208000);
    assert_eq!(derive_epoch_seconds("2000-02-29T00:00", 0).unwrap(), 951782400);
    assert!(derive_epoch_seconds("1900-02-29T00:00", 0).is_err());
    assert!(derive_epoch_seconds("2100-02-29T00:00", 0).is_err());
    assert_eq!(derive_epoch_seconds("2024-12-31T00:00", 0).unwrap(), 1735603200);
}

#[test]
fn calendar_boundaries() {
    assert_eq!(derive_epoch_seconds("0000-01-01T00:00", 0).unwrap(), -62167219200);
    assert_eq!(derive_epoch_seconds("9999-12-31T23:59", 0).unwrap(), 253402300740);
}

#[test]
fn later_wall_clock_gives_greater_epoch() {
    let inputs = [
        "0000-01-01T00:00",
        "1969-12-31T23:59",
        "1970-01-01T00:00",
        "1970-01-01T00:01",
        "2022-04-23T18:00",
        "2022-04-23T18:01",
        "2022-04-23T19:00",
        "2022-04-24T18:00",
        "2022-05-23T18:00",
        "2023-04-23T18:00",
        "9999-12-31T23:59",
    ];
    let mut last: Option<i64> = None;
    for input in inputs {
        let epoch = derive_epoch_seconds(input, -7200).unwrap();
        if let Some(prev) = last {
            assert!(prev < epoch, "{} did not increase", input);
        }
        last = Some(epoch);
    }
}
