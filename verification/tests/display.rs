use hercules::format_uptime;

fn expected(uptime: u64) -> String {
    match uptime {
        uptime if uptime < 60 => format!("{}s", uptime),
        uptime if uptime < 3600 => format!("{}m {}s", uptime / 60, uptime % 60),
        uptime => format!("{}h {}m", uptime / 3600, (uptime % 3600) / 60),
    }
}

#[test]
fn uptime_below_a_minute() {
    assert_eq!(format_uptime(0), "0s");
    assert_eq!(format_uptime(7), "7s");
    assert_eq!(format_uptime(59), "59s");
}

#[test]
fn uptime_below_an_hour() {
    assert_eq!(format_uptime(60), "1m 0s");
    assert_eq!(format_uptime(307), "5m 7s");
    assert_eq!(format_uptime(3599), "59m 59s");
}

#[test]
fn uptime_from_an_hour_on() {
    assert_eq!(format_uptime(3600), "1h 0m");
    assert_eq!(format_uptime(12_345), "3h 25m");
    assert_eq!(format_uptime(360_000), "100h 0m");
    assert_eq!(format_uptime(u64::MAX), "5124095576030431h 0m");
}

#[test]
fn uptime_matches_plain_formatting() {
    for uptime in (0..20_000u64).chain([86_399, 86_400, 1_000_000, u64::MAX - 1]) {
        assert_eq!(format_uptime(uptime), expected(uptime));
    }
}
