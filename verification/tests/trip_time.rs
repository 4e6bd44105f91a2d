use vehicle_dashboard::trip_time::minutes_to_ddhhmm;

#[test]
fn zero_minutes() {
    assert_eq!(minutes_to_ddhhmm(0), "00:00:00");
}

#[test]
fn minutes_hours_and_days() {
    assert_eq!(minutes_to_ddhhmm(7), "00:00:07");
    assert_eq!(minutes_to_ddhhmm(59), "00:00:59");
    assert_eq!(minutes_to_ddhhmm(60), "00:01:00");
    assert_eq!(minutes_to_ddhhmm(61), "00:01:01");
    assert_eq!(minutes_to_ddhhmm(1439), "00:23:59");
    assert_eq!(minutes_to_ddhhmm(1440), "01:00:00");
    assert_eq!(minutes_to_ddhhmm(1501), "01:01:01");
    assert_eq!(minutes_to_ddhhmm(14_399), "09:23:59");
    assert_eq!(minutes_to_ddhhmm(14_400), "10:00:00");
    assert_eq!(minutes_to_ddhhmm(142_559), "98:23:59");
}

#[test]
fn days_take_as_many_digits_as_they_need() {
    assert_eq!(minutes_to_ddhhmm(144_000), "100:00:00");
    assert_eq!(minutes_to_ddhhmm(1_440_000 + 75), "1000:01:15");
    assert_eq!(minutes_to_ddhhmm(u64::MAX), "12810238940076077:12:15");
}

#[test]
fn agrees_with_the_standard_formatter() {
    let mut minutes: u64 = 0;
    for step in 0..5_000u64 {
        let want = format!("{:02}:{:02}:{:02}", minutes / 1440, (minutes % 1440) / 60, minutes % 60);
        assert_eq!(minutes_to_ddhhmm(minutes), want);
        minutes = minutes.wrapping_mul(31).wrapping_add(step * 7 + 1);
    }
}
