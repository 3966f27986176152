use trade_types::Time;

fn render(timestamp: u64, ms: u16) -> String {
    Time { timestamp, ms }.to_string()
}

#[test]
fn the_epoch_is_eight_in_the_morning() {
    assert_eq!(render(0, 0), "08:00:00.000");
}

#[test]
fn a_trading_afternoon_renders() {
    assert_eq!(render(1_700_000_000, 500), "06:13:20.500");
    assert_eq!(render(115_199, 7), "15:59:59.007");
}

#[test]
fn the_day_wraps_at_midnight_on_the_wall_clock() {
    assert_eq!(render(57_599, 1), "23:59:59.001");
    assert_eq!(render(57_600, 0), "00:00:00.000");
    assert_eq!(render(86_399, 12), "07:59:59.012");
}

#[test]
fn the_last_timestamps_do_not_overflow() {
    assert_eq!(render(u64::MAX, 999), "15:00:15.999");
    assert_eq!(render(u64::MAX - 28_799, 0), "07:00:16.000");
}

#[test]
fn every_part_is_padded_with_zeros() {
    assert_eq!(render(16 * 3600 + 61, 9), "00:01:01.009");
    assert_eq!(render(16 * 3600 + 9 * 3600 + 5 * 60 + 3, 42), "09:05:03.042");
}

#[test]
fn milliseconds_beyond_three_digits_are_kept_whole() {
    assert_eq!(render(1, 1000), "08:00:01.1000");
    assert_eq!(render(2, u16::MAX), "08:00:02.65535");
}

#[test]
fn second_of_day_runs_eight_hours_ahead() {
    assert_eq!(Time { timestamp: 0, ms: 0 }.second_of_day(), 28_800);
    assert_eq!(Time { timestamp: 57_600, ms: 0 }.second_of_day(), 0);
    assert_eq!(Time { timestamp: 57_599, ms: 0 }.second_of_day(), 86_399);
    assert_eq!(Time { timestamp: u64::MAX, ms: 0 }.second_of_day(), 15 * 3600 + 15);
}

#[test]
fn every_second_of_a_day_renders_its_own_parts() {
    for second in 0..86_400u64 {
        let text = render(second, 0);
        let wall = (second + 28_800) % 86_400;
        assert_eq!(
            text,
            format!("{:0>2}:{:0>2}:{:0>2}.{:0>3}", wall / 3600, wall % 3600 / 60, wall % 60, 0)
        );
    }
}

#[test]
fn every_millisecond_renders_as_the_formatter_pads_it() {
    for ms in 0..=u16::MAX {
        assert_eq!(render(0, ms), format!("08:00:00.{:0>3}", ms));
    }
}
