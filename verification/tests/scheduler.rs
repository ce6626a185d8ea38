use rgbcal::levels::ChannelLevels;
use rgbcal::rgb::{Rgb, MAX_TICK_TIME_US};
use rgbcal::LEVELS;

#[test]
fn tick_time_exact_values() {
    // 1_000_000 / (3 * frame_rate * LEVELS)
    assert_eq!(Rgb::frame_tick_time(10), 2083);
    assert_eq!(Rgb::frame_tick_time(100), 208);
    assert_eq!(Rgb::frame_tick_time(160), 130);
    assert_eq!(Rgb::frame_tick_time(1), MAX_TICK_TIME_US);
}

#[test]
fn frame_period_matches_frame_rate_within_rounding() {
    let ticks_per_frame = 3 * LEVELS as u64;
    let mut frame_rate: u64 = 10;
    while frame_rate <= 160 {
        let tick = Rgb::frame_tick_time(frame_rate);
        let period = ticks_per_frame * tick;
        let ideal = 1_000_000 / frame_rate;
        assert!(period <= ideal);
        assert!(ideal - period <= ticks_per_frame - 1);
        frame_rate += 10;
    }
}

#[test]
fn on_plus_off_is_constant_for_every_level() {
    let mut rgb = Rgb::new(100);
    let tick = Rgb::frame_tick_time(100);
    for level in 0..LEVELS {
        rgb.apply_snapshot(ChannelLevels { red: level, green: 0, blue: LEVELS - 1 }, 100);
        for led in 0..3 {
            let plan = rgb.step_plan(led);
            assert_eq!(plan.on_time_us + plan.off_time_us, LEVELS as u64 * tick);
        }
        let red_plan = rgb.step_plan(0);
        assert_eq!(red_plan.on_time_us, level as u64 * tick);
        assert_eq!(red_plan.pulse, level > 0);
    }
}

#[test]
fn zero_level_skips_the_pulse() {
    let mut rgb = Rgb::new(100);
    rgb.apply_snapshot(ChannelLevels { red: 0, green: 5, blue: 15 }, 100);
    let red_plan = rgb.step_plan(0);
    assert!(!red_plan.pulse);
    assert_eq!(red_plan.on_time_us, 0);
    assert!(red_plan.off_time_us > 0);
    let green_plan = rgb.step_plan(1);
    assert!(green_plan.pulse);
}

#[test]
fn new_scheduler_starts_dark() {
    let rgb = Rgb::new(100);
    assert_eq!(rgb.levels, ChannelLevels { red: 0, green: 0, blue: 0 });
    assert_eq!(rgb.tick_time, 208);
}

#[test]
fn next_frame_plans_all_three_channels_in_order() {
    let mut rgb = Rgb::new(100);
    let plans = rgb.next_frame(ChannelLevels { red: 15, green: 12, blue: 8 }, 100);
    assert_eq!(plans.len(), 3);
    assert_eq!(plans[0].on_time_us, 15 * 208);
    assert_eq!(plans[1].on_time_us, 12 * 208);
    assert_eq!(plans[2].on_time_us, 8 * 208);
    let total: u64 = plans.iter().map(|p| p.on_time_us + p.off_time_us).sum();
    assert_eq!(total, 48 * 208);
}
