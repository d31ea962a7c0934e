use spr_reader::color::{Color, NamedColor};
use spr_reader::effects::{
    border_reveal_progress, border_settled, glow_color, glow_level, pulse_phase_ms,
    scanner_position, sweep_position, Glow, BORDER_REVEAL_MS, GLOW_BRIGHT_LIMIT,
    GLOW_WHITE_LIMIT, GLOW_WIDTH, PULSE_PERIOD_MS, SCANNER_LOOP_MS,
};

#[test]
fn constants() {
    assert_eq!(BORDER_REVEAL_MS, 600);
    assert_eq!(SCANNER_LOOP_MS, 3000);
    assert_eq!(PULSE_PERIOD_MS, 1500);
    assert_eq!(GLOW_WIDTH, 5);
}

#[test]
fn glow_limits_are_the_thresholds_of_the_falloff() {
    let white = 2.0 * (1.0f64 / 0.6).ln() * 1e6;
    let bright = 2.0 * (1.0f64 / 0.2).ln() * 1e6;
    assert_eq!(GLOW_WHITE_LIMIT, white.floor() as u64);
    assert_eq!(GLOW_BRIGHT_LIMIT, bright.floor() as u64);
}

#[test]
fn glow_follows_the_falloff() {
    for distance in (0u32..4000).step_by(7) {
        let d = f64::from(distance) / 1000.0;
        let intensity = (-d * d / 2.0).exp();
        let want = if intensity >= 0.6 {
            Glow::White
        } else if intensity >= 0.2 {
            Glow::Brightened
        } else {
            Glow::Unchanged
        };
        assert_eq!(glow_level(distance), want, "distance {}", distance);
    }
}

#[test]
fn reveal_is_a_linear_ramp() {
    assert_eq!(border_reveal_progress(0), 0);
    assert_eq!(border_reveal_progress(150), 250);
    assert_eq!(border_reveal_progress(300), 500);
    assert_eq!(border_reveal_progress(599), 998);
    assert_eq!(border_reveal_progress(600), 1000);
    assert_eq!(border_reveal_progress(601), 1000);
    assert_eq!(border_reveal_progress(u64::MAX), 1000);
}

#[test]
fn border_settles_after_the_reveal() {
    assert!(!border_settled(0));
    assert!(!border_settled(599));
    assert!(border_settled(600));
    assert!(border_settled(1_000_000));
}

#[test]
fn reveal_is_the_same_for_the_same_time() {
    for t in [0, 1, 299, 600, 12345] {
        assert_eq!(border_reveal_progress(t), border_reveal_progress(t));
        assert_eq!(scanner_position(t, 100), scanner_position(t, 100));
    }
}

#[test]
fn scanner_travels_round_the_border() {
    assert_eq!(scanner_position(0, 200), 0);
    assert_eq!(scanner_position(1500, 200), 100);
    assert_eq!(scanner_position(2999, 200), 199);
    assert_eq!(scanner_position(3000, 200), 0);
    assert_eq!(scanner_position(4500, 200), 100);
    assert_eq!(scanner_position(750, 7), 1);
    assert_eq!(scanner_position(1234, 0), 0);
    assert_eq!(scanner_position(u64::MAX, u32::MAX), 880468295);
}

#[test]
fn sweep_travels_across_the_indicator() {
    assert_eq!(sweep_position(0, 80), 0);
    assert_eq!(sweep_position(1000, 80), 40_000);
    assert_eq!(sweep_position(1999, 80), 79_960);
    assert_eq!(sweep_position(2000, 80), 0);
    assert_eq!(sweep_position(25, 10), 125);
    assert_eq!(sweep_position(500, 0), 0);
}

#[test]
fn pulse_phase_wraps() {
    assert_eq!(pulse_phase_ms(0), 0);
    assert_eq!(pulse_phase_ms(1499), 1499);
    assert_eq!(pulse_phase_ms(1500), 0);
    assert_eq!(pulse_phase_ms(3100), 100);
}

#[test]
fn glow_on_whole_cells() {
    assert_eq!(glow_level(0), Glow::White);
    assert_eq!(glow_level(1000), Glow::White);
    assert_eq!(glow_level(2000), Glow::Unchanged);
    assert_eq!(glow_level(3000), Glow::Unchanged);
    assert_eq!(glow_level(u32::MAX), Glow::Unchanged);
}

#[test]
fn glow_between_cells() {
    assert_eq!(glow_level(1010), Glow::White);
    assert_eq!(glow_level(1011), Glow::Brightened);
    assert_eq!(glow_level(1500), Glow::Brightened);
    assert_eq!(glow_level(1794), Glow::Brightened);
    assert_eq!(glow_level(1795), Glow::Unchanged);
}

#[test]
fn glow_colours() {
    let base = Color::Rgb(60, 100, 100);
    assert_eq!(glow_color(base, 0), Color::Named(NamedColor::White));
    assert_eq!(glow_color(base, 1500), Color::Rgb(110, 150, 150));
    assert_eq!(glow_color(base, 2000), base);
    let named = Color::Named(NamedColor::Cyan);
    assert_eq!(glow_color(named, 1500), Color::Named(NamedColor::LightCyan));
}
