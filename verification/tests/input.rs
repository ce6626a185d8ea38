use rgbcal::levels::ChannelLevels;
use rgbcal::ui::{level_to_frame_rate, mode_from_buttons, ControlMode, UiState};
use rgbcal::LEVELS;

#[test]
fn frame_rate_mapping_endpoints_and_step() {
    assert_eq!(level_to_frame_rate(0), 10);
    assert_eq!(level_to_frame_rate(15), 160);
    assert_eq!(level_to_frame_rate(9), 100);
}

#[test]
fn frame_rate_mapping_strictly_increasing() {
    for level in 0..LEVELS - 1 {
        assert!(level_to_frame_rate(level) < level_to_frame_rate(level + 1));
    }
}

#[test]
fn mode_table_matches_the_button_pairs() {
    assert_eq!(mode_from_buttons(false, false), ControlMode::FrameRate);
    assert_eq!(mode_from_buttons(true, false), ControlMode::Blue);
    assert_eq!(mode_from_buttons(false, true), ControlMode::Green);
    assert_eq!(mode_from_buttons(true, true), ControlMode::Red);
}

#[test]
fn default_state_is_full_brightness_at_default_rate() {
    let state = UiState::default();
    assert_eq!(state.levels, ChannelLevels { red: 15, green: 15, blue: 15 });
    assert_eq!(state.frame_rate, 100);
}

#[test]
fn init_derives_the_frame_rate_from_the_first_measurement() {
    let state = UiState::init_from_level(4);
    assert_eq!(state.levels, ChannelLevels { red: 15, green: 15, blue: 15 });
    assert_eq!(state.frame_rate, 50);
}

#[test]
fn poll_updates_the_selected_channel_only() {
    let mut state = UiState::default();
    let out = state.poll_step(true, false, 5);
    assert!(out.changed && out.push_levels && !out.push_frame_rate);
    assert_eq!(state.levels, ChannelLevels { red: 15, green: 15, blue: 5 });
    assert_eq!(state.frame_rate, 100);

    let out = state.poll_step(false, true, 7);
    assert!(out.changed && out.push_levels && !out.push_frame_rate);
    assert_eq!(state.levels, ChannelLevels { red: 15, green: 7, blue: 5 });

    let out = state.poll_step(true, true, 1);
    assert!(out.changed && out.push_levels && !out.push_frame_rate);
    assert_eq!(state.levels, ChannelLevels { red: 1, green: 7, blue: 5 });
}

#[test]
fn poll_in_frame_rate_mode_never_pushes_levels() {
    let mut state = UiState::default();
    let out = state.poll_step(false, false, 3);
    assert!(out.changed && !out.push_levels && out.push_frame_rate);
    assert_eq!(state.frame_rate, 40);
    assert_eq!(state.levels, ChannelLevels { red: 15, green: 15, blue: 15 });
}

#[test]
fn polling_the_same_inputs_twice_changes_nothing() {
    let mut state = UiState::default();
    let first = state.poll_step(true, false, 5);
    assert!(first.changed);
    let before = state;
    let second = state.poll_step(true, false, 5);
    assert!(!second.changed && !second.push_levels && !second.push_frame_rate);
    assert_eq!(state, before);

    let first = state.poll_step(false, false, 3);
    assert!(first.changed);
    let before = state;
    let second = state.poll_step(false, false, 3);
    assert!(!second.changed && !second.push_levels && !second.push_frame_rate);
    assert_eq!(state, before);
}

#[test]
fn show_formats_the_state() {
    let mut state = UiState::default();
    state.poll_step(true, false, 8);
    state.poll_step(false, true, 12);
    let text = state.show();
    assert_eq!(text, "\nred: 15\ngreen: 12\nblue: 8\nframe rate: 100\n");
}

#[test]
fn show_formats_single_and_triple_digits() {
    let state = UiState::init_from_level(0);
    assert_eq!(state.show(), "\nred: 15\ngreen: 15\nblue: 15\nframe rate: 10\n");
    let state = UiState::init_from_level(15);
    assert_eq!(state.show(), "\nred: 15\ngreen: 15\nblue: 15\nframe rate: 160\n");
}
