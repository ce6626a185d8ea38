use rgbcal::levels::ChannelLevels;
use rgbcal::rgb::Rgb;
use rgbcal::store::{accept_frame_rate, simulate_interleaving, SharedConfigStore};
use rgbcal::ui::UiState;
use rgbcal::MAX_FRAME_RATE;

#[test]
fn store_starts_with_the_defaults() {
    let store = SharedConfigStore::new();
    assert_eq!(store.get_rgb_levels(), ChannelLevels { red: 15, green: 15, blue: 15 });
    assert_eq!(store.get_frame_rate(), 100);
}

#[test]
fn store_round_trips_levels_and_rate() {
    let store = SharedConfigStore::new();
    let written = ChannelLevels { red: 1, green: 2, blue: 3 };
    store.set_rgb_levels(written);
    assert_eq!(store.get_rgb_levels(), written);
    store.set_frame_rate(60);
    assert_eq!(store.get_frame_rate(), 60);
}

#[test]
fn store_rejects_invalid_frame_rates_and_keeps_the_prior_one() {
    let store = SharedConfigStore::new();
    store.set_frame_rate(60);
    store.set_frame_rate(0);
    assert_eq!(store.get_frame_rate(), 60);
    store.set_frame_rate(MAX_FRAME_RATE + 1);
    assert_eq!(store.get_frame_rate(), 60);
    assert_eq!(accept_frame_rate(60, 0), 60);
    assert_eq!(accept_frame_rate(60, 80), 80);
    assert_eq!(accept_frame_rate(60, MAX_FRAME_RATE + 1), 60);
}

#[test]
fn interleaved_reads_never_observe_a_torn_triple() {
    let init = ChannelLevels { red: 15, green: 15, blue: 15 };
    let writes = vec![
        ChannelLevels { red: 1, green: 1, blue: 1 },
        ChannelLevels { red: 2, green: 2, blue: 2 },
        ChannelLevels { red: 3, green: 3, blue: 3 },
    ];
    // Writer and reader take turns in an arbitrary pattern.
    let schedule = vec![
        false, true, false, false, true, false, true, false, false, false,
    ];
    let observed = simulate_interleaving(init, &writes, &schedule);
    assert_eq!(observed.len(), 7);
    for triple in &observed {
        let whole = *triple == init || writes.contains(triple);
        assert!(whole, "observed a torn triple: {:?}", triple);
        assert_eq!(triple.red, triple.green);
        assert_eq!(triple.green, triple.blue);
    }
}

#[test]
fn interleaving_through_the_store_reads_only_whole_writes() {
    let store = SharedConfigStore::new();
    let init = store.get_rgb_levels();
    let writes = [
        ChannelLevels { red: 4, green: 5, blue: 6 },
        ChannelLevels { red: 7, green: 8, blue: 9 },
    ];
    let mut observed = Vec::new();
    observed.push(store.get_rgb_levels());
    store.set_rgb_levels(writes[0]);
    observed.push(store.get_rgb_levels());
    store.set_rgb_levels(writes[1]);
    observed.push(store.get_rgb_levels());
    for triple in &observed {
        assert!(*triple == init || writes.contains(triple));
    }
}

#[test]
fn end_to_end_button_press_reaches_the_scheduler() {
    // Start from the defaults: levels [15, 15, 15], frame rate 100.
    let store = SharedConfigStore::new();
    let mut state = UiState::default();
    state.seed_store(&store);
    assert_eq!(store.get_rgb_levels(), ChannelLevels { red: 15, green: 15, blue: 15 });
    assert_eq!(store.get_frame_rate(), 100);

    // The controller observes the first button pressed and a quantized
    // level of 5: blue drops to 5 and the whole triple is published.
    let out = state.poll_and_publish(&store, true, false, 5);
    assert!(out.changed && out.push_levels && !out.push_frame_rate);
    assert_eq!(store.get_rgb_levels(), ChannelLevels { red: 15, green: 15, blue: 5 });
    assert_eq!(store.get_frame_rate(), 100);

    // The next scheduler frame runs from that snapshot: the tick still
    // derives from frame rate 100 and the blue pulse shortens.
    let mut rgb = Rgb::new(100);
    let levels = store.get_rgb_levels();
    let frame_rate = store.get_frame_rate();
    let plans = rgb.next_frame(levels, frame_rate);
    assert_eq!(rgb.tick_time, Rgb::frame_tick_time(100));
    assert_eq!(plans[0].on_time_us, 15 * 208);
    assert_eq!(plans[1].on_time_us, 15 * 208);
    assert_eq!(plans[2].on_time_us, 5 * 208);
    assert_eq!(plans[2].off_time_us, 11 * 208);
}
