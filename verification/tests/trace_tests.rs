use espcam::trace::Trace;

#[test]
fn start_is_empty() {
    let t = Trace::start();
    assert!(t.steps().is_empty());
    assert_eq!(t.total_elapsed(), 0);
    assert_eq!(t.dropped_frames, 0);
    assert_eq!(t.adaptive_delay_ms, 0);
}

#[test]
fn checkpoints_add_up_to_total() {
    let mut t = Trace::start();
    t.checkpoint("capture");
    t.checkpoint("detect");
    t.checkpoint("encode");
    let steps = t.steps();
    assert_eq!(steps.len(), 3);
    assert_eq!(steps[0].0, "capture");
    assert_eq!(steps[1].0, "detect");
    assert_eq!(steps[2].0, "encode");
    let sum: u128 = steps.iter().map(|s| s.1).sum();
    assert_eq!(sum, t.total_elapsed());
}

#[test]
fn write_json_renders_steps() {
    let mut t = Trace::start();
    t.checkpoint("a");
    t.checkpoint("b");
    t.dropped_frames = 3;
    t.adaptive_delay_ms = 250;
    let mut json = String::from("stale contents");
    let ms = vec![String::from("1.000"), String::from("2.500")];
    t.write_json(&mut json, &ms, "3.500");
    assert_eq!(
        json,
        "{\"steps\":[{\"label\":\"a\",\"duration_ms\":1.000},{\"label\":\"b\",\"duration_ms\":2.500}],\"total_ms\":3.500,\"dropped\":3,\"delay_ms\":250}"
    );
}

#[test]
fn write_json_without_steps() {
    let mut t = Trace::start();
    t.adaptive_delay_ms = 18446744073709551615;
    t.dropped_frames = 4294967295;
    let mut json = String::new();
    t.write_json(&mut json, &Vec::new(), "0.000");
    assert_eq!(
        json,
        "{\"steps\":[],\"total_ms\":0.000,\"dropped\":4294967295,\"delay_ms\":18446744073709551615}"
    );
}

#[test]
fn write_json_single_step_zero_counts() {
    let mut t = Trace::start();
    t.checkpoint("only");
    let mut json = String::from("x");
    t.write_json(&mut json, &vec![String::from("0.042")], "0.042");
    assert_eq!(
        json,
        "{\"steps\":[{\"label\":\"only\",\"duration_ms\":0.042}],\"total_ms\":0.042,\"dropped\":0,\"delay_ms\":0}"
    );
}

#[test]
fn record_step_takes_time_since_previous_reading() {
    let mut t = Trace::start();
    t.record_step("a", 5);
    t.record_step("b", 12);
    assert_eq!(t.steps(), &[("a", 5u128), ("b", 7u128)]);
    assert_eq!(t.total_elapsed(), 12);
}

#[test]
fn record_step_ignores_earlier_readings() {
    let mut t = Trace::start();
    t.record_step("a", 9);
    t.record_step("b", 3);
    t.record_step("c", 10);
    assert_eq!(t.steps(), &[("a", 9u128), ("b", 0u128), ("c", 1u128)]);
    assert_eq!(t.total_elapsed(), 10);
}

#[test]
fn setters_change_only_their_field() {
    let mut t = Trace::start();
    t.record_step("a", 4);
    t.set_dropped_frames(6);
    t.set_adaptive_delay_ms(40);
    assert_eq!(t.dropped_frames, 6);
    assert_eq!(t.adaptive_delay_ms, 40);
    assert_eq!(t.steps(), &[("a", 4u128)]);
    assert_eq!(t.total_elapsed(), 4);
}
