use flappy_core::session::Session;

#[test]
fn high_score_is_a_running_maximum() {
    let mut s = Session::new();
    assert_eq!(s.high_score, 0);
    assert!(s.record_score(5));
    assert_eq!(s.high_score, 5);
    assert!(!s.record_score(3));
    assert_eq!(s.high_score, 5);
    assert!(!s.record_score(5), "equalling the record is not a new record");
    assert_eq!(s.high_score, 5);
    assert!(s.record_score(6));
    assert_eq!(s.high_score, 6);
}

#[test]
fn restart_reattaches_a_fresh_replay_copy() {
    let s = Session::with_replay(vec![b'1', b'0', b'1']);
    let mut first = s.start_field();
    first.step(false);
    first.step(false);
    // The first attempt consumed part of its queue; a restart gets the
    // whole sequence again.
    let second = s.start_field();
    let q = second.replay.as_ref().expect("replay must be attached");
    let bytes: Vec<u8> = q.iter().copied().collect();
    assert_eq!(bytes, vec![b'1', b'0', b'1']);
    assert_eq!(second.physics_frames, 0);
    assert!(second.walls.is_empty());
}

#[test]
fn restarted_fields_reuse_the_fixed_seed() {
    let s = Session::new();
    let a = s.start_field();
    let b = s.start_field();
    assert_eq!(a.rng.0, b.rng.0, "restarts reuse the same seed on purpose");
    assert!(a.replay.is_none());
}

#[test]
fn recorded_inputs_are_available_after_an_attempt() {
    let s = Session::new();
    let mut f = s.start_field();
    f.step(true);
    f.step(false);
    f.step(true);
    let log: Vec<u8> = f.inputs.iter().copied().collect();
    assert_eq!(log, vec![b'1', b'0', b'1']);
}
