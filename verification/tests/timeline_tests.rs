use eren_frame_core::timeline::FrameTimeline;

#[test]
fn cpu_blocks_exactly_when_n_frames_are_in_flight() {
    let mut t = FrameTimeline::new(2);
    assert!(!t.must_block());
    t.submit();
    assert!(!t.must_block());
    t.submit();
    assert!(t.must_block());
    t.retire();
    assert!(!t.must_block());
    t.submit();
    assert!(t.must_block());
}

#[test]
fn two_n_frames_block_iff_the_slot_predecessor_is_unretired() {
    for n in 1..5u64 {
        let mut t = FrameTimeline::new(n);
        let mut retired: u64 = 0;
        for k in 0..(2 * n) {
            let blocked = t.must_block();
            assert_eq!(blocked, k >= n && retired < k - n + 1);
            if blocked {
                t.retire();
                retired += 1;
            }
            t.submit();
        }
    }
}

#[test]
fn in_flight_never_exceeds_the_bound() {
    let mut t = FrameTimeline::new(3);
    for _ in 0..10 {
        if t.must_block() {
            t.retire();
        }
        t.submit();
        assert!(t.in_flight() <= 3);
    }
}

#[test]
fn gpu_that_keeps_up_never_blocks_the_cpu() {
    let mut t = FrameTimeline::new(2);
    for _ in 0..8 {
        assert!(!t.must_block());
        t.submit();
        t.retire();
    }
    assert_eq!(t.in_flight(), 0);
}
