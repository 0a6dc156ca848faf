use eren_frame_core::frame::{FrameManager, MAX_FRAMES_IN_FLIGHT};

#[test]
fn round_robin_cycles_modulo_slot_count() {
    let mut fm = FrameManager::new(2, 3);
    let mut seen: Vec<usize> = Vec::new();
    for _ in 0..6 {
        let (_, idx) = fm.next_frame();
        seen.push(idx);
    }
    assert_eq!(seen, vec![0, 1, 0, 1, 0, 1]);
}

#[test]
fn handed_out_slot_matches_its_index() {
    let mut fm = FrameManager::new(3, 3);
    let (s0, i0) = fm.next_frame();
    let (s1, i1) = fm.next_frame();
    assert_eq!(i0, 0);
    assert_eq!(i1, 1);
    assert_ne!(s0.in_flight, s1.in_flight);
    assert_ne!(s0.image_available, s1.image_available);
    assert_ne!(s0.cmd_buffer, s1.cmd_buffer);
}

#[test]
fn image_sync_is_per_image_not_per_slot() {
    let fm = FrameManager::new(2, 4);
    let mut render_finished: Vec<u64> = Vec::new();
    for j in 0..4 {
        render_finished.push(fm.swapchain_image(j).render_finished);
    }
    for a in 0..4 {
        for b in 0..4 {
            if a != b {
                assert_ne!(render_finished[a], render_finished[b]);
            }
        }
    }
}

#[test]
fn image_available_and_render_finished_never_alias() {
    let mut fm = FrameManager::new(2, 3);
    let mut image_available: Vec<u64> = Vec::new();
    for _ in 0..2 {
        let (slot, _) = fm.next_frame();
        image_available.push(slot.image_available);
    }
    for j in 0..3 {
        let rf = fm.swapchain_image(j).render_finished;
        for &ia in image_available.iter() {
            assert_ne!(ia, rf);
        }
    }
}

#[test]
fn default_bound_is_two_frames_in_flight() {
    assert_eq!(MAX_FRAMES_IN_FLIGHT, 2);
    let fm = FrameManager::new(MAX_FRAMES_IN_FLIGHT, 3);
    assert_eq!(fm.slot_count(), 2);
}
