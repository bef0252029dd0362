use triangle_driver::pacing::{compute_wait, FRAME_INTERVAL_MILLIS, TARGET_FPS};

#[test]
fn interval_is_sixteen_millis() {
    assert_eq!(TARGET_FPS, 60);
    assert_eq!(FRAME_INTERVAL_MILLIS, 16);
}

#[test]
fn wait_at_loop_start_is_the_whole_interval() {
    assert_eq!(compute_wait(0), 16);
}

#[test]
fn wait_is_the_remainder_of_the_interval() {
    assert_eq!(compute_wait(1), 15);
    assert_eq!(compute_wait(10), 6);
    assert_eq!(compute_wait(15), 1);
}

#[test]
fn wait_at_the_interval_boundary_is_zero() {
    assert_eq!(compute_wait(16), 0);
}

#[test]
fn overrun_iterations_wait_zero() {
    assert_eq!(compute_wait(17), 0);
    assert_eq!(compute_wait(1000), 0);
    assert_eq!(compute_wait(u64::MAX), 0);
}

#[test]
fn wait_never_grows_with_elapsed_time() {
    let mut previous = compute_wait(0);
    for elapsed in 1..40u64 {
        let wait = compute_wait(elapsed);
        assert!(wait <= previous);
        if elapsed <= 16 {
            assert_eq!(elapsed + wait, 16);
        }
        previous = wait;
    }
}
