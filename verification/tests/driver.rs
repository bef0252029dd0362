use triangle_driver::driver::{
    frame_plan, Action, Bundle, BundleState, Driver, Event, Schedule, SurfaceConfig,
};

fn sample_bundle(width: u32, height: u32) -> Bundle {
    Bundle {
        instance: 10,
        adapter: 11,
        shader: 12,
        pipeline_layout: 13,
        config: SurfaceConfig { width, height, format: 14 },
        surface: 15,
        device: 16,
        queue: 17,
        render_pipeline: 18,
    }
}

fn ready_driver(suspend_lifecycle: bool) -> Driver {
    let mut driver = Driver::new(suspend_lifecycle);
    driver.install_bundle(sample_bundle(800, 600));
    driver
}

#[test]
fn resize_updates_the_configuration_to_the_delivered_size() {
    let mut driver = ready_driver(false);
    let action = driver.dispatch(Event::Resized { width: 1024, height: 768 });
    assert_eq!(action, Action::Reconfigure { width: 1024, height: 768 });
    match driver.bundle {
        BundleState::Ready(bundle) => {
            assert_eq!(bundle.config.width, 1024);
            assert_eq!(bundle.config.height, 768);
        }
        BundleState::Absent => panic!("resize must not drop the bundle"),
    }
}

#[test]
fn resizes_track_the_most_recent_size() {
    let mut driver = ready_driver(false);
    let sizes = [(640, 480), (1920, 1080), (300, 200), (1280, 720)];
    for (width, height) in sizes {
        let action = driver.dispatch(Event::Resized { width, height });
        assert_eq!(action, Action::Reconfigure { width, height });
    }
    match driver.bundle {
        BundleState::Ready(bundle) => {
            assert_eq!(bundle.config.width, 1280);
            assert_eq!(bundle.config.height, 720);
        }
        BundleState::Absent => panic!("resize must not drop the bundle"),
    }
}

#[test]
fn resize_without_a_bundle_does_nothing() {
    let mut driver = Driver::new(true);
    let action = driver.dispatch(Event::Resized { width: 1024, height: 768 });
    assert_eq!(action, Action::Nothing);
    assert_eq!(driver.bundle, BundleState::Absent);
}

#[test]
fn resume_with_a_bundle_and_no_suspend_lifecycle_is_a_noop() {
    let mut driver = ready_driver(false);
    let before = driver;
    let action = driver.dispatch(Event::Resumed);
    assert_eq!(action, Action::Nothing);
    assert_eq!(driver, before);
}

#[test]
fn first_resume_asks_for_initialization() {
    let mut driver = Driver::new(false);
    let action = driver.dispatch(Event::Resumed);
    assert_eq!(action, Action::Initialize);
    assert_eq!(driver.bundle, BundleState::Absent);
}

#[test]
fn suspend_then_resume_rebuilds_every_field() {
    let mut driver = Driver::new(true);
    driver.install_bundle(sample_bundle(800, 600));

    let suspend_action = driver.dispatch(Event::Suspended);
    assert_eq!(suspend_action, Action::Release);
    assert_eq!(driver.bundle, BundleState::Absent);

    let resume_action = driver.dispatch(Event::Resumed);
    assert_eq!(resume_action, Action::Initialize);

    let fresh = Bundle {
        instance: 20,
        adapter: 21,
        shader: 22,
        pipeline_layout: 23,
        config: SurfaceConfig { width: 800, height: 600, format: 24 },
        surface: 25,
        device: 26,
        queue: 27,
        render_pipeline: 28,
    };
    driver.install_bundle(fresh);
    assert_eq!(driver.bundle, BundleState::Ready(fresh));
    match driver.bundle {
        BundleState::Ready(bundle) => {
            let old = sample_bundle(800, 600);
            assert_ne!(bundle.instance, old.instance);
            assert_ne!(bundle.adapter, old.adapter);
            assert_ne!(bundle.shader, old.shader);
            assert_ne!(bundle.pipeline_layout, old.pipeline_layout);
            assert_ne!(bundle.surface, old.surface);
            assert_ne!(bundle.device, old.device);
            assert_ne!(bundle.queue, old.queue);
            assert_ne!(bundle.render_pipeline, old.render_pipeline);
        }
        BundleState::Absent => panic!("the fresh bundle must be installed"),
    }
}

#[test]
fn suspend_without_the_lifecycle_is_a_noop() {
    let mut driver = ready_driver(false);
    let before = driver;
    let action = driver.dispatch(Event::Suspended);
    assert_eq!(action, Action::Nothing);
    assert_eq!(driver, before);
}

#[test]
fn redraw_without_a_bundle_is_skipped() {
    let mut driver = Driver::new(true);
    let action = driver.dispatch(Event::RedrawRequested);
    assert_eq!(action, Action::Nothing);
    assert_eq!(driver.bundle, BundleState::Absent);
}

#[test]
fn redraw_with_a_bundle_draws_the_planned_frame() {
    let mut driver = ready_driver(false);
    let action = driver.dispatch(Event::RedrawRequested);
    assert_eq!(action, Action::Draw { plan: frame_plan() });
}

#[test]
fn other_events_are_ignored() {
    let mut driver = ready_driver(false);
    let before = driver;
    let action = driver.dispatch(Event::Other);
    assert_eq!(action, Action::Nothing);
    assert_eq!(driver, before);
}

#[test]
fn close_halts_scheduling_and_later_draws() {
    let mut driver = ready_driver(false);
    assert_eq!(driver.next_schedule(5), Schedule::Continue { wait_millis: 11 });

    let close_action = driver.dispatch(Event::CloseRequested);
    assert_eq!(close_action, Action::Nothing);
    assert!(driver.terminal);
    assert_eq!(driver.next_schedule(5), Schedule::Exit);
    assert_eq!(driver.next_schedule(0), Schedule::Exit);

    let after = driver.dispatch(Event::RedrawRequested);
    assert_eq!(after, Action::Nothing);
    let resize_after = driver.dispatch(Event::Resized { width: 10, height: 10 });
    assert_eq!(resize_after, Action::Nothing);
    assert_eq!(driver.next_schedule(100), Schedule::Exit);
}

#[test]
fn first_frame_at_800_by_600_is_one_pass_with_one_triangle_draw() {
    let mut driver = Driver::new(false);
    assert_eq!(driver.dispatch(Event::Resumed), Action::Initialize);

    let bundle = Bundle {
        instance: 1,
        adapter: 2,
        shader: 3,
        pipeline_layout: 4,
        config: SurfaceConfig { width: 800, height: 600, format: 5 },
        surface: 6,
        device: 7,
        queue: 8,
        render_pipeline: 9,
    };
    driver.install_bundle(bundle);
    match driver.bundle {
        BundleState::Ready(installed) => {
            assert_eq!(installed.instance, 1);
            assert_eq!(installed.adapter, 2);
            assert_eq!(installed.shader, 3);
            assert_eq!(installed.pipeline_layout, 4);
            assert_eq!(installed.config, SurfaceConfig { width: 800, height: 600, format: 5 });
            assert_eq!(installed.surface, 6);
            assert_eq!(installed.device, 7);
            assert_eq!(installed.queue, 8);
            assert_eq!(installed.render_pipeline, 9);
        }
        BundleState::Absent => panic!("initialization must populate the bundle"),
    }

    match driver.dispatch(Event::RedrawRequested) {
        Action::Draw { plan } => {
            assert_eq!(plan.pass_count, 1);
            assert_eq!(plan.first_vertex, 0);
            assert_eq!(plan.vertex_count, 3);
            assert_eq!(plan.first_instance, 0);
            assert_eq!(plan.instance_count, 1);
            assert_eq!(
                (plan.clear_red, plan.clear_green, plan.clear_blue, plan.clear_alpha),
                (0, 255, 0, 255)
            );
        }
        other => panic!("a redraw with the bundle present must draw, got {:?}", other),
    }

    assert_eq!(driver.next_schedule(3), Schedule::Continue { wait_millis: 13 });
}
