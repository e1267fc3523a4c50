use triframe::config::{SurfaceCaps, SurfaceConfig};
use triframe::frame::{Color, RenderStep};
use triframe::lifecycle::{Action, App, Event};

fn caps_with_two_formats() -> SurfaceCaps {
    SurfaceCaps {
        formats: vec![7, 8],
        present_modes: vec![2, 3],
        alpha_modes: vec![4],
    }
}

fn expected_plan(format: u32) -> Vec<RenderStep> {
    vec![
        RenderStep::AcquireFrame,
        RenderStep::BeginPass { clear: Color { r: 0, g: 0, b: 0, a: 0 } },
        RenderStep::SetPipeline { format },
        RenderStep::Draw { first_vertex: 0, vertex_count: 3, first_instance: 0, instance_count: 1 },
        RenderStep::EndPass,
        RenderStep::Submit,
        RenderStep::Present,
    ]
}

fn ready_app_at(width: u32, height: u32) -> App {
    let mut app = App::new();
    let action = app.handle_event(Event::Activated {
        width,
        height,
        caps: caps_with_two_formats(),
    });
    match action {
        Action::Configure { .. } => {}
        _ => panic!("activation must ask for the first configuration"),
    }
    app
}

#[test]
fn activation_selects_first_reported_entries() {
    let mut app = App::new();
    assert!(!app.initialized());
    let action = app.handle_event(Event::Activated {
        width: 800,
        height: 600,
        caps: caps_with_two_formats(),
    });
    assert!(app.initialized());
    match action {
        Action::Configure { config } => {
            assert_eq!(
                config,
                SurfaceConfig { format: 7, width: 800, height: 600, present_mode: 2, alpha_mode: 4 }
            );
        }
        _ => panic!("activation must ask for the first configuration"),
    }
}

#[test]
fn activation_clamps_zero_initial_size() {
    let mut app = App::new();
    let action = app.handle_event(Event::Activated {
        width: 0,
        height: 0,
        caps: caps_with_two_formats(),
    });
    match action {
        Action::Configure { config } => {
            assert_eq!(config.width, 1);
            assert_eq!(config.height, 1);
        }
        _ => panic!("activation must ask for the first configuration"),
    }
}

#[test]
fn first_frame_after_activation() {
    let mut app = ready_app_at(800, 600);
    let action = app.handle_event(Event::RedrawRequested);
    match action {
        Action::Render { plan } => assert_eq!(plan, expected_plan(7)),
        _ => panic!("a redraw request must render a frame"),
    }
}

#[test]
fn resize_to_zero_is_clamped_and_reconfigures() {
    let mut app = ready_app_at(800, 600);
    let action = app.handle_event(Event::Resized { width: 0, height: 0 });
    match action {
        Action::Reconfigure { config } => {
            assert_eq!(
                config,
                SurfaceConfig { format: 7, width: 1, height: 1, present_mode: 2, alpha_mode: 4 }
            );
        }
        _ => panic!("a resize must re-apply the configuration"),
    }
}

#[test]
fn resize_clamps_each_dimension_alone() {
    let mut app = ready_app_at(800, 600);
    match app.handle_event(Event::Resized { width: 0, height: 5 }) {
        Action::Reconfigure { config } => {
            assert_eq!(config.width, 1);
            assert_eq!(config.height, 5);
        }
        _ => panic!("a resize must re-apply the configuration"),
    }
    match app.handle_event(Event::Resized { width: 5, height: 0 }) {
        Action::Reconfigure { config } => {
            assert_eq!(config.width, 5);
            assert_eq!(config.height, 1);
        }
        _ => panic!("a resize must re-apply the configuration"),
    }
}

#[test]
fn resize_then_render_uses_new_size_and_old_format() {
    let mut app = ready_app_at(800, 600);
    let action = app.handle_event(Event::Resized { width: 1024, height: 768 });
    let config = match action {
        Action::Reconfigure { config } => config,
        _ => panic!("a resize must re-apply the configuration"),
    };
    assert_eq!(config.width, 1024);
    assert_eq!(config.height, 768);
    assert_eq!(config.format, 7);
    match app.handle_event(Event::RedrawRequested) {
        Action::Render { plan } => assert_eq!(plan, expected_plan(7)),
        _ => panic!("a redraw request must render a frame"),
    }
}

#[test]
fn resize_to_current_size_is_a_safe_noop() {
    let mut app = ready_app_at(800, 600);
    let action = app.handle_event(Event::Resized { width: 800, height: 600 });
    match action {
        Action::Reconfigure { config } => {
            assert_eq!(
                config,
                SurfaceConfig { format: 7, width: 800, height: 600, present_mode: 2, alpha_mode: 4 }
            );
        }
        _ => panic!("a resize must re-apply the configuration"),
    }
    assert!(app.initialized());
}

#[test]
fn close_after_redraws_exits() {
    let mut app = ready_app_at(800, 600);
    for _ in 0..3 {
        match app.handle_event(Event::RedrawRequested) {
            Action::Render { .. } => {}
            _ => panic!("a redraw request must render a frame"),
        }
    }
    match app.handle_event(Event::CloseRequested) {
        Action::Exit => {}
        _ => panic!("a close request must terminate the event loop"),
    }
}

#[test]
fn other_events_are_ignored() {
    let mut app = ready_app_at(800, 600);
    match app.handle_event(Event::Other) {
        Action::Ignore => {}
        _ => panic!("an unrelated event must do nothing"),
    }
}

#[test]
fn render_plan_clears_to_transparent() {
    let app = ready_app_at(320, 200);
    let plan = app.render_frame();
    match plan[1] {
        RenderStep::BeginPass { clear } => {
            assert_eq!(clear, Color { r: 0, g: 0, b: 0, a: 0 });
        }
        _ => panic!("the second step must begin the render pass"),
    }
}

#[test]
fn render_plan_draws_one_triangle_once() {
    let app = ready_app_at(320, 200);
    let plan = app.render_frame();
    let draws: Vec<&RenderStep> = plan
        .iter()
        .filter(|s| matches!(s, RenderStep::Draw { .. }))
        .collect();
    assert_eq!(draws.len(), 1);
    match draws[0] {
        RenderStep::Draw { first_vertex, vertex_count, first_instance, instance_count } => {
            assert_eq!((*first_vertex, *vertex_count), (0, 3));
            assert_eq!((*first_instance, *instance_count), (0, 1));
        }
        _ => unreachable!(),
    }
}

#[test]
fn direct_resize_and_initialize_calls() {
    let mut app = App::new();
    let caps = caps_with_two_formats();
    let cfg = app.initialize(&caps, 640, 480);
    assert_eq!(
        cfg,
        SurfaceConfig { format: 7, width: 640, height: 480, present_mode: 2, alpha_mode: 4 }
    );
    let cfg2 = app.on_resize(0, 480);
    assert_eq!(
        cfg2,
        SurfaceConfig { format: 7, width: 1, height: 480, present_mode: 2, alpha_mode: 4 }
    );
}
