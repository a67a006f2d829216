use gpu_app::app::{
    frame_action, App, AppBuilder, AppEvent, EventResponse, FrameAction, SurfaceStatus,
    WindowEventKind,
};
use gpu_app::gpu::{DeviceType, GpuBuilder, PresentMode};

fn no_response() -> EventResponse {
    EventResponse {
        exit: false,
        resize: None,
        forward_event: false,
        request_redraw: false,
        render_frame: false,
        destroy: false,
    }
}

#[test]
fn app_builder_defaults() {
    let b = AppBuilder::new();
    assert_eq!(b.name, "default app");
    assert_eq!(b.dim, (640, 360));
    assert_eq!(b.gpu_builder, GpuBuilder::new());
    assert!(b.init_subscriber);
    assert!(!b.resizable);
    assert!(b.esc);
}

#[test]
fn app_builder_setters() {
    let b = AppBuilder::new()
        .with_name("demo")
        .with_dimension(1280, 720)
        .with_gpu(
            GpuBuilder::new()
                .with_device(DeviceType::IntegratedGpu)
                .with_present_mode(PresentMode::Mailbox),
        )
        .with_init_subscriber(false)
        .with_resizable(true)
        .with_esc(false);
    assert_eq!(b.name, "demo");
    assert_eq!(b.dim, (1280, 720));
    assert_eq!(b.gpu_builder.device_type, DeviceType::IntegratedGpu);
    assert_eq!(b.gpu_builder.present_mode, PresentMode::Mailbox);
    assert!(!b.init_subscriber);
    assert!(b.resizable);
    assert!(!b.esc);
}

#[test]
fn build_keeps_escape_choice() {
    assert!(AppBuilder::new().build().esc);
    assert!(!AppBuilder::new().with_esc(false).build().esc);
}

#[test]
fn close_request_exits_and_is_forwarded() {
    let app = App { esc: true };
    let r = app.handle_event(&AppEvent::Window(WindowEventKind::CloseRequested));
    assert_eq!(
        r,
        EventResponse {
            exit: true,
            forward_event: true,
            ..no_response()
        }
    );
}

#[test]
fn escape_exits_only_when_enabled() {
    let pressed = AppEvent::Window(WindowEventKind::KeyboardInput {
        escape: true,
        pressed: true,
    });
    let with_esc = App { esc: true }.handle_event(&pressed);
    assert!(with_esc.exit);
    assert!(with_esc.forward_event);

    let without_esc = App { esc: false }.handle_event(&pressed);
    assert!(!without_esc.exit);
    assert!(without_esc.forward_event);
}

#[test]
fn escape_release_and_other_keys_do_not_exit() {
    let app = App { esc: true };
    let released = app.handle_event(&AppEvent::Window(WindowEventKind::KeyboardInput {
        escape: true,
        pressed: false,
    }));
    assert!(!released.exit);
    let other_key = app.handle_event(&AppEvent::Window(WindowEventKind::KeyboardInput {
        escape: false,
        pressed: true,
    }));
    assert!(!other_key.exit);
}

#[test]
fn resize_rebinds_the_surface() {
    let app = App { esc: true };
    let r = app.handle_event(&AppEvent::Window(WindowEventKind::Resized {
        width: 800,
        height: 600,
    }));
    assert_eq!(
        r,
        EventResponse {
            resize: Some((800, 600)),
            forward_event: true,
            ..no_response()
        }
    );
}

#[test]
fn other_window_events_are_only_forwarded() {
    let app = App { esc: true };
    let r = app.handle_event(&AppEvent::Window(WindowEventKind::OtherWindowEvent));
    assert_eq!(
        r,
        EventResponse {
            forward_event: true,
            ..no_response()
        }
    );
}

#[test]
fn cleared_events_request_a_redraw() {
    let app = App { esc: true };
    let r = app.handle_event(&AppEvent::EventsCleared);
    assert_eq!(
        r,
        EventResponse {
            request_redraw: true,
            ..no_response()
        }
    );
}

#[test]
fn redraw_renders_a_frame() {
    let app = App { esc: true };
    let r = app.handle_event(&AppEvent::RedrawRequested);
    assert_eq!(
        r,
        EventResponse {
            render_frame: true,
            ..no_response()
        }
    );
}

#[test]
fn loop_end_destroys_and_other_events_do_nothing() {
    let app = App { esc: true };
    let destroyed = app.handle_event(&AppEvent::LoopDestroyed);
    assert_eq!(
        destroyed,
        EventResponse {
            destroy: true,
            ..no_response()
        }
    );
    assert_eq!(app.handle_event(&AppEvent::OtherEvent), no_response());
}

#[test]
fn frame_actions() {
    assert_eq!(frame_action(SurfaceStatus::Acquired), FrameAction::Render);
    assert_eq!(frame_action(SurfaceStatus::Outdated), FrameAction::SkipFrame);
    assert_eq!(
        frame_action(SurfaceStatus::OtherError),
        FrameAction::ReportError
    );
}
