use canvas_gl::Canvas;
use canvas_gl::ContextAttributes;
use canvas_gl::NativeAction;
use canvas_gl::StatusCode;
use canvas_gl::Window;
use canvas_gl::error_to_str;
use canvas_gl::get_available_monitors;
use canvas_gl::get_primary_monitor;
use canvas_gl::negotiate;
use canvas_gl::status_from_code;

#[test]
fn negotiate_with_requested_version_overrides_only_the_version() {
    let defaults = ContextAttributes::platform_defaults();
    let negotiated = negotiate(defaults, Some((2, 0)));
    assert_eq!(negotiated.major_version, 2);
    assert_eq!(negotiated.minor_version, 0);
    assert_eq!(negotiated.alpha, defaults.alpha);
    assert_eq!(negotiated.depth, defaults.depth);
    assert_eq!(negotiated.stencil, defaults.stencil);
    assert_eq!(negotiated.antialias, defaults.antialias);
    assert_eq!(negotiated.premultiplied_alpha, defaults.premultiplied_alpha);
    assert_eq!(negotiated.preserve_drawing_buffer, defaults.preserve_drawing_buffer);
    assert_eq!(
        negotiated.prefer_low_power_to_high_performance,
        defaults.prefer_low_power_to_high_performance
    );
    assert_eq!(
        negotiated.fail_if_major_performance_caveat,
        defaults.fail_if_major_performance_caveat
    );
    assert_eq!(
        negotiated.enable_extensions_by_default,
        defaults.enable_extensions_by_default
    );
}

#[test]
fn negotiate_without_requested_version_returns_defaults_whole() {
    let defaults = ContextAttributes::platform_defaults();
    let negotiated = negotiate(defaults, None);
    assert_eq!(negotiated, defaults);
}

#[test]
fn negotiate_passes_version_through_verbatim() {
    let defaults = ContextAttributes::platform_defaults();
    let negotiated = negotiate(defaults, Some((999, 12345)));
    assert_eq!(negotiated.major_version, 999);
    assert_eq!(negotiated.minor_version, 12345);
}

#[test]
fn platform_defaults_are_fully_populated() {
    let defaults = ContextAttributes::platform_defaults();
    assert!(defaults.alpha);
    assert!(defaults.depth);
    assert!(!defaults.stencil);
    assert!(defaults.antialias);
    assert!(defaults.premultiplied_alpha);
    assert!(!defaults.preserve_drawing_buffer);
    assert!(!defaults.prefer_low_power_to_high_performance);
    assert!(!defaults.fail_if_major_performance_caveat);
    assert_eq!(defaults.major_version, 1);
    assert_eq!(defaults.minor_version, 0);
    assert!(defaults.enable_extensions_by_default);
}

#[test]
fn creation_with_zero_handle_fails_with_internal_error_diagnostic() {
    let result = Window::new(0);
    match result {
        Ok(_) => panic!("a non-positive handle must not yield a window"),
        Err(message) => assert_eq!(
            message,
            "Error while calling the native context creation: \
             Internal error in the library (success detected as failure)"
        ),
    }
}

#[test]
fn creation_with_negative_handle_fails_with_translated_diagnostic() {
    match Window::new(-1) {
        Ok(_) => panic!("a non-positive handle must not yield a window"),
        Err(message) => assert_eq!(
            message,
            "Error while calling the native context creation: Not supported"
        ),
    }
    match Window::new(-6) {
        Ok(_) => panic!("a non-positive handle must not yield a window"),
        Err(message) => {
            assert_eq!(message, "Error while calling the native context creation: Failed")
        }
    }
}

#[test]
fn creation_with_undocumented_handle_fails_with_generic_diagnostic() {
    match Window::new(-99) {
        Ok(_) => panic!("a non-positive handle must not yield a window"),
        Err(message) => assert_eq!(
            message,
            "Error while calling the native context creation: Undocumented error"
        ),
    }
}

#[test]
fn creation_with_positive_handle_yields_an_open_window() {
    let canvas = Canvas::new(640, 480);
    let window = Window::new(5).expect("a positive handle must yield a window");
    assert!(!window.is_closed(&canvas));
}

#[test]
fn context_loss_is_reported_as_closed() {
    let mut canvas = Canvas::new(640, 480);
    let window = Window::new(5).expect("a positive handle must yield a window");
    canvas.lose_context();
    assert!(window.is_closed(&canvas));
}

#[test]
fn inner_and_outer_size_agree() {
    let mut canvas = Canvas::new(800, 600);
    let window = Window::new(3).expect("a positive handle must yield a window");
    assert_eq!(window.get_inner_size(&canvas), Some((800, 600)));
    assert_eq!(window.get_outer_size(&canvas), window.get_inner_size(&canvas));
    canvas.set_size_query_ok(false);
    assert_eq!(window.get_inner_size(&canvas), None);
    assert_eq!(window.get_outer_size(&canvas), window.get_inner_size(&canvas));
}

#[test]
fn resize_request_is_visible_once_the_environment_applies_it() {
    let mut canvas = Canvas::new(100, 50);
    let window = Window::new(9).expect("a positive handle must yield a window");
    window.set_inner_size(&mut canvas, 30, 40);
    assert_eq!(window.get_inner_size(&canvas), Some((100, 50)));
    canvas.apply_pending_resize();
    assert_eq!(window.get_inner_size(&canvas), Some((30, 40)));
}

#[test]
fn applying_without_a_pending_request_changes_nothing() {
    let mut canvas = Canvas::new(100, 50);
    let window = Window::new(9).expect("a positive handle must yield a window");
    canvas.apply_pending_resize();
    assert_eq!(window.get_inner_size(&canvas), Some((100, 50)));
}

#[test]
fn teardown_destroys_the_context_exactly_once() {
    let window = Window::new(11).expect("a positive handle must yield a window");
    let actions = window.teardown();
    assert_eq!(
        actions,
        vec![NativeAction::ExitFullscreen, NativeAction::DestroyContext(11)]
    );
    let destroys = actions
        .iter()
        .filter(|a| matches!(a, NativeAction::DestroyContext(_)))
        .count();
    assert_eq!(destroys, 1);
}

#[test]
fn make_current_orders_the_binding_of_the_owned_context() {
    let window = Window::new(21).expect("a positive handle must yield a window");
    assert_eq!(window.make_current(), NativeAction::MakeCurrent(21));
}

#[test]
fn stubs_accept_their_arguments_without_effect() {
    let canvas = Canvas::new(10, 10);
    let window = Window::new(2).expect("a positive handle must yield a window");
    window.set_title("ignored");
    window.set_position(15, -3);
    window.swap_buffers();
    assert_eq!(window.get_position(), Some((0, 0)));
    assert_eq!(window.get_inner_size(&canvas), Some((10, 10)));
}

#[test]
fn event_polling_is_unsupported() {
    let window = Window::new(2).expect("a positive handle must yield a window");
    assert!(window.poll_events().is_err());
    assert!(window.wait_events().is_err());
}

#[test]
fn exactly_one_monitor_exists() {
    let monitors = get_available_monitors();
    assert_eq!(monitors.len(), 1);
    let primary = get_primary_monitor();
    assert_eq!(primary.get_name(), Some("Canvas".to_string()));
    assert_eq!(monitors[0].get_name(), Some("Canvas".to_string()));
}

#[test]
fn monitor_dimensions_are_unsupported() {
    let primary = get_primary_monitor();
    assert!(primary.get_dimensions().is_err());
}

#[test]
fn status_codes_decode_from_their_raw_values() {
    assert_eq!(status_from_code(0), StatusCode::Success);
    assert_eq!(status_from_code(1), StatusCode::Deferred);
    assert_eq!(status_from_code(-1), StatusCode::NotSupported);
    assert_eq!(status_from_code(-2), StatusCode::FailedNotDeferred);
    assert_eq!(status_from_code(-3), StatusCode::InvalidTarget);
    assert_eq!(status_from_code(-4), StatusCode::UnknownTarget);
    assert_eq!(status_from_code(-5), StatusCode::InvalidParam);
    assert_eq!(status_from_code(-6), StatusCode::Failed);
    assert_eq!(status_from_code(-7), StatusCode::NoData);
    assert_eq!(status_from_code(-8), StatusCode::Unknown);
    assert_eq!(status_from_code(2), StatusCode::Unknown);
    assert_eq!(status_from_code(i32::MIN), StatusCode::Unknown);
}

#[test]
fn every_status_translates_to_a_non_empty_diagnostic() {
    let all = [
        StatusCode::Success,
        StatusCode::Deferred,
        StatusCode::NotSupported,
        StatusCode::FailedNotDeferred,
        StatusCode::InvalidTarget,
        StatusCode::UnknownTarget,
        StatusCode::InvalidParam,
        StatusCode::Failed,
        StatusCode::NoData,
        StatusCode::Unknown,
    ];
    for code in all {
        assert!(!error_to_str(code).is_empty());
    }
}

#[test]
fn status_translations_are_exact() {
    assert_eq!(
        error_to_str(StatusCode::Success),
        "Internal error in the library (success detected as failure)"
    );
    assert_eq!(
        error_to_str(StatusCode::Deferred),
        "Internal error in the library (success detected as failure)"
    );
    assert_eq!(error_to_str(StatusCode::NotSupported), "Not supported");
    assert_eq!(error_to_str(StatusCode::FailedNotDeferred), "Failed not deferred");
    assert_eq!(error_to_str(StatusCode::InvalidTarget), "Invalid target");
    assert_eq!(error_to_str(StatusCode::UnknownTarget), "Unknown target");
    assert_eq!(error_to_str(StatusCode::InvalidParam), "Invalid parameter");
    assert_eq!(error_to_str(StatusCode::Failed), "Failed");
    assert_eq!(error_to_str(StatusCode::NoData), "No data");
    assert_eq!(error_to_str(StatusCode::Unknown), "Undocumented error");
}
