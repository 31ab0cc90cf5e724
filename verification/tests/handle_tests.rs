use baseview::window::{extract_parent_id, plan_open, resolve_scale};
use baseview::{
    copy_to_clipboard, MouseCursor, OpenError, ParentHandle, ParentWindow, Scale, Size, Window,
    WindowInfo, WindowOpenOptions, WindowScalePolicy,
};

#[test]
fn handle_is_open_right_after_creation() {
    let (_parent, handle) = ParentHandle::new();
    assert!(handle.is_open());
    assert_eq!(handle.native_id(), None);
}

#[test]
fn handle_reports_closed_after_parent_side_drops() {
    let (parent, handle) = ParentHandle::new();
    assert!(handle.is_open());
    drop(parent);
    assert!(!handle.is_open());
}

#[test]
fn close_is_idempotent_and_never_blocks() {
    let (parent, mut handle) = ParentHandle::new();
    handle.close();
    handle.close();
    handle.close();
    assert!(parent.parent_did_drop());
    drop(parent);
    // Closing after the window side is gone is a harmless no-op.
    handle.close();
    handle.close();
    assert!(!handle.is_open());
}

#[test]
fn close_request_reaches_the_parent_side() {
    let (parent, mut handle) = ParentHandle::new();
    assert!(!parent.parent_did_drop());
    handle.close();
    assert!(parent.parent_did_drop());
}

#[test]
fn dropped_handle_reads_as_close_request() {
    let (parent, handle) = ParentHandle::new();
    drop(handle);
    assert!(parent.parent_did_drop());
}

#[test]
fn native_id_populates_once_construction_finishes() {
    let (_parent, mut handle) = ParentHandle::new();
    assert_eq!(handle.native_id(), None);
    handle.set_native_id(42);
    assert_eq!(handle.native_id(), Some(42));
}

#[test]
fn unsupported_parent_kind_fails_before_any_resource() {
    let options = WindowOpenOptions {
        title: String::from("child"),
        size: Size::new(100, 100),
        scale: WindowScalePolicy::SystemScaleFactor,
    };
    let wayland = ParentWindow::WaylandSurface;
    assert_eq!(
        plan_open(&options, Some(&wayland), None),
        Err(OpenError::UnsupportedParentHandle)
    );
    assert_eq!(
        extract_parent_id(&ParentWindow::Win32Window),
        Err(OpenError::UnsupportedParentHandle)
    );
    assert_eq!(
        extract_parent_id(&ParentWindow::AppKitView),
        Err(OpenError::UnsupportedParentHandle)
    );
}

#[test]
fn supported_parent_kinds_yield_their_identifier() {
    assert_eq!(extract_parent_id(&ParentWindow::XcbWindow { window: 77 }), Ok(77));
    // The Xlib identifier is narrowed to the protocol's 32 bits.
    assert_eq!(
        extract_parent_id(&ParentWindow::XlibWindow { window: 0x1_0000_002a }),
        Ok(0x2a)
    );
}

#[test]
fn plan_open_carries_parent_id_and_info() {
    let options = WindowOpenOptions {
        title: String::from("child"),
        size: Size::new(200, 100),
        scale: WindowScalePolicy::ScaleFactor(Scale::new(1500)),
    };
    let parent = ParentWindow::XcbWindow { window: 9 };
    let plan = plan_open(&options, Some(&parent), None).unwrap();
    assert_eq!(plan.parent_id, Some(9));
    assert_eq!(plan.info.logical_size(), Size::new(200, 100));
    assert_eq!(plan.info.physical_size().width, 300);
    assert_eq!(plan.info.physical_size().height, 150);
}

#[test]
fn scale_policy_resolution() {
    let fixed = WindowScalePolicy::ScaleFactor(Scale::new(2000));
    // A fixed policy ignores what the system says.
    assert_eq!(resolve_scale(fixed, Some(Scale::new(1250))), Scale::new(2000));
    assert_eq!(resolve_scale(WindowScalePolicy::SystemScaleFactor, Some(Scale::new(1250))), Scale::new(1250));
    // When the platform would not say, the system policy falls back to 1:1.
    assert_eq!(resolve_scale(WindowScalePolicy::SystemScaleFactor, None), Scale::new(1000));
}

#[test]
fn window_focus_is_a_known_gap() {
    let info = WindowInfo::from_logical_size(Size::new(10, 10), Scale::one());
    let mut window = Window::new(info, 5);
    assert!(!window.has_focus());
    window.focus();
    assert!(!window.close_flag);
    assert_eq!(window.cursor, MouseCursor::Default);
}

#[test]
fn clipboard_is_not_implemented_on_this_backend() {
    assert!(!copy_to_clipboard("hello"));
}
