//! A windowing core: window lifecycle, DPI scaling, and a uniform event
//! stream delivered to user callbacks.
//!
//! The library holds the verified logic: geometry and scale arithmetic,
//! translation of native notifications into uniform events, the pump
//! state machine of the event loop, and the cross-thread liveness
//! protocol of window handles. Platform glue (the X11 protocol itself,
//! thread spawning) lives outside the library and drives it through
//! plain values.

pub mod event;
pub mod event_loop;
pub mod geometry;
pub mod handle;
pub mod translate;
pub mod window;
pub mod window_info;

pub use event::{
    Event, EventStatus, KeyboardEvent, Modifiers, MouseButton, MouseEvent, NativeEvent,
    ScrollDelta, WindowEvent,
};
pub use event_loop::{EventLoop, LoopState, PumpOutcome, WindowHandler};
pub use geometry::{PhyPoint, PhySize, Point, Scale, Size};
pub use handle::{ParentHandle, WindowHandle};
pub use window::{
    copy_to_clipboard, MouseCursor, NativeCommand, OpenError, OpenPlan, ParentWindow, Window,
    WindowOpenOptions, WindowScalePolicy,
};
pub use window_info::WindowInfo;
