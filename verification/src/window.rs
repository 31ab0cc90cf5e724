//! The window facade handed to user callbacks, the open options, and
//! the plain-value planning of window construction.
//!
//! The facade is confined to the thread that owns the event loop. It
//! never issues native calls itself: each operation either updates the
//! window's own state or queues a native command, and the platform glue
//! drains the queue after every dispatch and performs the calls. That
//! keeps every decision — scale arithmetic, cursor caching, the close
//! flag — inside verified code.

use vstd::prelude::*;

use crate::geometry::{
    point_to_physical_spec, size_to_physical_spec, PhyPoint, PhySize, Point, Scale, Size,
    SCALE_ONE_MILLIS,
};
use crate::window_info::WindowInfo;

verus! {

/// A mouse cursor shape. The bitmap catalog itself is the platform's;
/// the core only caches which shape is current.
#[derive(Clone, Copy, Debug, PartialEq, Eq, Structural)]
pub enum MouseCursor {
    Default,
    Hand,
    HandGrabbing,
    Help,
    Hidden,
    Text,
    Working,
    NotAllowed,
    Crosshair,
    Move,
    AllScroll,
    EwResize,
    NsResize,
    NeswResize,
    NwseResize,
    ColResize,
    RowResize,
}

impl Default for MouseCursor {
    /// The plain arrow cursor.
    fn default() -> (r: MouseCursor)
        ensures
            r == MouseCursor::Default,
    {
        MouseCursor::Default
    }
}

/// How the logical-to-physical scale is resolved when a window opens:
/// queried from the system once, or fixed by the caller.
#[derive(Clone, Copy, Debug, PartialEq, Eq, Structural)]
pub enum WindowScalePolicy {
    /// Ask the platform for its scale factor once, at open time.
    SystemScaleFactor,
    /// Use this factor, regardless of the system's.
    ScaleFactor(Scale),
}

/// The options a window is opened with.
#[derive(Clone, Debug)]
pub struct WindowOpenOptions {
    pub title: String,
    /// The logical size of the window.
    pub size: Size,
    pub scale: WindowScalePolicy,
}

/// A caller-supplied parent window reference, reduced to the plain
/// values the core reads: which windowing backend it belongs to and
/// the native identifier. Only the two X11 kinds can parent a window
/// of this backend.
#[derive(Clone, Copy, Debug, PartialEq, Eq, Structural)]
pub enum ParentWindow {
    /// An Xlib window identifier.
    XlibWindow { window: u64 },
    /// An XCB window identifier.
    XcbWindow { window: u32 },
    /// A Wayland surface: not a supported parent for this backend.
    WaylandSurface,
    /// A Win32 window: not a supported parent for this backend.
    Win32Window,
    /// An AppKit view: not a supported parent for this backend.
    AppKitView,
}

/// Why opening a window failed before any native resource was created.
#[derive(Clone, Copy, Debug, PartialEq, Eq, Structural)]
pub enum OpenError {
    /// The supplied parent handle belongs to a windowing backend this
    /// backend cannot parent into.
    UnsupportedParentHandle,
    /// The platform display or connection could not be acquired.
    ConnectionFailed,
    /// The platform rejected the native window creation.
    WindowCreationFailed,
}

/// Whether a parent reference is of a kind this backend can parent
/// into.
pub open spec fn parent_supported(parent: ParentWindow) -> bool {
    parent is XlibWindow || parent is XcbWindow
}

/// The native identifier a supported parent reference names: the XCB
/// identifier as is, the Xlib identifier narrowed to the protocol's
/// 32 bits.
pub open spec fn parent_id_spec(parent: ParentWindow) -> u32
    recommends
        parent_supported(parent),
{
    match parent {
        ParentWindow::XlibWindow { window } => window as u32,
        ParentWindow::XcbWindow { window } => window,
        _ => 0,
    }
}

/// Extracts the native identifier to parent into. Fails — before any
/// native resource is touched — if and only if the reference is of an
/// unsupported kind.
pub fn extract_parent_id(parent: &ParentWindow) -> (r: Result<u32, OpenError>)
    ensures
        r is Ok <==> parent_supported(*parent),
        parent_supported(*parent) ==> r == Ok::<u32, OpenError>(parent_id_spec(*parent)),
        !parent_supported(*parent) ==> r == Err::<u32, OpenError>(
            OpenError::UnsupportedParentHandle,
        ),
{
    match parent {
        ParentWindow::XlibWindow { window } => Ok((*window) as u32),
        ParentWindow::XcbWindow { window } => Ok(*window),
        _ => Err(OpenError::UnsupportedParentHandle),
    }
}

/// The scale a policy resolves to, given what the system reported (or
/// that the query failed): a fixed policy wins; the system policy takes
/// the reported factor, or 1:1 when the platform would not say.
pub open spec fn resolved_scale_spec(policy: WindowScalePolicy, system: Option<Scale>) -> Scale {
    match policy {
        WindowScalePolicy::ScaleFactor(s) => s,
        WindowScalePolicy::SystemScaleFactor => match system {
            Some(s) => s,
            None => Scale { millis: SCALE_ONE_MILLIS },
        },
    }
}

/// Resolves a scale policy against the system-reported factor.
pub fn resolve_scale(policy: WindowScalePolicy, system: Option<Scale>) -> (r: Scale)
    requires
        (policy matches WindowScalePolicy::ScaleFactor(s) ==> s.wf()),
        (system matches Some(s) ==> s.wf()),
    ensures
        r == resolved_scale_spec(policy, system),
        r.wf(),
{
    match policy {
        WindowScalePolicy::ScaleFactor(s) => s,
        WindowScalePolicy::SystemScaleFactor => match system {
            Some(s) => s,
            None => Scale::one(),
        },
    }
}

/// Everything the platform glue needs to create the native window:
/// computed from plain values before any native resource is touched.
#[derive(Clone, Copy, Debug, PartialEq, Eq, Structural)]
pub struct OpenPlan {
    /// The native window to parent into, if the open is parented.
    pub parent_id: Option<u32>,
    /// The size and scale the window starts with.
    pub info: WindowInfo,
}

/// The window info a successful open starts with: the requested
/// logical size as given, its physical image under the resolved scale.
pub open spec fn open_info_spec(options: WindowOpenOptions, system: Option<Scale>) -> WindowInfo {
    WindowInfo {
        logical: options.size,
        physical: size_to_physical_spec(options.size, resolved_scale_spec(options.scale, system)),
        factor: resolved_scale_spec(options.scale, system),
    }
}

/// What planning an open returns: an error exactly when a parent
/// reference of an unsupported kind was given, else the parent
/// identifier (if any) and the initial window info.
pub open spec fn open_plan_spec(
    options: WindowOpenOptions,
    parent: Option<ParentWindow>,
    system: Option<Scale>,
) -> Result<OpenPlan, OpenError> {
    match parent {
        Some(p) => if parent_supported(p) {
            Ok(
                OpenPlan {
                    parent_id: Some(parent_id_spec(p)),
                    info: open_info_spec(options, system),
                },
            )
        } else {
            Err(OpenError::UnsupportedParentHandle)
        },
        None => Ok(OpenPlan { parent_id: None, info: open_info_spec(options, system) }),
    }
}

/// Plans a window open from the caller's options, the parent reference
/// (for a parented open), and the system-reported scale factor. Fails
/// if and only if a parent reference of an unsupported kind was given,
/// and then before any native resource is created.
pub fn plan_open(options: &WindowOpenOptions, parent: Option<&ParentWindow>, system: Option<
    Scale,
>) -> (r: Result<OpenPlan, OpenError>)
    requires
        (options.scale matches WindowScalePolicy::ScaleFactor(s) ==> s.wf()),
        (system matches Some(s) ==> s.wf()),
    ensures
        r == open_plan_spec(
            *options,
            match parent {
                Some(p) => Some(*p),
                None => None::<ParentWindow>,
            },
            system,
        ),
        r matches Ok(plan) ==> plan.info.wf(),
{
    let parent_id: Option<u32> = match parent {
        Some(p) => match extract_parent_id(p) {
            Ok(id) => Some(id),
            Err(e) => {
                return Err(e);
            },
        },
        None => None,
    };
    let factor = resolve_scale(options.scale, system);
    let info = WindowInfo::from_logical_size(options.size, factor);
    Ok(OpenPlan { parent_id, info })
}

/// A native call the facade has queued: the platform glue performs
/// these, in order, after each dispatch. All values are physical
/// pixels.
#[derive(Clone, Copy, Debug, PartialEq, Eq, Structural)]
pub enum NativeCommand {
    /// Ask the native system to resize the window. The window info is
    /// not touched here: it updates when the native system reports the
    /// resize back.
    Resize { physical: PhySize },
    /// Change the visible cursor shape.
    SetCursor { cursor: MouseCursor },
    /// Move the pointer to a position in physical pixels.
    WarpPointer { position: PhyPoint },
}

/// The window object passed into user callbacks: thread-confined,
/// owned by the event loop, and the only path from a handler to the
/// native window.
#[derive(Clone, Debug)]
pub struct Window {
    /// The current size and scale snapshot.
    pub info: WindowInfo,
    /// The native window identifier, held as an opaque value.
    pub native_id: u32,
    /// The cursor shape last requested, so that repeated requests of
    /// the same shape queue no native call.
    pub cursor: MouseCursor,
    /// Raised by `close`; the event loop observes it at the end of the
    /// pump iteration and begins teardown.
    pub close_flag: bool,
    /// Native calls queued and not yet performed.
    pub commands: Vec<NativeCommand>,
}

impl Window {
    pub open spec fn wf(self) -> bool {
        self.info.wf()
    }

    /// What a user callback may not change about the window it is
    /// handed: the identity and the size/scale snapshot are the event
    /// loop's to maintain, and a requested close cannot be retracted.
    pub open spec fn handler_view_ok(pre: Window, post: Window) -> bool {
        &&& post.info == pre.info
        &&& post.native_id == pre.native_id
        &&& (pre.close_flag ==> post.close_flag)
    }

    /// A fresh facade for a window that was just constructed: no close
    /// requested, the default cursor, nothing queued.
    pub fn new(info: WindowInfo, native_id: u32) -> (r: Window)
        requires
            info.wf(),
        ensures
            r.info == info,
            r.native_id == native_id,
            r.cursor == MouseCursor::Default,
            !r.close_flag,
            r.commands@ =~= Seq::<NativeCommand>::empty(),
            r.wf(),
    {
        Window {
            info,
            native_id,
            cursor: MouseCursor::Default,
            close_flag: false,
            commands: Vec::new(),
        }
    }

    /// Requests closure: the event loop finishes the current pump
    /// iteration and then begins teardown. Repeated requests are
    /// harmless.
    pub fn close(&mut self)
        ensures
            *final(self) == (Window { close_flag: true, ..*old(self) }),
            Window::handler_view_ok(*old(self), *final(self)),
    {
        self.close_flag = true;
    }

    /// Asks the native system to resize the window to `size` logical
    /// pixels: queues the resize with the physical size under the
    /// current scale. The size/scale snapshot changes only once the
    /// native system reports the resize back.
    pub fn resize(&mut self, size: Size)
        requires
            old(self).wf(),
        ensures
            *final(self) == (Window {
                commands: final(self).commands,
                ..*old(self)
            }),
            final(self).commands@ == old(self).commands@.push(
                NativeCommand::Resize {
                    physical: size_to_physical_spec(size, old(self).info.factor),
                },
            ),
            Window::handler_view_ok(*old(self), *final(self)),
    {
        let physical = size.to_physical(self.info.factor);
        self.commands.push(NativeCommand::Resize { physical });
    }

    /// Changes the cursor shape. A request for the shape already
    /// current queues nothing.
    pub fn set_mouse_cursor(&mut self, cursor: MouseCursor)
        ensures
            final(self).cursor == cursor,
            cursor == old(self).cursor ==> *final(self) == *old(self),
            cursor != old(self).cursor ==> *final(self) == (Window {
                cursor,
                commands: final(self).commands,
                ..*old(self)
            }) && final(self).commands@ == old(self).commands@.push(
                NativeCommand::SetCursor { cursor },
            ),
            Window::handler_view_ok(*old(self), *final(self)),
    {
        if self.cursor == cursor {
            return ;
        }
        self.commands.push(NativeCommand::SetCursor { cursor });
        self.cursor = cursor;
    }

    /// Moves the pointer to `point` logical pixels: queues the warp
    /// with the physical position under the current scale.
    pub fn set_mouse_position(&mut self, point: Point)
        requires
            old(self).wf(),
        ensures
            *final(self) == (Window {
                commands: final(self).commands,
                ..*old(self)
            }),
            final(self).commands@ == old(self).commands@.push(
                NativeCommand::WarpPointer {
                    position: point_to_physical_spec(point, old(self).info.factor),
                },
            ),
            Window::handler_view_ok(*old(self), *final(self)),
    {
        let position = point.to_physical(self.info.factor);
        self.commands.push(NativeCommand::WarpPointer { position });
    }

    /// Whether the window has keyboard focus. This backend cannot tell:
    /// a known platform capability gap, answered with `false`.
    pub fn has_focus(&mut self) -> (r: bool)
        ensures
            *final(self) == *old(self),
            r == false,
    {
        false
    }

    /// Asks for keyboard focus. This backend cannot: a known platform
    /// capability gap, and a no-op.
    pub fn focus(&mut self)
        ensures
            *final(self) == *old(self),
    {
    }

    /// Hands the queued native commands to the platform glue and
    /// clears the queue.
    pub fn take_commands(&mut self) -> (r: Vec<NativeCommand>)
        ensures
            r@ == old(self).commands@,
            *final(self) == (Window { commands: final(self).commands, ..*old(self) }),
            final(self).commands@ =~= Seq::<NativeCommand>::empty(),
    {
        let mut taken: Vec<NativeCommand> = Vec::new();
        std::mem::swap(&mut taken, &mut self.commands);
        taken
    }
}

/// Puts text on the clipboard. Clipboard transfer is not implemented
/// on this backend: the request is not performed, and the answer says
/// so.
pub fn copy_to_clipboard(_data: &str) -> (r: bool)
    ensures
        r == false,
{
    false
}

} // verus!
