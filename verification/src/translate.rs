//! Translation of native notifications into the uniform event stream.
//!
//! Translation is stateless per event except for the scale factor,
//! which is read from the window info current at translation time. A
//! pump iteration reorders its batch so that every resize is delivered
//! before the other events of the batch, each carrying the window info
//! as of that resize; all non-resize events are translated against the
//! info that holds after the batch's last resize.

use vstd::prelude::*;

use crate::event::{
    button_spec, decode_button, decode_modifiers, is_scroll_code, modifiers_spec, scroll_spec,
    Event, KeyboardEvent, MouseEvent, NativeEvent, WindowEvent,
};
use crate::geometry::{point_to_logical_spec, PhyPoint, PhySize};
use crate::window_info::WindowInfo;

verus! {

/// Whether a native notification is a resize.
pub open spec fn is_resize(n: NativeEvent) -> bool {
    n is Configure
}

/// The window info after one native resize: the physical size is taken
/// as reported, the logical size divides out the unchanged scale.
pub open spec fn apply_configure_spec(info: WindowInfo, width: u32, height: u32) -> WindowInfo {
    WindowInfo {
        logical: crate::geometry::size_to_logical_spec(PhySize { width, height }, info.factor),
        physical: PhySize { width, height },
        factor: info.factor,
    }
}

/// The window info after a whole batch of native notifications: each
/// resize updates it in order, everything else leaves it alone.
pub open spec fn info_after(info: WindowInfo, ns: Seq<NativeEvent>) -> WindowInfo
    decreases ns.len(),
{
    if ns.len() == 0 {
        info
    } else {
        match ns.last() {
            NativeEvent::Configure { width, height } => apply_configure_spec(
                info_after(info, ns.drop_last()),
                width,
                height,
            ),
            _ => info_after(info, ns.drop_last()),
        }
    }
}

/// The uniform event a non-resize native notification translates to
/// under a given window info, or nothing: the release of a scroll code
/// is an artifact of the native encoding and is dropped.
pub open spec fn translate_spec(n: NativeEvent, info: WindowInfo) -> Option<Event> {
    match n {
        NativeEvent::Configure { width, height } => Some(
            Event::Window(WindowEvent::Resized(apply_configure_spec(info, width, height))),
        ),
        NativeEvent::FocusIn => Some(Event::Window(WindowEvent::Focused)),
        NativeEvent::FocusOut => Some(Event::Window(WindowEvent::Unfocused)),
        NativeEvent::CloseProtocol => Some(Event::Window(WindowEvent::CloseRequested)),
        NativeEvent::Motion { x, y, state } => Some(
            Event::Mouse(
                MouseEvent::CursorMoved {
                    position: point_to_logical_spec(PhyPoint { x, y }, info.factor),
                    modifiers: modifiers_spec(state),
                },
            ),
        ),
        NativeEvent::ButtonPress { button, state } => if is_scroll_code(button) {
            Some(
                Event::Mouse(
                    MouseEvent::WheelScrolled {
                        delta: scroll_spec(button),
                        modifiers: modifiers_spec(state),
                    },
                ),
            )
        } else {
            Some(
                Event::Mouse(
                    MouseEvent::ButtonPressed {
                        button: button_spec(button),
                        modifiers: modifiers_spec(state),
                    },
                ),
            )
        },
        NativeEvent::ButtonRelease { button, state } => if is_scroll_code(button) {
            None
        } else {
            Some(
                Event::Mouse(
                    MouseEvent::ButtonReleased {
                        button: button_spec(button),
                        modifiers: modifiers_spec(state),
                    },
                ),
            )
        },
        NativeEvent::KeyPress { code, state } => Some(
            Event::Keyboard(KeyboardEvent::KeyPressed { code, modifiers: modifiers_spec(state) }),
        ),
        NativeEvent::KeyRelease { code, state } => Some(
            Event::Keyboard(KeyboardEvent::KeyReleased { code, modifiers: modifiers_spec(state) }),
        ),
        NativeEvent::Enter => Some(Event::Mouse(MouseEvent::CursorEntered)),
        NativeEvent::Leave => Some(Event::Mouse(MouseEvent::CursorLeft)),
    }
}

/// The resize events of a batch, in batch order, each carrying the
/// window info as of that resize.
pub open spec fn resize_events(info: WindowInfo, ns: Seq<NativeEvent>) -> Seq<Event>
    decreases ns.len(),
{
    if ns.len() == 0 {
        Seq::<Event>::empty()
    } else if is_resize(ns.last()) {
        resize_events(info, ns.drop_last()).push(
            Event::Window(WindowEvent::Resized(info_after(info, ns))),
        )
    } else {
        resize_events(info, ns.drop_last())
    }
}

/// The non-resize events of a batch, in batch order, all translated
/// against one window info (the info after the batch's resizes).
pub open spec fn other_events(ns: Seq<NativeEvent>, info: WindowInfo) -> Seq<Event>
    decreases ns.len(),
{
    if ns.len() == 0 {
        Seq::<Event>::empty()
    } else if is_resize(ns.last()) {
        other_events(ns.drop_last(), info)
    } else {
        match translate_spec(ns.last(), info) {
            Some(e) => other_events(ns.drop_last(), info).push(e),
            None => other_events(ns.drop_last(), info),
        }
    }
}

/// The full event sequence a batch of native notifications is
/// delivered as: the resizes first, then everything else, both in
/// batch order.
pub open spec fn batch_events(info: WindowInfo, ns: Seq<NativeEvent>) -> Seq<Event> {
    resize_events(info, ns) + other_events(ns, info_after(info, ns))
}

/// Whether a batch contains the window manager's delete request.
pub open spec fn has_close_protocol(ns: Seq<NativeEvent>) -> bool
    decreases ns.len(),
{
    if ns.len() == 0 {
        false
    } else {
        ns.last() is CloseProtocol || has_close_protocol(ns.drop_last())
    }
}

/// Translates one non-resize native notification against a window
/// info; resizes are handled by the batch planner, which threads the
/// info through them in order.
pub fn translate(n: NativeEvent, info: &WindowInfo) -> (r: Option<Event>)
    requires
        info.wf(),
        !is_resize(n),
    ensures
        r == translate_spec(n, *info),
{
    match n {
        NativeEvent::Configure { .. } => None,
        NativeEvent::FocusIn => Some(Event::Window(WindowEvent::Focused)),
        NativeEvent::FocusOut => Some(Event::Window(WindowEvent::Unfocused)),
        NativeEvent::CloseProtocol => Some(Event::Window(WindowEvent::CloseRequested)),
        NativeEvent::Motion { x, y, state } => {
            let position = PhyPoint::new(x, y).to_logical(info.factor);
            Some(
                Event::Mouse(
                    MouseEvent::CursorMoved { position, modifiers: decode_modifiers(state) },
                ),
            )
        },
        NativeEvent::ButtonPress { button, state } => {
            if 4 <= button && button <= 7 {
                let delta = if button == 4 {
                    crate::event::ScrollDelta { lines_x: 0, lines_y: 1 }
                } else if button == 5 {
                    crate::event::ScrollDelta { lines_x: 0, lines_y: -1 }
                } else if button == 6 {
                    crate::event::ScrollDelta { lines_x: -1, lines_y: 0 }
                } else {
                    crate::event::ScrollDelta { lines_x: 1, lines_y: 0 }
                };
                Some(
                    Event::Mouse(
                        MouseEvent::WheelScrolled { delta, modifiers: decode_modifiers(state) },
                    ),
                )
            } else {
                Some(
                    Event::Mouse(
                        MouseEvent::ButtonPressed {
                            button: decode_button(button),
                            modifiers: decode_modifiers(state),
                        },
                    ),
                )
            }
        },
        NativeEvent::ButtonRelease { button, state } => {
            if 4 <= button && button <= 7 {
                None
            } else {
                Some(
                    Event::Mouse(
                        MouseEvent::ButtonReleased {
                            button: decode_button(button),
                            modifiers: decode_modifiers(state),
                        },
                    ),
                )
            }
        },
        NativeEvent::KeyPress { code, state } => Some(
            Event::Keyboard(
                KeyboardEvent::KeyPressed { code, modifiers: decode_modifiers(state) },
            ),
        ),
        NativeEvent::KeyRelease { code, state } => Some(
            Event::Keyboard(
                KeyboardEvent::KeyReleased { code, modifiers: decode_modifiers(state) },
            ),
        ),
        NativeEvent::Enter => Some(Event::Mouse(MouseEvent::CursorEntered)),
        NativeEvent::Leave => Some(Event::Mouse(MouseEvent::CursorLeft)),
    }
}

/// Law: the scale factor changes only in response to a native
/// notification, never spontaneously — and on this backend no native
/// notification changes it at all: the info after any batch carries
/// the scale factor it started with.
pub proof fn lemma_scale_stability(info: WindowInfo, ns: Seq<NativeEvent>)
    ensures
        info_after(info, ns).factor == info.factor,
    decreases ns.len(),
{
    if ns.len() > 0 {
        lemma_scale_stability(info, ns.drop_last());
    }
}

/// Law: after any batch of native notifications, the window info is
/// either exactly what it was — no resize arrived — or a snapshot whose
/// logical size is the last reported physical size divided by the
/// unchanged scale factor.
pub proof fn lemma_info_after_consistency(info: WindowInfo, ns: Seq<NativeEvent>)
    ensures
        info_after(info, ns) == info || info_after(info, ns).logical
            == crate::geometry::size_to_logical_spec(info_after(info, ns).physical, info.factor),
    decreases ns.len(),
{
    if ns.len() > 0 {
        lemma_info_after_consistency(info, ns.drop_last());
        if is_resize(ns.last()) {
            lemma_scale_stability(info, ns.drop_last());
        }
    }
}

/// Law: for any sequence of native resize notifications, every resized
/// event delivered to the handler carries a snapshot whose logical
/// size is the reported physical size divided by the then-current
/// scale factor.
pub proof fn lemma_resized_reports_logical(info: WindowInfo, ns: Seq<NativeEvent>)
    ensures
        forall|i: int|
            0 <= i < resize_events(info, ns).len() ==> {
                &&& #[trigger] resize_events(info, ns)[i] matches Event::Window(
                    WindowEvent::Resized(wi),
                )
                &&& resize_events(info, ns)[i]->Window_0->Resized_0.factor == info.factor
                &&& resize_events(info, ns)[i]->Window_0->Resized_0.logical
                    == crate::geometry::size_to_logical_spec(
                    resize_events(info, ns)[i]->Window_0->Resized_0.physical,
                    info.factor,
                )
            },
    decreases ns.len(),
{
    if ns.len() > 0 {
        lemma_resized_reports_logical(info, ns.drop_last());
        if is_resize(ns.last()) {
            lemma_scale_stability(info, ns.drop_last());
            assert(resize_events(info, ns) == resize_events(info, ns.drop_last()).push(
                Event::Window(WindowEvent::Resized(info_after(info, ns))),
            ));
        }
    }
}

/// What one pump iteration makes of its batch of native notifications:
/// the events to deliver in order, the window info that holds after
/// the batch, and whether the batch carried the delete request.
pub struct BatchPlan {
    pub events: Vec<Event>,
    pub info: WindowInfo,
    pub close_requested: bool,
}

/// Plans a pump iteration's batch: resizes first (each with the window
/// info as of that resize), then the remaining events in order,
/// translated against the info after the last resize.
pub fn plan_batch(natives: &Vec<NativeEvent>, info: WindowInfo) -> (r: BatchPlan)
    requires
        info.wf(),
    ensures
        r.info == info_after(info, natives@),
        r.info.wf(),
        r.info.factor == info.factor,
        r.events@ == batch_events(info, natives@),
        r.close_requested == has_close_protocol(natives@),
{
    let ghost ns = natives@;
    let mut events: Vec<Event> = Vec::new();
    let mut cur: WindowInfo = info;
    let mut close_requested: bool = false;
    let mut i: usize = 0;
    while i < natives.len()
        invariant
            i <= ns.len(),
            natives@ == ns,
            info.wf(),
            cur == info_after(info, ns.take(i as int)),
            cur.factor == info.factor,
            cur.wf(),
            events@ == resize_events(info, ns.take(i as int)),
            close_requested == has_close_protocol(ns.take(i as int)),
        decreases ns.len() - i,
    {
        let n = natives[i];
        proof {
            assert(ns.take(i + 1 as int).drop_last() =~= ns.take(i as int));
            assert(ns.take(i + 1 as int).last() == ns[i as int]);
        }
        match n {
            NativeEvent::Configure { width, height } => {
                cur = WindowInfo::from_physical_size(PhySize::new(width, height), cur.factor);
                events.push(Event::Window(WindowEvent::Resized(cur)));
            },
            NativeEvent::CloseProtocol => {
                close_requested = true;
            },
            _ => {},
        }
        i += 1;
    }
    proof {
        assert(ns.take(ns.len() as int) =~= ns);
    }
    let ghost final_info = info_after(info, ns);
    let mut j: usize = 0;
    while j < natives.len()
        invariant
            j <= ns.len(),
            natives@ == ns,
            cur == final_info,
            cur.wf(),
            events@ == resize_events(info, ns) + other_events(ns.take(j as int), final_info),
        decreases ns.len() - j,
    {
        let n = natives[j];
        proof {
            assert(ns.take(j + 1 as int).drop_last() =~= ns.take(j as int));
            assert(ns.take(j + 1 as int).last() == ns[j as int]);
        }
        let is_configure = match n {
            NativeEvent::Configure { .. } => true,
            _ => false,
        };
        if !is_configure {
            match translate(n, &cur) {
                Some(e) => {
                    events.push(e);
                },
                None => {},
            }
        }
        j += 1;
    }
    proof {
        assert(ns.take(ns.len() as int) =~= ns);
    }
    BatchPlan { events, info: cur, close_requested }
}

} // verus!
