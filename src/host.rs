use vstd::prelude::*;
use crate::renderer::Renderer;

verus! {

/// The keys the host tells apart.
#[derive(Clone, Copy, Debug, PartialEq, Eq, Structural)]
pub enum Key {
    Escape,
    Other,
}

/// An event addressed to the window.
#[derive(Clone, Copy, Debug, PartialEq, Eq, Structural)]
pub enum WindowEvent {
    CloseRequested,
    /// A key changed state; `key` is absent where the key has no known code.
    KeyboardInput { pressed: bool, key: Option<Key> },
    /// The window's inner size changed, in physical pixels.
    Resized { width: u32, height: u32 },
    /// The display's scale factor changed, giving the window this inner size.
    ScaleFactorChanged { width: u32, height: u32 },
    Other,
}

/// An event delivered by the event loop.
#[derive(Clone, Copy, Debug, PartialEq, Eq, Structural)]
pub enum Event {
    RedrawRequested,
    /// A window event, with whether it concerns the renderer's own window.
    Window { own_window: bool, event: WindowEvent },
    Other,
}

/// What the host does in answer to an event.
#[derive(Clone, Copy, Debug, PartialEq, Eq, Structural)]
pub enum Action {
    /// Nothing; wait for the next event.
    Wait,
    /// Update the renderer, then render a frame.
    Redraw,
    /// Resize the renderer's surface to the given size.
    Resize { width: u32, height: u32 },
    /// Leave the event loop.
    Exit,
}

/// The host's own policy for a window event that the renderer left alone.
pub open spec fn window_policy(e: WindowEvent) -> Action {
    match e {
        WindowEvent::CloseRequested => Action::Exit,
        WindowEvent::KeyboardInput { pressed, key } => {
            if pressed && key == Some(Key::Escape) {
                Action::Exit
            } else {
                Action::Wait
            }
        },
        WindowEvent::Resized { width, height } => Action::Resize { width, height },
        WindowEvent::ScaleFactorChanged { width, height } => Action::Resize { width, height },
        WindowEvent::Other => Action::Wait,
    }
}

/// The host's answer to an event, given whether the renderer handled it.
pub open spec fn host_action(e: Event, handled: bool) -> Action {
    match e {
        Event::RedrawRequested => Action::Redraw,
        Event::Window { own_window, event } => {
            if own_window && !handled {
                window_policy(event)
            } else {
                Action::Wait
            }
        },
        Event::Other => Action::Wait,
    }
}

/// Decides what to do about a window event that the renderer did not handle.
pub fn window_action(e: &WindowEvent) -> (r: Action)
    ensures
        r == window_policy(*e),
{
    match *e {
        WindowEvent::CloseRequested => Action::Exit,
        WindowEvent::KeyboardInput { pressed, key } => {
            if pressed && matches!(key, Some(Key::Escape)) {
                Action::Exit
            } else {
                Action::Wait
            }
        },
        WindowEvent::Resized { width, height } => Action::Resize { width, height },
        WindowEvent::ScaleFactorChanged { width, height } => Action::Resize { width, height },
        WindowEvent::Other => Action::Wait,
    }
}

/// Handles one event of the loop: a window event of the renderer's own window
/// is offered to the renderer first, and the host's policy applies to it only
/// where the renderer did not handle it.
pub fn handle_event(renderer: &mut Renderer, event: &Event) -> (r: Action)
    ensures
        *final(renderer) == *old(renderer),
        r == host_action(*event, false),
{
    match *event {
        Event::RedrawRequested => Action::Redraw,
        Event::Window { own_window, event: e } => {
            if own_window {
                if renderer.input(&e) {
                    Action::Wait
                } else {
                    window_action(&e)
                }
            } else {
                Action::Wait
            }
        },
        Event::Other => Action::Wait,
    }
}

/// Whether the loop stops after this action.
pub fn exits(a: &Action) -> (r: bool)
    ensures
        r <==> *a == Action::Exit,
{
    matches!(*a, Action::Exit)
}

/// The loop ends on exactly two events of the renderer's own window that the
/// renderer leaves alone: a close request, and a press of Escape.
pub proof fn lemma_exit_events(e: Event)
    ensures
        host_action(e, false) == Action::Exit <==> (e == Event::Window {
            own_window: true,
            event: WindowEvent::CloseRequested,
        } || e == Event::Window {
            own_window: true,
            event: WindowEvent::KeyboardInput { pressed: true, key: Some(Key::Escape) },
        }),
{
}

} // verus!
