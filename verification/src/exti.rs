use vstd::prelude::*;

verus! {

/// Capacity of the channel that carries key events from the key tasks to
/// the main loop.
pub const CHANNEL_CAPACITY: usize = 64;

/// Number of key tasks: one per key.
pub const KEY_TASK_POOL_SIZE: usize = 4;

/// A key press reported by one of the four key tasks.
#[derive(Clone, Copy, Debug, PartialEq, Eq, Structural)]
pub enum KeyEvent {
    Up,
    Key1,
    Key2,
    Key3,
}

impl KeyEvent {
    /// The line the main loop logs for the event.
    pub fn label(&self) -> (r: &'static str)
        ensures
            r@ == (match *self {
                KeyEvent::Up => "Up"@,
                KeyEvent::Key1 => "Key1"@,
                KeyEvent::Key2 => "Key2"@,
                KeyEvent::Key3 => "Key3"@,
            }),
    {
        match self {
            KeyEvent::Up => "Up",
            KeyEvent::Key1 => "Key1",
            KeyEvent::Key2 => "Key2",
            KeyEvent::Key3 => "Key3",
        }
    }
}

/// A key task: it waits for a falling edge on its key and then sends its
/// event into the channel, forever.
pub struct KeyTask {
    key_event: KeyEvent,
}

impl KeyTask {
    /// The event sent after each falling edge of the key.
    pub closed spec fn event(&self) -> KeyEvent {
        self.key_event
    }

    /// A task for the key that reports `key_event`.
    pub fn new(key_event: KeyEvent) -> (r: Self)
        ensures
            r.event() == key_event,
    {
        KeyTask { key_event }
    }

    /// The event to send after a falling edge of the key.
    pub fn on_falling_edge(&self) -> (r: KeyEvent)
        ensures
            r == self.event(),
    {
        self.key_event
    }
}

/// The edge an interrupt-driven key is waited on for next.
#[derive(Clone, Copy, Debug, PartialEq, Eq, Structural)]
pub enum AwaitedEdge {
    Rising,
    Falling,
}

/// What a seen edge means.
#[derive(Clone, Copy, Debug, PartialEq, Eq, Structural)]
pub enum KeyTransition {
    Pressed,
    Released,
}

/// The edge awaited after `e` has come.
pub open spec fn next_awaited(e: AwaitedEdge) -> AwaitedEdge {
    match e {
        AwaitedEdge::Rising => AwaitedEdge::Falling,
        AwaitedEdge::Falling => AwaitedEdge::Rising,
    }
}

/// What edge `e` reports: a rising edge is a press, a falling one a release.
pub open spec fn transition_of(e: AwaitedEdge) -> KeyTransition {
    match e {
        AwaitedEdge::Rising => KeyTransition::Pressed,
        AwaitedEdge::Falling => KeyTransition::Released,
    }
}

/// Presses and releases alternate: two edges bring the monitor back to the
/// edge it awaited, and two consecutive edges report different transitions.
pub proof fn law_press_release_alternate(e: AwaitedEdge)
    ensures
        next_awaited(next_awaited(e)) == e,
        transition_of(e) != transition_of(next_awaited(e)),
{
}

/// Watches one interrupt-driven key: it waits for a rising edge, reports a
/// press, waits for a falling edge, reports a release, and so on.
pub struct EdgeMonitor {
    awaited: AwaitedEdge,
}

impl EdgeMonitor {
    /// The edge the monitor waits for next.
    pub closed spec fn awaited_spec(&self) -> AwaitedEdge {
        self.awaited
    }

    /// A monitor that first waits for a rising edge.
    pub fn new() -> (r: Self)
        ensures
            r.awaited_spec() == AwaitedEdge::Rising,
    {
        EdgeMonitor { awaited: AwaitedEdge::Rising }
    }

    /// The edge to wait for next.
    pub fn awaited(&self) -> (r: AwaitedEdge)
        ensures
            r == self.awaited_spec(),
    {
        self.awaited
    }

    /// The awaited edge has come: a rising edge is a press, a falling edge a
    /// release, and the other edge is awaited next.
    pub fn on_edge(&mut self) -> (r: KeyTransition)
        ensures
            r == transition_of(old(self).awaited_spec()),
            final(self).awaited_spec() == next_awaited(old(self).awaited_spec()),
    {
        match self.awaited {
            AwaitedEdge::Rising => {
                self.awaited = AwaitedEdge::Falling;
                KeyTransition::Pressed
            },
            AwaitedEdge::Falling => {
                self.awaited = AwaitedEdge::Rising;
                KeyTransition::Released
            },
        }
    }
}

} // verus!
