use vstd::prelude::*;

verus! {

/// The hover state of a menu button: whether the mouse is over it, and
/// whether its entering the button has been reported already.
#[derive(Debug, Clone, Copy, PartialEq, Eq, Structural)]
pub struct Button {
    mouse_inside: bool,
    mouse_enter_event_ack: bool,
}

impl Button {
    /// Whether the mouse was over the button at the last update.
    pub closed spec fn spec_mouse_inside(self) -> bool {
        self.mouse_inside
    }

    /// Whether the mouse's current stay over the button has been reported.
    pub closed spec fn spec_acknowledged(self) -> bool {
        self.mouse_enter_event_ack
    }

    /// The state after an update with the mouse over the button or not: an
    /// entry (outside before, inside now) re-arms the entry event.
    pub closed spec fn spec_updated(self, mouse_inside: bool) -> Button {
        Button {
            mouse_inside,
            mouse_enter_event_ack: if !self.mouse_inside && mouse_inside {
                false
            } else {
                self.mouse_enter_event_ack
            },
        }
    }

    /// Whether asking for the entry event now reports one.
    pub open spec fn spec_enter_event(self) -> bool {
        self.spec_mouse_inside() && !self.spec_acknowledged()
    }

    /// The state after asking for the entry event: a reported entry is
    /// acknowledged.
    pub closed spec fn spec_reported(self) -> Button {
        Button {
            mouse_inside: self.mouse_inside,
            mouse_enter_event_ack: self.mouse_enter_event_ack || self.spec_enter_event(),
        }
    }

    pub fn new() -> (r: Button)
        ensures
            !r.spec_mouse_inside(),
            !r.spec_acknowledged(),
    {
        Button { mouse_inside: false, mouse_enter_event_ack: false }
    }

    /// Records whether the mouse is over the button now.
    pub fn update(&mut self, mouse_inside: bool)
        ensures
            *final(self) == old(self).spec_updated(mouse_inside),
            final(self).spec_mouse_inside() == mouse_inside,
            final(self).spec_acknowledged() == (if !old(self).spec_mouse_inside() && mouse_inside {
                false
            } else {
                old(self).spec_acknowledged()
            }),
    {
        if !self.mouse_inside && mouse_inside {
            self.mouse_enter_event_ack = false;
        }
        self.mouse_inside = mouse_inside;
    }

    /// Reports, once per stay of the mouse over the button, that the mouse
    /// entered it.
    pub fn did_mouse_enter(&mut self) -> (r: bool)
        ensures
            r == old(self).spec_enter_event(),
            r == (old(self).spec_mouse_inside() && !old(self).spec_acknowledged()),
            *final(self) == old(self).spec_reported(),
            final(self).spec_mouse_inside() == old(self).spec_mouse_inside(),
            final(self).spec_acknowledged() == (old(self).spec_acknowledged() || old(self).spec_mouse_inside()),
    {
        if self.mouse_inside && !self.mouse_enter_event_ack {
            self.mouse_enter_event_ack = true;
            true
        } else {
            false
        }
    }

    pub fn is_mouse_inside(&self) -> (r: bool)
        ensures
            r == self.spec_mouse_inside(),
    {
        self.mouse_inside
    }
}

/// The two transitions of the hover state: an update records where the
/// mouse is and re-arms the entry event exactly when the mouse moves from
/// outside to inside; asking for the entry event keeps where the mouse is and
/// acknowledges the stay whenever the mouse is inside.
pub proof fn lemma_transitions(b: Button, mouse_inside: bool)
    ensures
        b.spec_updated(mouse_inside).spec_mouse_inside() == mouse_inside,
        b.spec_updated(mouse_inside).spec_acknowledged() == (if !b.spec_mouse_inside() && mouse_inside {
            false
        } else {
            b.spec_acknowledged()
        }),
        b.spec_reported().spec_mouse_inside() == b.spec_mouse_inside(),
        b.spec_reported().spec_acknowledged() == (b.spec_acknowledged() || b.spec_mouse_inside()),
{
}

/// The entry event fires once per stay of the mouse: once reported it is not
/// pending any more, updates that keep the mouse over the button do not
/// re-arm it, no event is pending while the mouse is away, and leaving and
/// coming back re-arms it.
pub proof fn lemma_enter_event_once(b: Button)
    ensures
        !b.spec_reported().spec_enter_event(),
        b.spec_mouse_inside() && !b.spec_enter_event() ==> !b.spec_updated(true).spec_enter_event(),
        !b.spec_updated(false).spec_enter_event(),
        b.spec_updated(false).spec_updated(true).spec_enter_event(),
        b.spec_updated(true).spec_mouse_inside() && !b.spec_updated(false).spec_mouse_inside(),
{
}

} // verus!
