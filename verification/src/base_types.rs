use vstd::prelude::*;

use crate::surface::{DrawCommand, Surface};
use crate::utils::TextStore;

verus! {

/// Non input-related events.
#[derive(Copy, Clone, PartialEq, Eq, Structural, Debug)]
pub enum FormAction {
    Init,
    AdvanceFocus,
    Exit,
}

/// A raw input token from the terminal driver, reduced to the values the
/// components read: the character typed, a backspace key, or a mouse click
/// with its absolute column `x` and row `y`. Anything else arrives as `Other`.
#[derive(Copy, Clone, PartialEq, Eq, Structural, Debug)]
pub enum InputToken {
    Character(char),
    Backspace,
    Mouse { x: i32, y: i32 },
    Other,
}

/// Represents events that occur within the UI.
#[derive(Copy, Clone, PartialEq, Eq, Structural, Debug)]
pub enum EventDetail {
    InputEvent(InputToken),
    ActionEvent(FormAction),
}

/// Represents an event in progress.
#[derive(Copy, Clone, PartialEq, Eq, Structural, Debug)]
pub struct Event {
    /// The event that occurred.
    pub detail: EventDetail,
    /// Whether a component has "handled" the event.
    /// The event is always passed to all components. This flag is meant to
    /// signal to other components, not to stop propagation.
    pub handled: bool,
}

/// Ordered storage for events generated mid-dispatch, awaiting a drain pass.
///
/// Removal order is last-in-first-out: within one drain pass, events generated
/// by a dispatch are processed in reverse of generation order. Components must
/// not assume first-in-first-out ordering.
pub struct EventQueue {
    event_queue: Vec<Event>,
}

impl View for EventQueue {
    type V = Seq<Event>;

    closed spec fn view(&self) -> Seq<Event> {
        self.event_queue@
    }
}

impl EventQueue {
    /// Creates an empty queue.
    pub fn new() -> (q: EventQueue)
        ensures
            q@ == Seq::<Event>::empty(),
    {
        EventQueue { event_queue: Vec::new() }
    }

    /// Adds an event to the end of the queue, not yet handled.
    pub fn dispatch_event(&mut self, event: EventDetail)
        ensures
            final(self)@ == old(self)@.push(Event { detail: event, handled: false }),
    {
        self.event_queue.push(Event { detail: event, handled: false });
    }

    /// Removes and returns the most recently added event. Returns None if
    /// the queue is empty; that is the normal end-of-drain signal, not an
    /// error.
    pub fn pop(&mut self) -> (r: Option<Event>)
        ensures
            old(self)@.len() == 0 ==> r is None && final(self)@ == old(self)@,
            old(self)@.len() > 0 ==> r == Some(old(self)@.last()) && final(self)@ == old(
                self,
            )@.drop_last(),
    {
        self.event_queue.pop()
    }

    /// How many events are pending.
    pub fn len(&self) -> (n: usize)
        ensures
            n == self@.len(),
    {
        self.event_queue.len()
    }
}

/// Removal order law: after adding `a`, then `b`, then `c`, removal yields
/// `c` first, then `b`, then `a`, and then the queue is as it started.
pub proof fn lemma_event_queue_lifo(q0: Seq<Event>, a: Event, b: Event, c: Event)
    ensures
        ({
            let q3 = q0.push(a).push(b).push(c);
            &&& q3.len() > 0 && q3.last() == c
            &&& q3.drop_last().len() > 0 && q3.drop_last().last() == b
            &&& q3.drop_last().drop_last().len() > 0 && q3.drop_last().drop_last().last() == a
            &&& q3.drop_last().drop_last().drop_last() == q0
        }),
{
    let q3 = q0.push(a).push(b).push(c);
    assert(q3.drop_last() =~= q0.push(a).push(b));
    assert(q3.drop_last().drop_last() =~= q0.push(a));
    assert(q3.drop_last().drop_last().drop_last() =~= q0);
}

/// The capability set every widget implements; the thing the form
/// polymorphizes over. Each implementation pins its behaviour down in the
/// four spec functions, which the corresponding methods are proved to
/// satisfy.
pub trait Component: Sized {
    /// Exact relation between the values before and after `on_event`: the
    /// component itself, the event (whose `handled` flag it may set), the
    /// queue it may add follow-up events to, and the text cells it may write.
    spec fn on_event_spec(
        pre: Self,
        post: Self,
        pre_event: Event,
        post_event: Event,
        pre_queue: Seq<Event>,
        post_queue: Seq<Event>,
        pre_cells: Seq<Seq<char>>,
        post_cells: Seq<Seq<char>>,
    ) -> bool;

    /// Exact relation between the values before and after `on_gained_focus`,
    /// and whether focus was accepted.
    spec fn gained_focus_spec(pre: Self, post: Self, accepted: bool) -> bool;

    /// Exact relation between the values before and after `on_lost_focus`.
    spec fn lost_focus_spec(pre: Self, post: Self) -> bool;

    /// Exact relation between the draw commands pending before and after
    /// `draw`, given the component and the text cells it reads.
    spec fn draw_spec(
        c: Self,
        cells: Seq<Seq<char>>,
        pre_commands: Seq<DrawCommand>,
        post_commands: Seq<DrawCommand>,
    ) -> bool;

    /// Called for all components in scope for every event that occurs,
    /// regardless of any other component's prior `handled` value: there is no
    /// short-circuiting, so several components may react to one event
    /// independently.
    fn on_event(&mut self, event: &mut Event, event_queue: &mut EventQueue, store: &mut TextStore)
        ensures
            Self::on_event_spec(
                *old(self),
                *final(self),
                *old(event),
                *final(event),
                old(event_queue)@,
                final(event_queue)@,
                old(store)@,
                final(store)@,
            ),
    ;

    /// Called when focus is given by the form.
    /// Returns true iff the component actually takes focus.
    fn on_gained_focus(&mut self) -> (accepted: bool)
        ensures
            Self::gained_focus_spec(*old(self), *final(self), accepted),
    ;

    /// Called when focus is removed from the component by the form.
    fn on_lost_focus(&mut self)
        ensures
            Self::lost_focus_spec(*old(self), *final(self)),
    ;

    /// Called once per frame, in tab order, strictly after input and queue
    /// processing, to let the component describe its current state. Takes the
    /// component immutably: drawing cannot mutate state.
    fn draw(&self, surface: &mut Surface, store: &TextStore)
        ensures
            Self::draw_spec(*self, store@, old(surface)@, final(surface)@),
    ;
}

} // verus!
