use vstd::prelude::*;

use crate::base_types::{Component, Event, EventDetail, EventQueue, FormAction, InputToken};
use crate::surface::{DrawCommand, Surface};
use crate::utils::TextStore;

verus! {

/// One call the focus traversal made, in the order it was made: `Lost(i)` is
/// a call of `on_lost_focus` on the component at index `i`; `Gained(i, a)` is
/// a call of `on_gained_focus` on the component at index `i` that returned
/// `a`.
pub enum FocusCall {
    Lost(int),
    Gained(int, bool),
}

/// Where a traversal starts scanning: just after the component that held
/// focus, or at index 0 when none did.
pub open spec fn scan_start(focus_index: Option<usize>) -> int {
    match focus_index {
        Some(j) => j + 1,
        None => 0,
    }
}

/// The index visited at step `k` of a scan that starts at `start` over `n`
/// components: forward from `start`, wrapping around to index 0 at `n`.
pub open spec fn scan_position(start: int, n: int, k: int) -> int {
    if start + k < n {
        start + k
    } else {
        start + k - n
    }
}

/// The `on_lost_focus` calls a traversal makes before anything else: exactly
/// one, on the previously focused component, or none when focus was empty.
pub open spec fn lost_calls(focus_index: Option<usize>) -> Seq<FocusCall> {
    match focus_index {
        Some(j) => seq![FocusCall::Lost(j as int)],
        None => Seq::<FocusCall>::empty(),
    }
}

/// `calls` is a prefix of a focus scan from `start` over `n` components:
/// every call asks acceptance of the next candidate in scan order, every
/// candidate but possibly the last declined, and the scan wraps around at
/// most once — never more than `n` acceptance calls.
pub open spec fn is_focus_scan(calls: Seq<FocusCall>, start: int, n: int) -> bool {
    &&& calls.len() <= n
    &&& forall|k: int|
        0 <= k < calls.len() ==> ((#[trigger] calls[k]) matches FocusCall::Gained(idx, accepted)
            && idx == scan_position(start, n, k) && (k < calls.len() - 1 ==> !accepted))
}

/// One intermediate state of a dispatch pass: the event as it stands, the
/// pending events, and the text cells.
pub type DispatchStage = (Event, Seq<Event>, Seq<Seq<char>>);

/// Whether a scan from `start` of `len` steps over `n` components visits the
/// component at `idx`.
pub open spec fn scanned(start: int, n: int, len: int, idx: int) -> bool {
    exists|k: int| 0 <= k < len && #[trigger] scan_position(start, n, k) == idx
}

/// A scan of `len` steps from `start` over `n` components visits exactly
/// the `len` indices that follow `start`, wrapping around at `n`.
pub proof fn lemma_scanned_range(start: int, n: int, len: int, idx: int)
    requires
        0 <= start <= n,
        0 <= len <= n,
        0 <= idx < n,
    ensures
        scanned(start, n, len, idx) <==> (start <= idx < start + len || idx < start + len - n),
{
    if start <= idx < start + len {
        assert(scan_position(start, n, idx - start) == idx);
        assert(scanned(start, n, len, idx));
    }
    if 0 <= idx < start + len - n {
        assert(scan_position(start, n, idx + n - start) == idx);
        assert(scanned(start, n, len, idx));
    }
    if scanned(start, n, len, idx) {
        let k = choose|k: int| 0 <= k < len && #[trigger] scan_position(start, n, k) == idx;
        assert(start <= idx < start + len || idx < start + len - n);
    }
}

/// The answer the acceptance call at step `k` of `calls` got.
pub open spec fn gained_accepted(calls: Seq<FocusCall>, k: int) -> bool {
    match calls[k] {
        FocusCall::Gained(idx, accepted) => accepted,
        FocusCall::Lost(idx) => false,
    }
}

/// The complete relation of one focus traversal, from the components and
/// focus cursor it started with (`comps0`, `focus0`) to those it left behind
/// (`comps1`, `focus1`), with `calls` the calls it made in order.
///
/// The previously focused component is told first, and exactly once, that it
/// lost focus. Then the scan asks one candidate after the other, in scan
/// order from the entry after the previous holder, each candidate in the
/// state the traversal found it in (the previous holder, reached last after
/// a full wrap, in the state its lost-focus call left it). Every candidate
/// but possibly the last declined; the cursor ends on the last candidate
/// exactly when it accepted, and empty when a full wrap found no acceptor.
/// Components the traversal never touched keep their state.
pub open spec fn focus_traversal_spec<C: Component>(
    comps0: Seq<C>,
    focus0: Option<usize>,
    comps1: Seq<C>,
    focus1: Option<usize>,
    calls: Seq<FocusCall>,
) -> bool {
    let n = comps0.len() as int;
    let start = scan_start(focus0);
    let prev: int = match focus0 {
        Some(j) => j as int,
        None => -1,
    };
    let lost = lost_calls(focus0);
    let gained = calls.skip(lost.len() as int);
    &&& comps1.len() == n
    &&& calls == lost + gained
    &&& is_focus_scan(gained, start, n)
    &&& match focus1 {
        Some(f) => gained.len() >= 1 && gained.last() == FocusCall::Gained(f as int, true),
        None => gained.len() == n && all_declined(gained),
    }
    &&& forall|idx: int|
        0 <= idx < n && idx != prev && !scanned(start, n, gained.len() as int, idx)
            ==> #[trigger] comps1[idx] == comps0[idx]
    &&& forall|k: int|
        0 <= k < gained.len() && #[trigger] scan_position(start, n, k) != prev
            ==> C::gained_focus_spec(
            comps0[scan_position(start, n, k)],
            comps1[scan_position(start, n, k)],
            gained_accepted(gained, k),
        )
    &&& match focus0 {
        Some(j) => if gained.len() == n && n >= 1 {
            exists|between: C|
                C::lost_focus_spec(comps0[j as int], between) && #[trigger] C::gained_focus_spec(
                    between,
                    comps1[j as int],
                    gained_accepted(gained, n - 1),
                )
        } else {
            C::lost_focus_spec(comps0[j as int], comps1[j as int])
        },
        None => true,
    }
}

/// Every acceptance call in `calls` was declined.
pub open spec fn all_declined(calls: Seq<FocusCall>) -> bool {
    forall|k: int|
        0 <= k < calls.len() ==> ((#[trigger] calls[k]) matches FocusCall::Gained(idx, accepted)
            && !accepted)
}

/// Manages a set of components: owns the tab-ordered component list, the
/// event queue and the focus cursor, and advances them one frame at a time.
///
/// The blocking terminal loop lives with whatever owns the terminal: per
/// iteration it calls [`Form::draw_frame`], paints the surface, blocks for
/// one raw input token, hands the token to [`Form::process_input`], steps
/// [`Form::drain_step`] until the queue is empty, and stops once
/// [`Form::terminated`] was set by a drained Exit event.
pub struct Form<C: Component> {
    /// The components, in tab order: add order, fixed at add time.
    pub components: Vec<C>,
    /// Events generated mid-dispatch, awaiting the drain pass of the frame.
    pub event_queue: EventQueue,
    /// The index of the component holding focus, if any.
    pub focus_index: Option<usize>,
    /// Set by a drained Exit event; the frame in progress still completes.
    pub terminated: bool,
}

impl<C: Component> Form<C> {
    /// A non-empty focus cursor names a component of the list.
    pub open spec fn wf(&self) -> bool {
        match self.focus_index {
            Some(j) => j < self.components@.len(),
            None => true,
        }
    }

    /// Creates an empty form: no components, an empty queue, no focus
    /// holder, and the terminate flag clear.
    pub fn new() -> (form: Form<C>)
        ensures
            form.components@ == Seq::<C>::empty(),
            form.event_queue@ == Seq::<Event>::empty(),
            form.focus_index is None,
            !form.terminated,
            form.wf(),
    {
        Form { components: Vec::new(), event_queue: EventQueue::new(), focus_index: None, terminated: false }
    }

    /// Given a foreground and background color, get the color pair index:
    /// the palette pairs the eight base colors in all combinations, with
    /// foreground `f` on background `b` at index `f * 8 + b`.
    pub fn color_index(foreground: i16, background: i16) -> (index: i16)
        requires
            0 <= foreground < 8,
            0 <= background < 8,
        ensures
            index == foreground * 8 + background,
            0 <= index < 64,
    {
        foreground * 8 + background
    }

    /// Adds a component to the list. Tab order is deduced from add order;
    /// components are never removed.
    pub fn push_component(&mut self, component: C)
        requires
            old(self).wf(),
        ensures
            final(self).wf(),
            final(self).components@ == old(self).components@.push(component),
            final(self).event_queue == old(self).event_queue,
            final(self).focus_index == old(self).focus_index,
            final(self).terminated == old(self).terminated,
    {
        self.components.push(component);
    }

    /// Moves focus to the next accepting component.
    ///
    /// First the previously focused component, if any, is told it lost focus.
    /// Then the components are scanned forward in tab order from the entry
    /// after it (from index 0 when none held focus), wrapping around at most
    /// once, asking each candidate in turn until one accepts; the first
    /// acceptor in scan order wins. When the full wrap finds no acceptor the
    /// focus cursor is cleared.
    ///
    /// Returns the calls made, in order: the lost-focus call strictly before
    /// any acceptance call, then one acceptance call per scanned candidate.
    /// The whole of what happened — which components were asked, in which
    /// states, and that untouched components kept theirs — is pinned down by
    /// [`focus_traversal_spec`].
    pub fn advance_focus(&mut self) -> (calls: Ghost<Seq<FocusCall>>)
        requires
            old(self).wf(),
        ensures
            final(self).wf(),
            final(self).event_queue == old(self).event_queue,
            final(self).terminated == old(self).terminated,
            focus_traversal_spec(
                old(self).components@,
                old(self).focus_index,
                final(self).components@,
                final(self).focus_index,
                calls@,
            ),
    {
        let ghost comps0: Seq<C> = old(self).components@;
        let ghost lost: Seq<FocusCall> = lost_calls(old(self).focus_index);
        let ghost mut gained: Seq<FocusCall> = Seq::<FocusCall>::empty();

        let n = self.components.len();

        let start_at: usize = match self.focus_index {
            Some(index) => {
                self.components[index].on_lost_focus();
                index + 1
            },
            None => 0,
        };
        let ghost prev: int = start_at - 1;

        let mut i: usize = start_at;
        while i < n
            invariant
                n == self.components@.len(),
                comps0 == old(self).components@,
                n == comps0.len(),
                start_at == scan_start(old(self).focus_index),
                lost == lost_calls(old(self).focus_index),
                prev == start_at - 1,
                old(self).focus_index is None <==> start_at == 0,
                start_at <= i <= n,
                self.event_queue == old(self).event_queue,
                self.terminated == old(self).terminated,
                gained.len() == i - start_at,
                is_focus_scan(gained, start_at as int, n as int),
                all_declined(gained),
                forall|idx: int|
                    0 <= idx < n && idx != prev && !(start_at <= idx < i)
                        ==> #[trigger] self.components@[idx] == comps0[idx],
                forall|k: int|
                    0 <= k < gained.len() ==> C::gained_focus_spec(
                        comps0[#[trigger] scan_position(start_at as int, n as int, k)],
                        self.components@[scan_position(start_at as int, n as int, k)],
                        gained_accepted(gained, k),
                    ),
                (match old(self).focus_index {
                    Some(pj) => C::lost_focus_spec(
                        comps0[pj as int],
                        self.components@[pj as int],
                    ),
                    None => true,
                }),
            decreases n - i,
        {
            let accepted = self.components[i].on_gained_focus();
            if accepted {
                self.focus_index = Some(i);
                proof {
                    gained = gained.push(FocusCall::Gained(i as int, true));
                    assert((lost + gained).skip(lost.len() as int) =~= gained);
                    assert forall|idx: int|
                        0 <= idx < n && idx != prev && !scanned(
                            start_at as int,
                            n as int,
                            gained.len() as int,
                            idx,
                        ) implies #[trigger] self.components@[idx] == comps0[idx] by {
                        lemma_scanned_range(
                            start_at as int,
                            n as int,
                            gained.len() as int,
                            idx,
                        );
                    }
                }
                return Ghost(lost + gained);
            }
            proof {
                gained = gained.push(FocusCall::Gained(i as int, false));
            }
            i += 1;
        }

        let mut j: usize = 0;
        while j < start_at
            invariant
                n == self.components@.len(),
                comps0 == old(self).components@,
                n == comps0.len(),
                start_at == scan_start(old(self).focus_index),
                lost == lost_calls(old(self).focus_index),
                prev == start_at - 1,
                old(self).focus_index is None <==> start_at == 0,
                start_at <= n,
                j <= start_at,
                self.event_queue == old(self).event_queue,
                self.terminated == old(self).terminated,
                gained.len() == (n - start_at) + j,
                is_focus_scan(gained, start_at as int, n as int),
                all_declined(gained),
                forall|idx: int|
                    j <= idx < start_at && idx != prev ==> #[trigger] self.components@[idx]
                        == comps0[idx],
                forall|k: int|
                    0 <= k < gained.len() && #[trigger] scan_position(start_at as int, n as int, k)
                        != prev ==> C::gained_focus_spec(
                        comps0[scan_position(start_at as int, n as int, k)],
                        self.components@[scan_position(start_at as int, n as int, k)],
                        gained_accepted(gained, k),
                    ),
                (match old(self).focus_index {
                    Some(pj) => if j <= prev {
                        C::lost_focus_spec(comps0[pj as int], self.components@[pj as int])
                    } else {
                        exists|between: C|
                            C::lost_focus_spec(comps0[pj as int], between)
                                && #[trigger] C::gained_focus_spec(
                                between,
                                self.components@[pj as int],
                                gained_accepted(gained, n - 1),
                            )
                    },
                    None => true,
                }),
            decreases start_at - j,
        {
            let ghost before: C = self.components@[j as int];
            let accepted = self.components[j].on_gained_focus();
            if accepted {
                self.focus_index = Some(j);
                proof {
                    gained = gained.push(FocusCall::Gained(j as int, true));
                    assert((lost + gained).skip(lost.len() as int) =~= gained);
                    assert(scan_position(start_at as int, n as int, gained.len() - 1) == j as int);
                    if j as int == prev {
                        assert(gained.len() == n);
                        assert(gained_accepted(gained, n as int - 1));
                        assert(C::lost_focus_spec(comps0[prev], before));
                        assert(C::gained_focus_spec(
                            before,
                            self.components@[prev],
                            gained_accepted(gained, n as int - 1),
                        ));
                    }
                    assert forall|idx: int|
                        0 <= idx < n && idx != prev && !scanned(
                            start_at as int,
                            n as int,
                            gained.len() as int,
                            idx,
                        ) implies #[trigger] self.components@[idx] == comps0[idx] by {
                        lemma_scanned_range(
                            start_at as int,
                            n as int,
                            gained.len() as int,
                            idx,
                        );
                    }
                }
                return Ghost(lost + gained);
            }
            proof {
                gained = gained.push(FocusCall::Gained(j as int, false));
                assert(scan_position(start_at as int, n as int, gained.len() - 1) == j as int);
                if j as int == prev {
                    assert(gained.len() == n);
                    assert(!gained_accepted(gained, n as int - 1));
                    assert(C::lost_focus_spec(comps0[prev], before));
                    assert(C::gained_focus_spec(
                        before,
                        self.components@[prev],
                        gained_accepted(gained, n as int - 1),
                    ));
                }
            }
            j += 1;
        }

        self.focus_index = None;
        proof {
            assert((lost + gained).skip(lost.len() as int) =~= gained);
            assert forall|idx: int|
                0 <= idx < n && idx != prev && !scanned(
                    start_at as int,
                    n as int,
                    gained.len() as int,
                    idx,
                ) implies #[trigger] self.components@[idx] == comps0[idx] by {
                lemma_scanned_range(start_at as int, n as int, gained.len() as int, idx);
            }
        }
        Ghost(lost + gained)
    }

    /// Dispatches one event to `on_event` of every component, in tab order,
    /// unconditionally: an earlier component setting `handled` does not stop
    /// a later component from seeing the event.
    ///
    /// Returns the chain of intermediate states: stage `i` holds the event,
    /// the queue and the text cells as the component at index `i` received
    /// them, and each component's step from its stage to the next is bound
    /// by its own `on_event` relation — so every component saw the event
    /// exactly once, in tab order, and nothing else touched it.
    pub fn dispatch_to_all(&mut self, event: &mut Event, store: &mut TextStore) -> (stages: Ghost<
        Seq<DispatchStage>,
    >)
        requires
            old(self).wf(),
        ensures
            final(self).wf(),
            final(self).components@.len() == old(self).components@.len(),
            final(self).focus_index == old(self).focus_index,
            final(self).terminated == old(self).terminated,
            ({
                let n = old(self).components@.len() as int;
                &&& stages@.len() == n + 1
                &&& stages@[0] == (*old(event), old(self).event_queue@, old(store)@)
                &&& stages@[n] == (*final(event), final(self).event_queue@, final(store)@)
                &&& forall|i: int|
                    0 <= i < n ==> C::on_event_spec(
                        old(self).components@[i],
                        final(self).components@[i],
                        (#[trigger] stages@[i]).0,
                        stages@[i + 1].0,
                        stages@[i].1,
                        stages@[i + 1].1,
                        stages@[i].2,
                        stages@[i + 1].2,
                    )
            }),
    {
        let ghost mut stages: Seq<DispatchStage> = seq![
            (*event, self.event_queue@, store@),
        ];
        let n = self.components.len();
        let mut i: usize = 0;
        while i < n
            invariant
                n == self.components@.len(),
                n == old(self).components@.len(),
                i <= n,
                self.focus_index == old(self).focus_index,
                self.terminated == old(self).terminated,
                stages.len() == i + 1,
                stages[0] == (*old(event), old(self).event_queue@, old(store)@),
                stages.last() == (*event, self.event_queue@, store@),
                forall|k: int| i <= k < n ==> self.components@[k] == old(self).components@[k],
                forall|k: int|
                    0 <= k < i ==> C::on_event_spec(
                        old(self).components@[k],
                        self.components@[k],
                        (#[trigger] stages[k]).0,
                        stages[k + 1].0,
                        stages[k].1,
                        stages[k + 1].1,
                        stages[k].2,
                        stages[k + 1].2,
                    ),
            decreases n - i,
        {
            self.components[i].on_event(event, &mut self.event_queue, store);
            proof {
                stages = stages.push((*event, self.event_queue@, store@));
            }
            i += 1;
        }
        Ghost(stages)
    }

    /// Wraps one raw input token as a fresh, unhandled input event and
    /// dispatches it to every component in tab order. Returns the dispatch
    /// chain, starting from the fresh event (see [`Form::dispatch_to_all`]).
    pub fn process_input(&mut self, token: InputToken, store: &mut TextStore) -> (stages: Ghost<
        Seq<DispatchStage>,
    >)
        requires
            old(self).wf(),
        ensures
            final(self).wf(),
            final(self).components@.len() == old(self).components@.len(),
            final(self).focus_index == old(self).focus_index,
            final(self).terminated == old(self).terminated,
            ({
                let n = old(self).components@.len() as int;
                &&& stages@.len() == n + 1
                &&& stages@[0] == (
                    Event { detail: EventDetail::InputEvent(token), handled: false },
                    old(self).event_queue@,
                    old(store)@,
                )
                &&& stages@[n].1 == final(self).event_queue@
                &&& stages@[n].2 == final(store)@
                &&& forall|i: int|
                    0 <= i < n ==> C::on_event_spec(
                        old(self).components@[i],
                        final(self).components@[i],
                        (#[trigger] stages@[i]).0,
                        stages@[i + 1].0,
                        stages@[i].1,
                        stages@[i + 1].1,
                        stages@[i].2,
                        stages@[i + 1].2,
                    )
            }),
    {
        let mut event = Event { detail: EventDetail::InputEvent(token), handled: false };
        self.dispatch_to_all(&mut event, store)
    }

    /// One step of the drain pass: removes the most recently added pending
    /// event, if any, and dispatches it to every component in tab order.
    /// Events added during the drain are seen by later steps of the same
    /// pass, permitting reaction chains. A drained Exit event sets the
    /// terminate flag (the frame in progress still completes); a drained
    /// AdvanceFocus event runs the focus traversal before the drain goes on.
    ///
    /// Returns the drained event as it stood after its dispatch — which is
    /// what the Exit and AdvanceFocus checks look at — or None when the
    /// queue was empty: the normal end-of-drain signal, not an error. The
    /// caller drains the queue by stepping until None; whether the chain of
    /// reactions ever stops feeding the queue is up to the components, so
    /// the pass as a whole is as unbounded as they make it.
    ///
    /// Also returns, as ghost records: the focus-traversal calls the step
    /// made (those of one traversal when an AdvanceFocus event was drained,
    /// none otherwise), the dispatch chain of the drained event (see
    /// [`Form::dispatch_to_all`]), and the components as the dispatch left
    /// them, before any traversal moved them on.
    pub fn drain_step(&mut self, store: &mut TextStore) -> ((drained, calls, stages, mid): (
        Option<Event>,
        Ghost<Seq<FocusCall>>,
        Ghost<Seq<DispatchStage>>,
        Ghost<Seq<C>>,
    ))
        requires
            old(self).wf(),
        ensures
            final(self).wf(),
            final(self).components@.len() == old(self).components@.len(),
            old(self).event_queue@.len() == 0 ==> drained is None
                && final(self).event_queue@ == old(self).event_queue@
                && final(self).components == old(self).components
                && final(self).focus_index == old(self).focus_index
                && final(self).terminated == old(self).terminated,
            old(self).event_queue@.len() > 0 ==> ({
                let n = old(self).components@.len() as int;
                &&& stages@.len() == n + 1
                &&& stages@[0] == (
                    old(self).event_queue@.last(),
                    old(self).event_queue@.drop_last(),
                    old(store)@,
                )
                &&& drained == Some(stages@[n].0)
                &&& stages@[n].2 == final(store)@
                &&& mid@.len() == n
                &&& forall|i: int|
                    0 <= i < n ==> C::on_event_spec(
                        old(self).components@[i],
                        mid@[i],
                        (#[trigger] stages@[i]).0,
                        stages@[i + 1].0,
                        stages@[i].1,
                        stages@[i + 1].1,
                        stages@[i].2,
                        stages@[i + 1].2,
                    )
                &&& ({
                    let e = stages@[n].0;
                    &&& final(self).terminated == (old(self).terminated || e.detail
                        == EventDetail::ActionEvent(FormAction::Exit))
                    &&& final(self).event_queue@ == stages@[n].1
                    &&& (e.detail != EventDetail::ActionEvent(FormAction::AdvanceFocus)
                        ==> final(self).components@ == mid@ && final(self).focus_index == old(
                        self,
                    ).focus_index && calls@.len() == 0)
                    &&& (e.detail == EventDetail::ActionEvent(FormAction::AdvanceFocus)
                        ==> focus_traversal_spec(
                        mid@,
                        old(self).focus_index,
                        final(self).components@,
                        final(self).focus_index,
                        calls@,
                    ))
                })
            }),
            drained is None ==> calls@.len() == 0,
    {
        match self.event_queue.pop() {
            Some(popped) => {
                let mut event = popped;
                let stages = self.dispatch_to_all(&mut event, store);
                let ghost mid: Seq<C> = self.components@;
                match event.detail {
                    EventDetail::ActionEvent(FormAction::Exit) => {
                        self.terminated = true;
                        (Some(event), Ghost(Seq::<FocusCall>::empty()), stages, Ghost(mid))
                    },
                    EventDetail::ActionEvent(FormAction::AdvanceFocus) => {
                        let calls = self.advance_focus();
                        (Some(event), calls, stages, Ghost(mid))
                    },
                    _ => {
                        (Some(event), Ghost(Seq::<FocusCall>::empty()), stages, Ghost(mid))
                    },
                }
            },
            None => {
                (
                    None,
                    Ghost(Seq::<FocusCall>::empty()),
                    Ghost(Seq::<DispatchStage>::empty()),
                    Ghost(Seq::<C>::empty()),
                )
            },
        }
    }

    /// Clears the surface, then calls `draw` on every component in tab
    /// order. Returns the intermediate command lists: stage 0 is the cleared
    /// surface, and stage `i + 1` is stage `i` extended by whatever the
    /// component at index `i` drew.
    pub fn draw_frame(&self, surface: &mut Surface, store: &TextStore) -> (stages: Ghost<
        Seq<Seq<DrawCommand>>,
    >)
        ensures
            stages@.len() == self.components@.len() + 1,
            stages@[0] == Seq::<DrawCommand>::empty(),
            final(surface)@ == stages@.last(),
            forall|i: int|
                0 <= i < self.components@.len() ==> C::draw_spec(
                    self.components@[i],
                    store@,
                    stages@[i],
                    stages@[i + 1],
                ),
    {
        surface.clear();
        let ghost mut stages: Seq<Seq<DrawCommand>> = seq![Seq::<DrawCommand>::empty()];
        let n = self.components.len();
        let mut i: usize = 0;
        while i < n
            invariant
                n == self.components@.len(),
                i <= n,
                stages.len() == i + 1,
                stages[0] == Seq::<DrawCommand>::empty(),
                surface@ == stages.last(),
                forall|k: int|
                    0 <= k < i ==> C::draw_spec(self.components@[k], store@, stages[k], stages[k + 1]),
            decreases n - i,
        {
            self.components[i].draw(surface, store);
            proof {
                stages = stages.push(surface@);
            }
            i += 1;
        }
        Ghost(stages)
    }
}

/// Initial-scan law: a scan that starts with no focused component visits
/// indices 0, 1, 2, ... in that order, and every candidate but possibly the
/// last declined — so the scan stopped at the first acceptor, if any.
pub proof fn lemma_initial_scan(calls: Seq<FocusCall>, n: int)
    requires
        is_focus_scan(calls, scan_start(None::<usize>), n),
    ensures
        forall|k: int|
            0 <= k < calls.len() ==> ((#[trigger] calls[k]) matches FocusCall::Gained(idx, accepted)
                && idx == k && (k < calls.len() - 1 ==> !accepted)),
{
}

/// Wrap-bound law: one traversal over `n` components makes at most `n`
/// acceptance calls before giving up.
/// Within one scan, no index is visited twice: the visited position
/// determines the step.
pub proof fn lemma_scan_position_injective(start: int, n: int, a: int, b: int)
    requires
        0 <= start <= n,
        0 <= a < n,
        0 <= b < n,
        scan_position(start, n, a) == scan_position(start, n, b),
    ensures
        a == b,
{
}

pub proof fn lemma_at_most_one_wrap(calls: Seq<FocusCall>, start: int, n: int)
    requires
        is_focus_scan(calls, start, n),
    ensures
        calls.len() <= n,
{
}

/// Lost-before-gained law: in the calls of one traversal — the lost-focus
/// calls for the previous holder followed by a focus scan — every lost-focus
/// call comes strictly before every acceptance call.
pub proof fn lemma_lost_before_gained(
    focus_index: Option<usize>,
    gained: Seq<FocusCall>,
    n: int,
)
    requires
        is_focus_scan(gained, scan_start(focus_index), n),
    ensures
        ({
            let calls = lost_calls(focus_index) + gained;
            forall|a: int, b: int|
                (0 <= a < calls.len() && 0 <= b < calls.len() && ((#[trigger] calls[a]) matches FocusCall::Lost(_))
                    && ((#[trigger] calls[b]) matches FocusCall::Gained(_, _))) ==> a < b
        }),
{
    let calls = lost_calls(focus_index) + gained;
    let l = lost_calls(focus_index).len() as int;
    assert forall|a: int, b: int|
        0 <= a < calls.len() && 0 <= b < calls.len() && ((#[trigger] calls[a]) matches FocusCall::Lost(_))
            && ((#[trigger] calls[b]) matches FocusCall::Gained(_, _)) implies a < b by {
        assert(a < l) by {
            if a >= l {
                assert(calls[a] == gained[a - l]);
                assert(gained[a - l] matches FocusCall::Gained(idx, accepted));
            }
        }
        assert(b >= l) by {
            if b < l {
                assert(calls[b] matches FocusCall::Lost(_));
            }
        }
    }
}

} // verus!
