//! The frame loop's event queue and the order in which layers see a frame.
use vstd::prelude::*;

verus! {

/// A part of the engine that takes part in every frame (the renderer, the user interface).
/// Each method's effect on the layer is given by a spec function of the implementing type.
pub trait Layer<E, R, A>: Sized {
    /// The layer after it handled `event`.
    spec fn handled(self, event: E) -> Self;

    /// The layer after it prepared a new frame.
    spec fn started(self) -> Self;

    /// The layer after it advanced by `delta_time` milliseconds and drew the frame.
    spec fn updated(self, delta_time: u128, render_context: R, application: A) -> Self;

    /// The layer after it finished the frame.
    spec fn ended(self) -> Self;

    /// Handles one input event.
    fn on_event(&mut self, event: &E)
        ensures
            *final(self) == old(self).handled(*event),
    ;

    /// Prepares a new frame.
    fn start_frame(&mut self)
        ensures
            *final(self) == old(self).started(),
    ;

    /// Advances by `delta_time` milliseconds and draws the frame.
    fn on_update(&mut self, delta_time: u128, render_context: &R, application: &A)
        ensures
            *final(self) == old(self).updated(delta_time, *render_context, *application),
    ;

    /// Finishes the frame.
    fn end_frame(&mut self)
        ensures
            *final(self) == old(self).ended(),
    ;
}

/// The layer after it handled `events`, in order.
pub open spec fn handled_all<E, R, A, L: Layer<E, R, A>>(layer: L, events: Seq<E>) -> L
    decreases events.len(),
{
    if events.len() == 0 {
        layer
    } else {
        handled_all::<E, R, A, L>(layer, events.drop_last()).handled(events.last())
    }
}

/// The layer after a whole frame: it handled every event of the frame in order, then
/// started the frame, updated by `delta_time`, and ended the frame.
pub open spec fn after_frame_of<E, R, A, L: Layer<E, R, A>>(
    layer: L,
    events: Seq<E>,
    delta_time: u128,
    render_context: R,
    application: A,
) -> L {
    handled_all::<E, R, A, L>(layer, events).started().updated(
        delta_time,
        render_context,
        application,
    ).ended()
}

/// One call that a frame makes on a layer: which method, on the layer at which position of
/// the layer list, and for `OnEvent` the position of the event in the frame's events.
#[derive(Clone, Copy, Debug, PartialEq, Eq, Structural)]
pub enum LayerCall {
    OnEvent(usize, usize),
    StartFrame(usize),
    OnUpdate(usize),
    EndFrame(usize),
}

/// The event calls of a frame on the first `n` layers with `m` events: layer by layer, each
/// layer handles every event in order.
pub open spec fn event_calls(n: nat, m: nat) -> Seq<LayerCall>
    decreases n,
{
    if n == 0 {
        Seq::empty()
    } else {
        event_calls((n - 1) as nat, m) + Seq::new(
            m,
            |j: int| LayerCall::OnEvent((n - 1) as usize, j as usize),
        )
    }
}

/// The calls of a frame on `n` layers with `m` events, in order: every layer handles every
/// event, then every layer starts the frame, then every layer updates, then every layer ends
/// the frame; each phase goes through the layers in list order.
pub open spec fn frame_calls(n: nat, m: nat) -> Seq<LayerCall> {
    event_calls(n, m) + Seq::new(n, |i: int| LayerCall::StartFrame(i as usize)) + Seq::new(
        n,
        |i: int| LayerCall::OnUpdate(i as usize),
    ) + Seq::new(n, |i: int| LayerCall::EndFrame(i as usize))
}

/// The phase of a frame that a call belongs to: events, start, update, end.
pub open spec fn call_phase(call: LayerCall) -> int {
    match call {
        LayerCall::OnEvent(_, _) => 0,
        LayerCall::StartFrame(_) => 1,
        LayerCall::OnUpdate(_) => 2,
        LayerCall::EndFrame(_) => 3,
    }
}

proof fn lemma_event_calls_are_events(n: nat, m: nat)
    ensures
        forall|k: int|
            0 <= k < event_calls(n, m).len() ==> #[trigger] call_phase(event_calls(n, m)[k]) == 0,
    decreases n,
{
    if n > 0 {
        lemma_event_calls_are_events((n - 1) as nat, m);
        let prev = event_calls((n - 1) as nat, m);
        let last = Seq::new(m, |j: int| LayerCall::OnEvent((n - 1) as usize, j as usize));
        assert forall|k: int| 0 <= k < event_calls(n, m).len() implies #[trigger] call_phase(
            event_calls(n, m)[k],
        ) == 0 by {
            if k < prev.len() {
                assert(event_calls(n, m)[k] == prev[k]);
            } else {
                assert(event_calls(n, m)[k] == last[k - prev.len()]);
            }
        }
    }
}

/// A frame goes phase by phase: every layer handles every event before any layer starts the
/// frame, every layer starts it before any layer updates, and every layer updates before any
/// layer ends it.
pub proof fn law_frame_phases_in_order(n: nat, m: nat, p: int, q: int)
    requires
        0 <= p < q < frame_calls(n, m).len(),
    ensures
        call_phase(frame_calls(n, m)[p]) <= call_phase(frame_calls(n, m)[q]),
{
    lemma_event_calls_are_events(n, m);
    let ev = event_calls(n, m);
    let fc = frame_calls(n, m);
    let e = ev.len() as int;
    assert forall|k: int| 0 <= k < fc.len() implies #[trigger] call_phase(fc[k]) == if k < e {
        0int
    } else if k < e + n {
        1int
    } else if k < e + 2 * n {
        2int
    } else {
        3int
    } by {
        if k < e {
            assert(fc[k] == ev[k]);
        }
    }
}

/// Collects the input events of a frame and runs the layers through the frame.
pub struct GameLayer<E> {
    received: Vec<E>,
    input: Vec<E>,
    delta_time: u128,
    frame_calls: Ghost<Seq<LayerCall>>,
}

impl<E> GameLayer<E> {
    /// Events sent and not yet taken into a frame, oldest first.
    pub closed spec fn received_spec(&self) -> Seq<E> {
        self.received@
    }

    /// The events of the current frame, oldest first.
    pub closed spec fn input_spec(&self) -> Seq<E> {
        self.input@
    }

    /// Milliseconds between the last two ticks.
    pub closed spec fn delta_time_spec(&self) -> u128 {
        self.delta_time
    }

    /// The layer calls of the last frame that `run_layers` ran, in the order they were made.
    pub closed spec fn last_frame_calls(&self) -> Seq<LayerCall> {
        self.frame_calls@
    }

    /// No events, and no time passed.
    pub fn new() -> (r: GameLayer<E>)
        ensures
            r.received_spec().len() == 0,
            r.input_spec().len() == 0,
            r.delta_time_spec() == 0,
    {
        GameLayer {
            received: Vec::new(),
            input: Vec::new(),
            delta_time: 0,
            frame_calls: Ghost(Seq::empty()),
        }
    }

    /// Queues an event from the window for the next frame.
    pub fn send(&mut self, event: E)
        ensures
            final(self).received_spec() == old(self).received_spec().push(event),
            final(self).input_spec() == old(self).input_spec(),
            final(self).delta_time_spec() == old(self).delta_time_spec(),
    {
        self.received.push(event);
    }

    /// Records the milliseconds between the last two ticks.
    pub fn set_delta_time(&mut self, delta_time: u128)
        ensures
            final(self).received_spec() == old(self).received_spec(),
            final(self).input_spec() == old(self).input_spec(),
            final(self).delta_time_spec() == delta_time,
    {
        self.delta_time = delta_time;
    }

    /// Milliseconds between the last two ticks.
    pub fn delta_time(&self) -> (r: u128)
        ensures
            r == self.delta_time_spec(),
    {
        self.delta_time
    }

    /// The events of the current frame, oldest first.
    pub fn input(&self) -> (r: &Vec<E>)
        ensures
            r@ == self.input_spec(),
    {
        &self.input
    }

    /// Takes every queued event into the current frame, keeping their order.
    pub fn before_frame(&mut self)
        ensures
            final(self).input_spec() == old(self).input_spec() + old(self).received_spec(),
            final(self).received_spec().len() == 0,
            final(self).delta_time_spec() == old(self).delta_time_spec(),
    {
        let mut received: Vec<E> = Vec::new();
        std::mem::swap(&mut received, &mut self.received);
        self.input.append(&mut received);
    }

    /// Forgets the events of the frame that ended.
    pub fn after_frame(&mut self)
        ensures
            final(self).input_spec().len() == 0,
            final(self).received_spec() == old(self).received_spec(),
            final(self).delta_time_spec() == old(self).delta_time_spec(),
    {
        self.input.clear();
    }

    /// Runs the layers through a frame: every layer handles every event of the frame, in
    /// order; then every layer starts the frame, then every layer updates, then every layer
    /// ends the frame.
    pub fn run_layers<L: Layer<E, R, A>, R, A>(
        &mut self,
        layers: &mut Vec<L>,
        render_context: &R,
        application: &A,
    )
        ensures
            final(layers)@.len() == old(layers)@.len(),
            forall|i: int|
                0 <= i < old(layers)@.len() ==> #[trigger] final(layers)@[i] == after_frame_of::<
                    E,
                    R,
                    A,
                    L,
                >(
                    old(layers)@[i],
                    old(self).input_spec(),
                    old(self).delta_time_spec(),
                    *render_context,
                    *application,
                ),
            final(self).last_frame_calls() == frame_calls(
                old(layers)@.len(),
                old(self).input_spec().len(),
            ),
            final(self).received_spec() == old(self).received_spec(),
            final(self).input_spec() == old(self).input_spec(),
            final(self).delta_time_spec() == old(self).delta_time_spec(),
    {
        self.frame_calls = Ghost(Seq::empty());
        let ghost start = layers@;
        let ghost events = self.input@;
        let ghost received = self.received@;
        let ghost delta_time = self.delta_time;
        let n = layers.len();
        let m = self.input.len();
        for i in 0..n
            invariant
                n == layers@.len(),
                n == start.len(),
                m == self.input@.len(),
                self.received@ == received,
                self.delta_time == delta_time,
                self.input@ == events,
                self.frame_calls@ == event_calls(i as nat, m as nat),
                forall|k: int|
                    0 <= k < i ==> #[trigger] layers@[k] == handled_all::<E, R, A, L>(
                        start[k],
                        events,
                    ),
                forall|k: int| i <= k < n ==> #[trigger] layers@[k] == start[k],
        {
            assert(events.take(0) =~= Seq::<E>::empty());
            for j in 0..m
                invariant
                    n == layers@.len(),
                    n == start.len(),
                    m == self.input@.len(),
                        i < n,
                    self.received@ == received,
                    self.delta_time == delta_time,
                    self.input@ == events,
                    self.frame_calls@ == event_calls(i as nat, m as nat) + Seq::new(
                        j as nat,
                        |jj: int| LayerCall::OnEvent(i, jj as usize),
                    ),
                    layers@[i as int] == handled_all::<E, R, A, L>(
                        start[i as int],
                        events.take(j as int),
                    ),
                    forall|k: int|
                        0 <= k < i ==> #[trigger] layers@[k] == handled_all::<E, R, A, L>(
                            start[k],
                            events,
                        ),
                    forall|k: int| i < k < n ==> #[trigger] layers@[k] == start[k],
            {
                layers[i].on_event(&self.input[j]);
                self.frame_calls = Ghost(self.frame_calls@.push(LayerCall::OnEvent(i, j)));
                assert(events.take(j + 1).drop_last() =~= events.take(j as int));
                assert(self.frame_calls@ =~= event_calls(i as nat, m as nat) + Seq::new(
                    (j + 1) as nat,
                    |jj: int| LayerCall::OnEvent(i, jj as usize),
                ));
            }
            assert(events.take(m as int) =~= events);
            assert(event_calls((i + 1) as nat, m as nat) =~= event_calls(i as nat, m as nat)
                + Seq::new(m as nat, |jj: int| LayerCall::OnEvent(i, jj as usize)));
        }
        let ghost all_events = event_calls(n as nat, m as nat);
        let ghost after_starts = all_events + Seq::new(
            n as nat,
            |ii: int| LayerCall::StartFrame(ii as usize),
        );
        let ghost after_updates = after_starts + Seq::new(
            n as nat,
            |ii: int| LayerCall::OnUpdate(ii as usize),
        );
        for i in 0..n
            invariant
                self.received@ == received,
                self.delta_time == delta_time,
                self.input@ == events,
                self.frame_calls@ == all_events + Seq::new(
                    i as nat,
                    |ii: int| LayerCall::StartFrame(ii as usize),
                ),
                n == layers@.len(),
                n == start.len(),
                forall|k: int|
                    0 <= k < i ==> #[trigger] layers@[k] == handled_all::<E, R, A, L>(
                        start[k],
                        events,
                    ).started(),
                forall|k: int|
                    i <= k < n ==> #[trigger] layers@[k] == handled_all::<E, R, A, L>(
                        start[k],
                        events,
                    ),
        {
            layers[i].start_frame();
            self.frame_calls = Ghost(self.frame_calls@.push(LayerCall::StartFrame(i)));
            assert(self.frame_calls@ =~= all_events + Seq::new(
                (i + 1) as nat,
                |ii: int| LayerCall::StartFrame(ii as usize),
            ));
        }
        for i in 0..n
            invariant
                self.received@ == received,
                self.delta_time == delta_time,
                self.input@ == events,
                self.frame_calls@ == after_starts + Seq::new(
                    i as nat,
                    |ii: int| LayerCall::OnUpdate(ii as usize),
                ),
                n == layers@.len(),
                n == start.len(),
                forall|k: int|
                    0 <= k < i ==> #[trigger] layers@[k] == handled_all::<E, R, A, L>(
                        start[k],
                        events,
                    ).started().updated(self.delta_time, *render_context, *application),
                forall|k: int|
                    i <= k < n ==> #[trigger] layers@[k] == handled_all::<E, R, A, L>(
                        start[k],
                        events,
                    ).started(),
        {
            layers[i].on_update(self.delta_time, render_context, application);
            self.frame_calls = Ghost(self.frame_calls@.push(LayerCall::OnUpdate(i)));
            assert(self.frame_calls@ =~= after_starts + Seq::new(
                (i + 1) as nat,
                |ii: int| LayerCall::OnUpdate(ii as usize),
            ));
        }
        for i in 0..n
            invariant
                self.received@ == received,
                self.delta_time == delta_time,
                self.input@ == events,
                self.frame_calls@ == after_updates + Seq::new(
                    i as nat,
                    |ii: int| LayerCall::EndFrame(ii as usize),
                ),
                n == layers@.len(),
                n == start.len(),
                forall|k: int|
                    0 <= k < i ==> #[trigger] layers@[k] == after_frame_of::<E, R, A, L>(
                        start[k],
                        events,
                        self.delta_time,
                        *render_context,
                        *application,
                    ),
                forall|k: int|
                    i <= k < n ==> #[trigger] layers@[k] == handled_all::<E, R, A, L>(
                        start[k],
                        events,
                    ).started().updated(self.delta_time, *render_context, *application),
        {
            layers[i].end_frame();
            self.frame_calls = Ghost(self.frame_calls@.push(LayerCall::EndFrame(i)));
            assert(self.frame_calls@ =~= after_updates + Seq::new(
                (i + 1) as nat,
                |ii: int| LayerCall::EndFrame(ii as usize),
            ));
        }
        assert(self.frame_calls@ =~= frame_calls(n as nat, m as nat));
    }
}

/// What the engine reads of a window event: its kind, with the part of it that is forwarded.
/// `P` is a cursor position (with the modifier keys), `S` a scroll by lines, `K` a key
/// event and `B` a mouse button event.
#[derive(Clone, Debug, PartialEq)]
pub enum WindowInput<P, S, K, B> {
    CloseRequested,
    CursorMoved(P),
    /// A scroll given in lines.
    LineScroll(S),
    /// A scroll given in pixels.
    PixelScroll,
    Keyboard(K),
    MouseInput(B),
    /// Any other event.
    Other,
}

/// An input event of the engine. `W` is the window system's own event, forwarded as it came.
#[derive(Clone, Debug, PartialEq)]
pub enum EngineEvent<W, P, S, K, B> {
    Raw(W),
    Shutdown,
    MouseMove(P),
    MouseScroll(S),
    Keyboard(K),
    MouseInput(B),
}

/// The engine events that one window event gives: the raw event first, then, for a close
/// request, a cursor move, a scroll by lines, a key or a mouse button, the matching event.
pub open spec fn forwarded_events<W, P, S, K, B>(raw: W, input: WindowInput<P, S, K, B>) -> Seq<
    EngineEvent<W, P, S, K, B>,
> {
    seq![EngineEvent::Raw(raw)] + match input {
        WindowInput::CloseRequested => seq![EngineEvent::Shutdown],
        WindowInput::CursorMoved(p) => seq![EngineEvent::MouseMove(p)],
        WindowInput::LineScroll(s) => seq![EngineEvent::MouseScroll(s)],
        WindowInput::PixelScroll => Seq::empty(),
        WindowInput::Keyboard(k) => seq![EngineEvent::Keyboard(k)],
        WindowInput::MouseInput(b) => seq![EngineEvent::MouseInput(b)],
        WindowInput::Other => Seq::empty(),
    }
}

impl<W, P, S, K, B> GameLayer<EngineEvent<W, P, S, K, B>> {
    /// Queues the engine events of one window event for the next frame. Returns whether the
    /// engine keeps running: false exactly for a close request.
    pub fn receive_window_event(&mut self, raw: W, input: WindowInput<P, S, K, B>) -> (keep_running:
        bool)
        ensures
            keep_running == !(input is CloseRequested),
            final(self).received_spec() == old(self).received_spec() + forwarded_events(raw, input),
            final(self).input_spec() == old(self).input_spec(),
            final(self).delta_time_spec() == old(self).delta_time_spec(),
    {
        let ghost before = self.received@;
        let ghost forwarded = forwarded_events(raw, input);
        let keep_running = match input {
            WindowInput::CloseRequested => false,
            _ => true,
        };
        self.received.push(EngineEvent::Raw(raw));
        match input {
            WindowInput::CloseRequested => self.received.push(EngineEvent::Shutdown),
            WindowInput::CursorMoved(p) => self.received.push(EngineEvent::MouseMove(p)),
            WindowInput::LineScroll(s) => self.received.push(EngineEvent::MouseScroll(s)),
            WindowInput::PixelScroll => {},
            WindowInput::Keyboard(k) => self.received.push(EngineEvent::Keyboard(k)),
            WindowInput::MouseInput(b) => self.received.push(EngineEvent::MouseInput(b)),
            WindowInput::Other => {},
        }
        assert(self.received@ =~= before + forwarded);
        keep_running
    }
}

/// Events reach the frame in the order they were sent: sending `first` and then `second`
/// to a layer with no queued events, and starting a frame, appends exactly `first, second`
/// to the frame's events.
pub proof fn law_events_keep_their_order<E>(
    before: GameLayer<E>,
    after_first: GameLayer<E>,
    after_second: GameLayer<E>,
    started: GameLayer<E>,
    first: E,
    second: E,
)
    requires
        before.received_spec().len() == 0,
        after_first.received_spec() == before.received_spec().push(first),
        after_second.received_spec() == after_first.received_spec().push(second),
        after_second.input_spec() == before.input_spec(),
        started.input_spec() == after_second.input_spec() + after_second.received_spec(),
    ensures
        started.input_spec() == before.input_spec() + seq![first, second],
{
    assert(after_second.received_spec() =~= seq![first, second]);
}

} // verus!
