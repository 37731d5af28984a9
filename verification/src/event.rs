//! The event dispatch loop as a state machine. The caller reads the
//! transport's event stream and the shared shutdown flag, hands each event
//! with the flag's value to [`EventLoop::step`], and carries out the action
//! that comes back.

use vstd::prelude::*;

use crate::topic::SubscriptionSet;

verus! {

/// One event of the transport's event stream.
#[derive(Debug, Clone, Copy)]
pub enum Event<'a> {
    /// The transport confirmed the connection to the broker.
    Connected,
    /// The broker confirmed a subscription.
    Subscribed(u32),
    /// A message arrived. The transport may leave the topic out.
    Received { topic: Option<&'a str>, payload: &'a [u8] },
    /// The connection to the broker was lost or closed.
    Disconnected,
    /// The transport reported an error.
    Error,
    /// Any other notification of the transport.
    Other,
}

/// What an [`Event`] holds.
pub enum EventView {
    Connected,
    Subscribed(u32),
    Received { topic: Option<Seq<char>>, payload: Seq<u8> },
    Disconnected,
    Error,
    Other,
}

impl<'a> View for Event<'a> {
    type V = EventView;

    open spec fn view(&self) -> EventView {
        match *self {
            Event::Connected => EventView::Connected,
            Event::Subscribed(id) => EventView::Subscribed(id),
            Event::Received { topic, payload } => EventView::Received {
                topic: match topic {
                    Some(t) => Some(t@),
                    None => None,
                },
                payload: payload@,
            },
            Event::Disconnected => EventView::Disconnected,
            Event::Error => EventView::Error,
            Event::Other => EventView::Other,
        }
    }
}

/// A message as the handler gets it.
pub struct Message {
    pub topic: Seq<char>,
    pub payload: Seq<u8>,
}

/// What the caller does after an event.
#[derive(Debug, Clone, Copy)]
pub enum Action<'a> {
    /// Nothing; read the next event.
    Continue,
    /// Write the value to the shared `connected` flag, then read the next
    /// event.
    SetConnected(bool),
    /// Call the message handler with this topic and payload, then read the
    /// next event.
    Deliver { topic: &'a str, payload: &'a [u8] },
    /// Stop reading events: the loop has ended.
    Stop,
}

/// What an [`Action`] holds.
pub enum ActionView {
    Continue,
    SetConnected(bool),
    Deliver(Message),
    Stop,
}

impl<'a> View for Action<'a> {
    type V = ActionView;

    open spec fn view(&self) -> ActionView {
        match *self {
            Action::Continue => ActionView::Continue,
            Action::SetConnected(value) => ActionView::SetConnected(value),
            Action::Deliver { topic, payload } => ActionView::Deliver(
                Message { topic: topic@, payload: payload@ },
            ),
            Action::Stop => ActionView::Stop,
        }
    }
}

/// Where the loop stands.
#[derive(Debug, Clone, Copy, PartialEq, Eq, Structural)]
pub enum LoopState {
    /// No connection to the broker; the state a loop starts in.
    Disconnected,
    /// The transport confirmed the connection.
    Connected,
    /// The loop has ended and handles no further event.
    Terminated,
}

/// The loop as a value: its filters and its state.
pub struct LoopModel {
    pub filters: Seq<Seq<char>>,
    pub state: LoopState,
}

/// One event together with the value of the shutdown flag that the loop
/// read just before it handled the event.
pub struct Input {
    pub shutting_down: bool,
    pub event: EventView,
}

/// Whether `event` is a message that the loop hands to the handler: it
/// carries a topic, and the topic is one of the filters.
pub open spec fn is_match(filters: Seq<Seq<char>>, event: EventView) -> bool {
    event matches EventView::Received { topic: Some(t), .. } && filters.contains(t)
}

/// The message that a received event carries.
pub open spec fn message_of(event: EventView) -> Message
    recommends
        event matches EventView::Received { topic: Some(_), .. },
{
    Message { topic: event->Received_topic->0, payload: event->Received_payload }
}

/// The loop after one input, and the action it asks for.
///
/// A loop that has ended stays as it is and answers `Stop`. Otherwise the
/// flag is looked at first: when it is set the loop ends. Otherwise the
/// event decides: a confirmed connection and a disconnect move the state
/// and ask for the shared flag to follow; a message on a subscribed topic
/// is delivered; everything else is passed over.
pub open spec fn step_of(m: LoopModel, input: Input) -> (LoopModel, ActionView) {
    if m.state == LoopState::Terminated {
        (m, ActionView::Stop)
    } else if input.shutting_down {
        (LoopModel { state: LoopState::Terminated, ..m }, ActionView::Stop)
    } else {
        match input.event {
            EventView::Connected => (
                LoopModel { state: LoopState::Connected, ..m },
                ActionView::SetConnected(true),
            ),
            EventView::Disconnected => (
                LoopModel { state: LoopState::Disconnected, ..m },
                ActionView::SetConnected(false),
            ),
            EventView::Received { topic: Some(t), payload } => if m.filters.contains(t) {
                (m, ActionView::Deliver(Message { topic: t, payload }))
            } else {
                (m, ActionView::Continue)
            },
            _ => (m, ActionView::Continue),
        }
    }
}

/// The loop after a run of inputs.
pub open spec fn run_of(m: LoopModel, inputs: Seq<Input>) -> LoopModel
    decreases inputs.len(),
{
    if inputs.len() == 0 {
        m
    } else {
        step_of(run_of(m, inputs.drop_last()), inputs.last()).0
    }
}

/// The messages handed to the handler over a run of inputs, in the order
/// of the calls.
pub open spec fn deliveries_of(m: LoopModel, inputs: Seq<Input>) -> Seq<Message>
    decreases inputs.len(),
{
    if inputs.len() == 0 {
        Seq::empty()
    } else {
        let before = deliveries_of(m, inputs.drop_last());
        match step_of(run_of(m, inputs.drop_last()), inputs.last()).1 {
            ActionView::Deliver(msg) => before.push(msg),
            _ => before,
        }
    }
}

/// The events of a run of inputs.
pub open spec fn events_of(inputs: Seq<Input>) -> Seq<EventView> {
    inputs.map_values(|i: Input| i.event)
}

/// The messages among `events` that match a filter, in order.
pub open spec fn matching_messages(filters: Seq<Seq<char>>, events: Seq<EventView>) -> Seq<
    Message,
> {
    events.filter(|e: EventView| is_match(filters, e)).map_values(|e: EventView| message_of(e))
}

/// The background side of a connection: the subscribed filters and the
/// state of the event loop.
#[derive(Debug)]
pub struct EventLoop {
    filters: SubscriptionSet,
    state: LoopState,
}

impl View for EventLoop {
    type V = LoopModel;

    closed spec fn view(&self) -> LoopModel {
        LoopModel { filters: self.filters@, state: self.state }
    }
}

impl EventLoop {
    /// A loop over the given filters, in the state `Disconnected`.
    pub fn new(filters: SubscriptionSet) -> (lp: Self)
        ensures
            lp@ == (LoopModel { filters: filters@, state: LoopState::Disconnected }),
    {
        EventLoop { filters, state: LoopState::Disconnected }
    }

    /// The state of the loop.
    pub fn state(&self) -> (state: LoopState)
        ensures
            state == self@.state,
    {
        self.state
    }

    /// Whether the transport has confirmed the connection and has not
    /// reported its loss since.
    pub fn is_connected(&self) -> (connected: bool)
        ensures
            connected == (self@.state == LoopState::Connected),
    {
        match self.state {
            LoopState::Connected => true,
            _ => false,
        }
    }

    /// Whether the loop has ended.
    pub fn is_terminated(&self) -> (ended: bool)
        ensures
            ended == (self@.state == LoopState::Terminated),
    {
        match self.state {
            LoopState::Terminated => true,
            _ => false,
        }
    }

    /// The filters the loop dispatches on.
    pub fn filters(&self) -> (filters: &SubscriptionSet)
        ensures
            filters@ == self@.filters,
    {
        &self.filters
    }

    /// Handles one event. `shutting_down` is the value of the shared
    /// shutdown flag, read by the caller just before this call.
    pub fn step<'a>(&mut self, shutting_down: bool, event: Event<'a>) -> (action: Action<'a>)
        ensures
            (final(self)@, action@) == step_of(
                old(self)@,
                Input { shutting_down, event: event@ },
            ),
    {
        if self.is_terminated() {
            return Action::Stop;
        }
        if shutting_down {
            self.state = LoopState::Terminated;
            return Action::Stop;
        }
        match event {
            Event::Connected => {
                self.state = LoopState::Connected;
                Action::SetConnected(true)
            },
            Event::Disconnected => {
                self.state = LoopState::Disconnected;
                Action::SetConnected(false)
            },
            Event::Received { topic: Some(topic), payload } => {
                if self.filters.contains(topic) {
                    Action::Deliver { topic, payload }
                } else {
                    Action::Continue
                }
            },
            _ => Action::Continue,
        }
    }

    /// Handles one event as [`EventLoop::step`] does and, where the action
    /// is to deliver a message, calls `on_message` with its topic and
    /// payload before returning. The handler runs on the caller's thread
    /// and is never called for anything but a message on a subscribed
    /// topic.
    pub fn dispatch<'a, F: Fn(&str, &[u8])>(
        &mut self,
        shutting_down: bool,
        event: Event<'a>,
        on_message: &F,
    ) -> (action: Action<'a>)
        requires
            forall|topic: &str, payload: &[u8]|
                old(self)@.filters.contains(topic@) ==> call_requires(
                    on_message,
                    (topic, payload),
                ),
        ensures
            (final(self)@, action@) == step_of(
                old(self)@,
                Input { shutting_down, event: event@ },
            ),
            action matches Action::Deliver { topic, payload } ==> call_ensures(
                on_message,
                (topic, payload),
                (),
            ),
    {
        let action = self.step(shutting_down, event);
        if let Action::Deliver { topic, payload } = action {
            on_message(topic, payload);
        }
        action
    }

    /// Records that the event stream has ended: the loop ends with it.
    pub fn stream_ended(&mut self)
        ensures
            final(self)@ == (LoopModel { state: LoopState::Terminated, ..old(self)@ }),
    {
        self.state = LoopState::Terminated;
    }
}


/// A run never changes the filters of the loop.
pub proof fn lemma_run_keeps_filters(m: LoopModel, inputs: Seq<Input>)
    ensures
        run_of(m, inputs).filters == m.filters,
    decreases inputs.len(),
{
    if inputs.len() > 0 {
        lemma_run_keeps_filters(m, inputs.drop_last());
    }
}

/// A loop that has not ended does not end while the shutdown flag is clear.
pub proof fn lemma_run_goes_on(m: LoopModel, inputs: Seq<Input>)
    requires
        m.state != LoopState::Terminated,
        forall|i: int| 0 <= i < inputs.len() ==> !inputs[i].shutting_down,
    ensures
        run_of(m, inputs).state != LoopState::Terminated,
    decreases inputs.len(),
{
    if inputs.len() > 0 {
        lemma_run_goes_on(m, inputs.drop_last());
    }
}

/// Dispatch is filtered by exact membership: whatever the events and
/// whatever the shutdown flag showed, no message on a topic that is not
/// among the filters is handed to the handler.
pub proof fn law_unsubscribed_never_delivered(m: LoopModel, inputs: Seq<Input>, topic: Seq<char>)
    requires
        !m.filters.contains(topic),
    ensures
        forall|i: int|
            0 <= i < deliveries_of(m, inputs).len() ==> (#[trigger] deliveries_of(
                m,
                inputs,
            )[i]).topic != topic,
    decreases inputs.len(),
{
    if inputs.len() > 0 {
        let head = inputs.drop_last();
        law_unsubscribed_never_delivered(m, head, topic);
        lemma_run_keeps_filters(m, head);
        let before = deliveries_of(m, head);
        let all = deliveries_of(m, inputs);
        assert forall|i: int| 0 <= i < all.len() implies (#[trigger] all[i]).topic != topic by {
            if i < before.len() {
                assert(all[i] == before[i]);
            }
        }
    }
}

/// While the loop runs and the shutdown flag is clear, the handler gets
/// exactly the messages that match a filter: each once, none dropped, in
/// the order in which the transport produced them.
pub proof fn law_matching_delivered_once_in_order(m: LoopModel, inputs: Seq<Input>)
    requires
        m.state != LoopState::Terminated,
        forall|i: int| 0 <= i < inputs.len() ==> !inputs[i].shutting_down,
    ensures
        deliveries_of(m, inputs) == matching_messages(m.filters, events_of(inputs)),
    decreases inputs.len(),
{
    let pred = |e: EventView| is_match(m.filters, e);
    reveal(Seq::filter);
    if inputs.len() == 0 {
        assert(events_of(inputs).filter(pred) =~= Seq::<EventView>::empty());
        assert(deliveries_of(m, inputs) =~= matching_messages(m.filters, events_of(inputs)));
    } else {
        let head = inputs.drop_last();
        law_matching_delivered_once_in_order(m, head);
        lemma_run_keeps_filters(m, head);
        lemma_run_goes_on(m, head);
        assert(events_of(inputs).drop_last() =~= events_of(head));
        assert(events_of(inputs).last() == inputs.last().event);
        assert(deliveries_of(m, inputs) =~= matching_messages(m.filters, events_of(inputs)));
    }
}

/// The inputs of a run that the loop handles: those before the first one
/// that shows the shutdown flag set.
pub open spec fn handled_inputs(inputs: Seq<Input>) -> Seq<Input>
    decreases inputs.len(),
{
    if inputs.len() == 0 {
        inputs
    } else {
        let before = handled_inputs(inputs.drop_last());
        if before.len() == inputs.len() - 1 && !inputs.last().shutting_down {
            before.push(inputs.last())
        } else {
            before
        }
    }
}

/// What [`handled_inputs`] is: the longest beginning of the run in which
/// the shutdown flag is clear throughout.
pub proof fn lemma_handled_inputs(inputs: Seq<Input>)
    ensures
        handled_inputs(inputs).len() <= inputs.len(),
        handled_inputs(inputs) == inputs.take(handled_inputs(inputs).len() as int),
        forall|i: int|
            0 <= i < handled_inputs(inputs).len() ==> !(#[trigger] inputs[i]).shutting_down,
        handled_inputs(inputs).len() < inputs.len() ==> inputs[handled_inputs(
            inputs,
        ).len() as int].shutting_down,
    decreases inputs.len(),
{
    if inputs.len() > 0 {
        let head = inputs.drop_last();
        lemma_handled_inputs(head);
        let before = handled_inputs(head);
        assert(head.take(before.len() as int) =~= inputs.take(before.len() as int));
        if before.len() == inputs.len() - 1 && !inputs.last().shutting_down {
            assert(before.push(inputs.last()) =~= inputs.take(inputs.len() as int));
        }
        assert forall|i: int| 0 <= i < handled_inputs(inputs).len() implies !(
        #[trigger] inputs[i]).shutting_down by {
            if i < before.len() {
                assert(inputs[i] == head[i]);
            }
        }
        if handled_inputs(inputs).len() < inputs.len() && before.len() < head.len() {
            assert(inputs[before.len() as int] == head[before.len() as int]);
        }
    } else {
        assert(inputs.take(0) =~= inputs);
    }
}

/// The whole of dispatch in one statement. Whatever the events and
/// whatever the shutdown flag showed, a loop that has not ended hands to
/// the handler exactly the matching messages among the inputs it handles,
/// each once and in the order of arrival; and it has ended afterwards if
/// and only if some input showed the flag set.
pub proof fn law_deliveries_until_shutdown(m: LoopModel, inputs: Seq<Input>)
    requires
        m.state != LoopState::Terminated,
    ensures
        deliveries_of(m, inputs) == matching_messages(
            m.filters,
            events_of(handled_inputs(inputs)),
        ),
        (run_of(m, inputs).state == LoopState::Terminated) == (handled_inputs(inputs).len()
            < inputs.len()),
    decreases inputs.len(),
{
    reveal(Seq::filter);
    if inputs.len() == 0 {
        assert(events_of(inputs).filter(|e: EventView| is_match(m.filters, e))
            =~= Seq::<EventView>::empty());
        assert(deliveries_of(m, inputs) =~= matching_messages(m.filters, events_of(inputs)));
    } else {
        let head = inputs.drop_last();
        let before = handled_inputs(head);
        law_deliveries_until_shutdown(m, head);
        lemma_run_keeps_filters(m, head);
        lemma_handled_inputs(head);
        if before.len() == head.len() && !inputs.last().shutting_down {
            assert(before =~= head);
            assert(handled_inputs(inputs) =~= inputs);
            assert(events_of(inputs).drop_last() =~= events_of(head));
            assert(events_of(inputs).last() == inputs.last().event);
            assert(deliveries_of(m, inputs) =~= matching_messages(
                m.filters,
                events_of(inputs),
            ));
        }
    }
}

/// Once the loop has ended it stays ended and hands out nothing more.
pub proof fn law_terminated_is_final(m: LoopModel, inputs: Seq<Input>)
    requires
        m.state == LoopState::Terminated,
    ensures
        run_of(m, inputs) == m,
        deliveries_of(m, inputs) == Seq::<Message>::empty(),
    decreases inputs.len(),
{
    if inputs.len() > 0 {
        law_terminated_is_final(m, inputs.drop_last());
    }
}

/// The loop ends at the first input that shows the shutdown flag set: the
/// event that came with it is not handled.
pub proof fn law_shutdown_flag_ends_loop(m: LoopModel, input: Input)
    requires
        input.shutting_down,
    ensures
        step_of(m, input).0.state == LoopState::Terminated,
        step_of(m, input).1 == ActionView::Stop,
{
}

} // verus!
