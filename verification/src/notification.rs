//! Notifications: who hears which, and how one connection listens for all.

use vstd::prelude::*;

use crate::error::{Fault, PostgresError};
use crate::identifier::{QueueName, TaskId};
use crate::requests::fails_with;
use crate::table::Table;
use crate::text::{contains_text, same_text, texts};
use crate::unique::uuid_text;

verus! {

/// A message on a channel.
#[derive(Debug, PartialEq, Eq)]
pub struct Notification {
    channel: String,
    payload: String,
}

/// A message in the abstract.
pub struct Message {
    pub channel: Seq<char>,
    pub payload: Seq<char>,
}

impl View for Notification {
    type V = Message;

    closed spec fn view(&self) -> Message {
        Message { channel: self.channel@, payload: self.payload@ }
    }
}

impl Clone for Notification {
    fn clone(&self) -> (result: Self)
        ensures
            result == *self,
    {
        Notification { channel: self.channel.clone(), payload: self.payload.clone() }
    }
}

impl Notification {
    pub fn new(channel: String, payload: String) -> (result: Self)
        ensures
            result@ == (Message { channel: channel@, payload: payload@ }),
    {
        Notification { channel, payload }
    }

    pub fn channel(&self) -> (result: &str)
        ensures
            result@ == self@.channel,
    {
        self.channel.as_str()
    }

    pub fn payload(&self) -> (result: &str)
        ensures
            result@ == self@.payload,
    {
        self.payload.as_str()
    }
}

/// What is told to every listener.
#[derive(Debug, PartialEq, Eq)]
pub enum NotificationEvent {
    Ready(Notification),
    Disconnected(String),
}

impl Clone for NotificationEvent {
    fn clone(&self) -> (result: Self)
        ensures
            result == *self,
    {
        match self {
            NotificationEvent::Ready(notification) => NotificationEvent::Ready(notification.clone()),
            NotificationEvent::Disconnected(message) => NotificationEvent::Disconnected(
                message.clone(),
            ),
        }
    }
}

/// What a listener finds when it looks: an event, a gap where it fell behind, or the end.
#[derive(Debug, PartialEq, Eq)]
pub enum Received {
    Event(NotificationEvent),
    Lagged,
    Closed,
}

/// The payload that a channel is heard for, as characters.
pub open spec fn payload_text(payload: Option<String>) -> Option<Seq<char>> {
    match payload {
        Some(text) => Some(text@),
        None => None,
    }
}

/// The channels that a listener hears, each with the payload that it hears there, or any.
#[derive(Debug)]
pub struct Filters {
    entries: Table<String, Option<String>>,
}

impl View for Filters {
    type V = Map<Seq<char>, Option<Seq<char>>>;

    closed spec fn view(&self) -> Map<Seq<char>, Option<Seq<char>>> {
        self.entries@.map_values(|payload: Option<String>| payload_text(payload))
    }
}

/// Whether a listener with filters hears a message.
pub open spec fn hears(filters: Map<Seq<char>, Option<Seq<char>>>, message: Message) -> bool {
    filters.dom().contains(message.channel) && (filters[message.channel] is None
        || filters[message.channel] == Some(message.payload))
}

impl Filters {
    /// Hears nothing.
    pub fn new() -> (result: Self)
        ensures
            result@ == Map::<Seq<char>, Option<Seq<char>>>::empty(),
    {
        let result = Filters { entries: Table::new() };
        assert(result@ =~= Map::<Seq<char>, Option<Seq<char>>>::empty());
        result
    }

    /// Hears a channel for a payload, or for any; what the channel was heard for before is
    /// forgotten.
    pub fn with(self, channel: String, payload: Option<String>) -> (result: Self)
        ensures
            result@ == self@.insert(channel@, payload_text(payload)),
    {
        let ghost before = self@;
        let mut entries = self.entries;
        entries.insert(channel, payload);
        let result = Filters { entries };
        assert(result@ =~= before.insert(channel@, payload_text(payload)));
        result
    }

    /// Whether a message is heard.
    pub fn hears(&self, notification: &Notification) -> (result: bool)
        ensures
            result == hears(self@, notification@),
    {
        match self.entries.get(&notification.channel) {
            Some(Some(payload)) => same_text(payload.as_str(), notification.payload()),
            Some(None) => true,
            None => false,
        }
    }

    /// The channels, each once.
    pub fn channels(&self) -> (result: Vec<String>)
        ensures
            texts(result@).to_set() == self@.dom(),
            texts(result@).no_duplicates(),
    {
        let count: usize = self.entries.len();
        let mut channels: Vec<String> = Vec::new();
        let mut index: usize = 0;
        assert(texts(channels@) =~= self.entries.keys().take(0));
        while index < count
            invariant
                index <= count,
                count == self.entries.keys().len(),
                texts(channels@) == self.entries.keys().take(index as int),
            decreases count - index,
        {
            let ghost before = channels@;
            channels.push(self.entries.entry(index).0.clone());
            assert(texts(channels@) =~= texts(before).push(channels@.last()@));
            assert(self.entries.keys().take(index + 1) =~= self.entries.keys().take(
                index as int,
            ).push(self.entries.keys()[index as int]));
            index += 1;
        }
        assert(self.entries.keys().take(count as int) =~= self.entries.keys());
        assert(self@.dom() =~= self.entries@.dom());
        channels
    }
}

/// The filters of a listener for work: any schedule, any wait, and each queue on its own channel.
/// Where two queues share a channel, the later one is heard.
pub open spec fn work_filters(
    channels: Seq<(String, QueueName)>,
) -> Map<Seq<char>, Option<Seq<char>>>
    decreases channels.len(),
{
    if channels.len() == 0 {
        Map::<Seq<char>, Option<Seq<char>>>::empty().insert("pgtask_schedule"@, None).insert(
            "pgtask_wait"@,
            None,
        )
    } else {
        work_filters(channels.drop_last()).insert(channels.last().0@, Some(channels.last().1@))
    }
}

/// What a listener for work on some queues hears, given the channel of each.
pub fn ready_filters(channels: Vec<(String, QueueName)>) -> (result: Result<Filters, PostgresError>)
    ensures
        if channels@.len() == 0 {
            result == Err::<Filters, _>(PostgresError::MissingQueues)
        } else {
            result is Ok && result->Ok_0@ == work_filters(channels@)
        },
{
    if channels.is_empty() {
        return Err(PostgresError::MissingQueues);
    }
    let ghost given = channels@;
    let mut filters = Filters::new().with("pgtask_schedule".to_owned(), None).with(
        "pgtask_wait".to_owned(),
        None,
    );
    assert(given.take(0) =~= Seq::empty());
    for entry in iter: channels
        invariant
            iter.seq() == given,
            filters@ == work_filters(given.take(iter.index() as int)),
    {
        let ghost place = iter.index() as int;
        assert(entry == given[place]);
        assert(given.take(place + 1).drop_last() =~= given.take(place));
        let (channel, queue_name) = entry;
        filters = filters.with(channel, Some(queue_name.to_string()));
    }
    assert(given.take(given.len() as int) =~= given);
    Ok(filters)
}

/// What a listener for the result of a task hears.
pub fn result_filters(channel: String, task_id: TaskId) -> (result: Filters)
    ensures
        result@ == Map::<Seq<char>, Option<Seq<char>>>::empty().insert(
            channel@,
            Some(uuid_text(task_id.uuid.value)),
        ),
{
    Filters::new().with(channel, Some(task_id.to_string()))
}

/// The listener's part in waiting for a message.
#[derive(Debug)]
pub struct ReadyListener {
    pub filters: Filters,
}

impl ReadyListener {
    /// Decides on what was received: return something, or wait on. Messages for others and gaps
    /// are passed over.
    pub fn recv(&self, received: Received) -> (result: Option<Result<Notification, PostgresError>>)
        ensures
            match received {
                Received::Event(NotificationEvent::Ready(notification)) => result == if hears(
                    self.filters@,
                    notification@,
                ) {
                    Some(Ok::<_, PostgresError>(notification))
                } else {
                    None
                },
                Received::Event(NotificationEvent::Disconnected(message)) => result == Some(
                    Err::<Notification, _>(PostgresError::Notification(message)),
                ),
                Received::Lagged => result is None,
                Received::Closed => result is Some && fails_with(
                    result->0,
                    Fault::Notification("notification hub stopped"@),
                ),
            },
    {
        match received {
            Received::Event(NotificationEvent::Ready(notification)) => if self.filters.hears(
                &notification,
            ) {
                Some(Ok(notification))
            } else {
                None
            },
            Received::Event(NotificationEvent::Disconnected(message)) => Some(
                Err(PostgresError::Notification(message)),
            ),
            Received::Lagged => None,
            Received::Closed => Some(
                Err(PostgresError::Notification("notification hub stopped".to_owned())),
            ),
        }
    }
}

/// Reads the hub's answer to a subscription; there is none when the hub is gone.
pub fn subscribed(answer: Option<Result<(), String>>, filters: Filters) -> (result: Result<
    ReadyListener,
    PostgresError,
>)
    ensures
        match answer {
            None => fails_with(result, Fault::Notification("notification hub stopped"@)),
            Some(Err(message)) => result == Err::<ReadyListener, _>(
                PostgresError::Notification(message),
            ),
            Some(Ok(())) => result == Ok::<_, PostgresError>(ReadyListener { filters }),
        },
{
    match answer {
        None => Err(PostgresError::Notification("notification hub stopped".to_owned())),
        Some(Err(message)) => Err(PostgresError::Notification(message)),
        Some(Ok(())) => Ok(ReadyListener { filters }),
    }
}

/// What the hub is doing.
#[derive(Clone, Copy, Debug, PartialEq, Eq, Structural)]
pub enum HubPhase {
    /// No connection, waiting for a subscription.
    Waiting,
    /// Opening a connection for a subscription.
    Connecting,
    /// Listening to every channel on a fresh connection.
    Listening,
    /// Listening to every channel.
    Connected,
    /// Listening to the channels that a subscription added.
    Adding,
    /// Everybody who could subscribe is gone.
    Stopped,
}

/// The hub in the abstract: the channels of all subscriptions in the order in which they came, how
/// many of them the connection listens to, and what the hub is doing.
#[verifier::ext_equal]
pub struct HubState {
    pub channels: Seq<Seq<char>>,
    pub listened: nat,
    pub phase: HubPhase,
}

/// The hub of one connection on which all notifications arrive.
#[derive(Debug, PartialEq, Eq)]
pub struct NotificationHub {
    channels: Vec<String>,
    listened: usize,
    phase: HubPhase,
}

/// What the hub does next.
#[derive(Debug, PartialEq, Eq)]
pub enum HubAction {
    AwaitCommand,
    Connect,
    Listen(String),
    AwaitCommandOrNotification,
    Stop,
}

/// What follows from an event: an answer to the subscription at hand, an event for every listener,
/// and the next action.
#[derive(Debug, PartialEq, Eq)]
pub struct HubStep {
    pub answer: Option<Result<(), String>>,
    pub broadcast: Option<NotificationEvent>,
    pub action: HubAction,
}

/// The offered channels that are not known yet, each once, in order.
pub open spec fn fresh(known: Seq<Seq<char>>, offered: Seq<Seq<char>>) -> Seq<Seq<char>>
    decreases offered.len(),
{
    if offered.len() == 0 {
        Seq::empty()
    } else {
        let before = fresh(known, offered.drop_last());
        if (known + before).contains(offered.last()) {
            before
        } else {
            before.push(offered.last())
        }
    }
}

/// Whether a state can come about.
pub open spec fn is_hub_state(state: HubState) -> bool {
    &&& state.channels.no_duplicates()
    &&& state.listened <= state.channels.len()
    &&& match state.phase {
        HubPhase::Waiting => state.listened == 0,
        HubPhase::Connecting => state.listened == 0,
        HubPhase::Listening => state.listened < state.channels.len(),
        HubPhase::Connected => state.listened == state.channels.len(),
        HubPhase::Adding => state.listened < state.channels.len(),
        HubPhase::Stopped => true,
    }
}

/// The state in which a connection listens to `listened` channels, and to the rest next.
pub open spec fn listening_state(
    channels: Seq<Seq<char>>,
    listened: nat,
    busy: HubPhase,
) -> HubState {
    HubState {
        channels,
        listened,
        phase: if listened == channels.len() {
            HubPhase::Connected
        } else {
            busy
        },
    }
}

/// The state without a connection.
pub open spec fn lost_state(channels: Seq<Seq<char>>) -> HubState {
    HubState { channels, listened: 0, phase: HubPhase::Waiting }
}

/// The state after a subscription to `offered` channels.
pub open spec fn after_command(state: HubState, offered: Seq<Seq<char>>) -> HubState {
    let channels = state.channels + fresh(state.channels, offered);
    if state.phase == HubPhase::Connected {
        listening_state(channels, state.listened, HubPhase::Adding)
    } else {
        HubState { channels, listened: 0, phase: HubPhase::Connecting }
    }
}

/// The state after an attempt to connect.
pub open spec fn after_opened(state: HubState, opened: bool) -> HubState {
    if opened {
        listening_state(state.channels, 0, HubPhase::Listening)
    } else {
        lost_state(state.channels)
    }
}

/// The state after an attempt to listen to the next channel.
pub open spec fn after_listened(state: HubState, listened: bool) -> HubState {
    if listened {
        listening_state(state.channels, state.listened + 1, state.phase)
    } else {
        lost_state(state.channels)
    }
}

/// The state after `count` successful attempts to listen.
pub open spec fn after_listening(state: HubState, count: nat) -> HubState
    decreases count,
{
    if count == 0 {
        state
    } else {
        after_listened(after_listening(state, (count - 1) as nat), true)
    }
}

/// Whether a step goes on with a state: answer the subscription once every channel is listened
/// to, else listen to the next.
pub open spec fn goes_on(step: HubStep, state: HubState) -> bool {
    &&& step.broadcast is None
    &&& if state.phase == HubPhase::Connected {
        &&& step.answer == Some(Ok::<(), String>(()))
        &&& step.action == HubAction::AwaitCommandOrNotification
    } else {
        &&& step.answer is None
        &&& step.action is Listen
        &&& step.action->Listen_0@ == state.channels[state.listened as int]
    }
}

/// What is new is new once.
proof fn lemma_fresh(known: Seq<Seq<char>>, offered: Seq<Seq<char>>)
    requires
        known.no_duplicates(),
    ensures
        (known + fresh(known, offered)).no_duplicates(),
        forall|channel: Seq<char>|
            (known + fresh(known, offered)).contains(channel) <==> known.contains(channel)
                || offered.contains(channel),
    decreases offered.len(),
{
    if offered.len() == 0 {
        assert(known + fresh(known, offered) =~= known);
    } else {
        let earlier = offered.drop_last();
        let before = fresh(known, earlier);
        let last = offered.last();
        lemma_fresh(known, earlier);
        let all = known + fresh(known, offered);
        if !(known + before).contains(last) {
            assert(all =~= (known + before).push(last));
            assert forall|i: int, j: int| 0 <= i < j < all.len() implies all[i] != all[j] by {
                assert((known + before).contains(all[i])) by {
                    assert((known + before)[i] == all[i]);
                }
            }
        }
        assert forall|channel: Seq<char>| all.contains(channel) <==> known.contains(channel)
            || offered.contains(channel) by {
            if offered.contains(channel) {
                let at = choose|at: int| 0 <= at < offered.len() && offered[at] == channel;
                if at < earlier.len() {
                    assert(earlier[at] == channel);
                    assert(earlier.contains(channel));
                    assert((known + before).contains(channel));
                } else {
                    assert(channel == last);
                }
            }
            if earlier.contains(channel) {
                let at = choose|at: int| 0 <= at < earlier.len() && earlier[at] == channel;
                assert(offered[at] == channel);
            }
            if (known + before).contains(channel) {
                let at = choose|at: int|
                    0 <= at < (known + before).len() && (known + before)[at] == channel;
                assert(all[at] == channel);
            }
            if all.contains(channel) && channel != last {
                let at = choose|at: int| 0 <= at < all.len() && all[at] == channel;
                assert((known + before)[at] == channel);
            }
            if channel == last {
                assert(offered[offered.len() - 1] == last);
                if !(known + before).contains(last) {
                    assert(all[all.len() - 1] == last);
                }
            }
        }
    }
}

impl View for NotificationHub {
    type V = HubState;

    closed spec fn view(&self) -> HubState {
        HubState {
            channels: texts(self.channels@),
            listened: self.listened as nat,
            phase: self.phase,
        }
    }
}

impl NotificationHub {
    /// A hub without a connection and without channels.
    pub fn new() -> (result: Self)
        ensures
            result@ == lost_state(Seq::empty()),
            is_hub_state(result@),
    {
        let result = NotificationHub {
            channels: Vec::new(),
            listened: 0,
            phase: HubPhase::Waiting,
        };
        assert(result@.channels =~= Seq::<Seq<char>>::empty());
        result
    }

    pub fn phase(&self) -> (result: HubPhase)
        ensures
            result == self@.phase,
    {
        self.phase
    }

    /// Goes on to listen, or answers when there is nothing left to listen to.
    fn go_on(&mut self, busy: HubPhase) -> (result: HubStep)
        requires
            old(self)@.listened <= old(self)@.channels.len(),
            busy == HubPhase::Listening || busy == HubPhase::Adding,
        ensures
            final(self)@ == listening_state(old(self)@.channels, old(self)@.listened, busy),
            goes_on(result, final(self)@),
    {
        if self.listened == self.channels.len() {
            self.phase = HubPhase::Connected;
            HubStep {
                answer: Some(Ok(())),
                broadcast: None,
                action: HubAction::AwaitCommandOrNotification,
            }
        } else {
            self.phase = busy;
            HubStep {
                answer: None,
                broadcast: None,
                action: HubAction::Listen(self.channels[self.listened].clone()),
            }
        }
    }

    /// A subscription came. Without a connection one is opened first.
    pub fn on_command(&mut self, offered: Vec<String>) -> (result: HubStep)
        requires
            is_hub_state(old(self)@),
            old(self)@.phase == HubPhase::Waiting || old(self)@.phase == HubPhase::Connected,
        ensures
            is_hub_state(final(self)@),
            final(self)@ == after_command(old(self)@, texts(offered@)),
            if old(self)@.phase == HubPhase::Connected {
                goes_on(result, final(self)@)
            } else {
                result == (HubStep { answer: None, broadcast: None, action: HubAction::Connect })
            },
    {
        let ghost known = self@.channels;
        let ghost given = offered@;
        let ghost before = *self;
        proof {
            lemma_fresh(known, texts(given));
            assert(texts(given.take(0)) =~= Seq::<Seq<char>>::empty());
            assert(known + fresh(known, texts(given.take(0))) =~= known);
        }
        for channel in iter: offered
            invariant
                iter.seq() == given,
                self.listened == before.listened,
                self.phase == before.phase,
                texts(self.channels@) == known + fresh(
                    known,
                    texts(given.take(iter.index() as int)),
                ),
        {
            let ghost place = iter.index() as int;
            let ghost sofar = fresh(known, texts(given.take(place)));
            assert(channel == given[place]);
            assert(texts(given.take(place + 1)).drop_last() =~= texts(given.take(place)));
            assert(texts(given.take(place + 1)).last() == channel@);
            if !contains_text(&self.channels, channel.as_str()) {
                let ghost held = self.channels@;
                self.channels.push(channel);
                assert(texts(self.channels@) =~= texts(held).push(channel@));
                assert((known + sofar).push(channel@) =~= known + sofar.push(channel@));
            }
        }
        assert(given.take(given.len() as int) =~= given);
        let connected = match self.phase {
            HubPhase::Connected => true,
            _ => false,
        };
        if connected {
            self.go_on(HubPhase::Adding)
        } else {
            self.listened = 0;
            self.phase = HubPhase::Connecting;
            HubStep { answer: None, broadcast: None, action: HubAction::Connect }
        }
    }

    /// Nobody is left who could subscribe.
    pub fn on_closed(&mut self) -> (result: HubStep)
        requires
            is_hub_state(old(self)@),
            old(self)@.phase == HubPhase::Waiting || old(self)@.phase == HubPhase::Connected,
        ensures
            is_hub_state(final(self)@),
            final(self)@ == (HubState { phase: HubPhase::Stopped, ..old(self)@ }),
            result == (HubStep { answer: None, broadcast: None, action: HubAction::Stop }),
    {
        self.phase = HubPhase::Stopped;
        HubStep { answer: None, broadcast: None, action: HubAction::Stop }
    }

    /// The attempt to connect came to an end, with an error or without.
    pub fn on_opened(&mut self, error: Option<String>) -> (result: HubStep)
        requires
            is_hub_state(old(self)@),
            old(self)@.phase == HubPhase::Connecting,
        ensures
            is_hub_state(final(self)@),
            final(self)@ == after_opened(old(self)@, error is None),
            match error {
                Some(message) => result == (HubStep {
                    answer: Some(Err::<(), _>(message)),
                    broadcast: None,
                    action: HubAction::AwaitCommand,
                }),
                None => goes_on(result, final(self)@),
            },
    {
        self.listened = 0;
        match error {
            Some(message) => {
                self.phase = HubPhase::Waiting;
                HubStep {
                    answer: Some(Err(message)),
                    broadcast: None,
                    action: HubAction::AwaitCommand,
                }
            },
            None => self.go_on(HubPhase::Listening),
        }
    }

    /// The attempt to listen to a channel came to an end, with an error or without. An error drops
    /// the connection; one that had been in use is reported to every listener.
    pub fn on_listened(&mut self, error: Option<String>) -> (result: HubStep)
        requires
            is_hub_state(old(self)@),
            old(self)@.phase == HubPhase::Listening || old(self)@.phase == HubPhase::Adding,
        ensures
            is_hub_state(final(self)@),
            final(self)@ == after_listened(old(self)@, error is None),
            match error {
                Some(message) => result == (HubStep {
                    answer: Some(Err::<(), _>(message)),
                    broadcast: if old(self)@.phase == HubPhase::Adding {
                        Some(NotificationEvent::Disconnected(message))
                    } else {
                        None
                    },
                    action: HubAction::AwaitCommand,
                }),
                None => goes_on(result, final(self)@),
            },
    {
        match error {
            Some(message) => {
                let broadcast = match self.phase {
                    HubPhase::Adding => Some(NotificationEvent::Disconnected(message.clone())),
                    _ => None,
                };
                self.listened = 0;
                self.phase = HubPhase::Waiting;
                HubStep { answer: Some(Err(message)), broadcast, action: HubAction::AwaitCommand }
            },
            None => {
                assert(self@.channels.len() == self.channels.len());
                self.listened += 1;
                let busy = self.phase;
                self.go_on(busy)
            },
        }
    }

    /// A notification came, or the connection was lost.
    pub fn on_notification(&mut self, notification: Result<Notification, String>) -> (result: HubStep)
        requires
            is_hub_state(old(self)@),
            old(self)@.phase == HubPhase::Connected,
        ensures
            is_hub_state(final(self)@),
            match notification {
                Ok(notification) => {
                    &&& final(self)@ == old(self)@
                    &&& result == (HubStep {
                        answer: None,
                        broadcast: Some(NotificationEvent::Ready(notification)),
                        action: HubAction::AwaitCommandOrNotification,
                    })
                },
                Err(message) => {
                    &&& final(self)@ == lost_state(old(self)@.channels)
                    &&& result == (HubStep {
                        answer: None,
                        broadcast: Some(NotificationEvent::Disconnected(message)),
                        action: HubAction::AwaitCommand,
                    })
                },
            },
    {
        match notification {
            Ok(notification) => HubStep {
                answer: None,
                broadcast: Some(NotificationEvent::Ready(notification)),
                action: HubAction::AwaitCommandOrNotification,
            },
            Err(message) => {
                self.listened = 0;
                self.phase = HubPhase::Waiting;
                HubStep {
                    answer: None,
                    broadcast: Some(NotificationEvent::Disconnected(message)),
                    action: HubAction::AwaitCommand,
                }
            },
        }
    }
}

/// A subscription that is answered with success has its channels listened to, and so have all the
/// subscriptions before it.
pub proof fn confirmed_channels_are_listened_to(step: HubStep, state: HubState)
    requires
        is_hub_state(state),
        goes_on(step, state),
        step.answer is Some,
    ensures
        state.listened == state.channels.len(),
{
}

/// No event makes the hub forget a channel: a subscription adds its own, and everything else
/// leaves the channels as they are.
pub proof fn channels_are_never_forgotten(
    state: HubState,
    offered: Seq<Seq<char>>,
    success: bool,
    channel: Seq<char>,
)
    requires
        is_hub_state(state),
        state.channels.contains(channel) || offered.contains(channel),
    ensures
        after_command(state, offered).channels.contains(channel),
        state.channels.contains(channel) ==> after_opened(state, success).channels.contains(channel),
        state.channels.contains(channel) ==> after_listened(state, success).channels.contains(
            channel,
        ),
        state.channels.contains(channel) ==> lost_state(state.channels).channels.contains(channel),
{
    lemma_fresh(state.channels, offered);
}

/// After a lost connection, one more subscription has every channel listened to again, the old
/// ones and its own.
pub proof fn reconnecting_restores_every_channel(state: HubState, offered: Seq<Seq<char>>)
    requires
        is_hub_state(state),
        state.phase == HubPhase::Waiting,
    ensures
        ({
            let channels = state.channels + fresh(state.channels, offered);
            let opened = after_opened(after_command(state, offered), true);
            after_listening(opened, channels.len()) == (HubState {
                channels,
                listened: channels.len(),
                phase: HubPhase::Connected,
            })
        }),
{
    let channels = state.channels + fresh(state.channels, offered);
    let opened = after_opened(after_command(state, offered), true);
    lemma_after_listening(opened, channels.len(), HubPhase::Listening);
}

proof fn lemma_after_listening(state: HubState, count: nat, busy: HubPhase)
    requires
        state == listening_state(state.channels, 0, busy),
        count <= state.channels.len(),
    ensures
        after_listening(state, count) == listening_state(state.channels, count, busy),
    decreases count,
{
    if count > 0 {
        lemma_after_listening(state, (count - 1) as nat, busy);
    }
}

/// A filter on a channel hears the channel's messages, all of them or those with its payload, and
/// nothing of other channels.
pub proof fn messages_are_heard_by_their_filters(
    filters: Map<Seq<char>, Option<Seq<char>>>,
    channel: Seq<char>,
    payload: Seq<char>,
    message: Message,
)
    ensures
        !hears(Map::empty(), message),
        message.channel == channel ==> hears(filters.insert(channel, None), message),
        message.channel == channel ==> (hears(filters.insert(channel, Some(payload)), message)
            <==> message.payload == payload),
        message.channel != channel ==> hears(filters.insert(channel, None), message) == hears(
            filters,
            message,
        ),
        message.channel != channel ==> hears(filters.insert(channel, Some(payload)), message)
            == hears(filters, message),
        message.channel == channel ==> !hears(filters.remove(channel), message),
{
}

/// A worker hears the messages of its queues on their channels, every message that speaks of
/// schedules or waits, and nothing else.
pub proof fn workers_hear_their_own_queues(channels: Seq<(String, QueueName)>, message: Message)
    ensures
        (message.channel == "pgtask_schedule"@ || message.channel == "pgtask_wait"@) && (forall|
            i: int,
        | 0 <= i < channels.len() ==> (#[trigger] channels[i]).0@ != message.channel) ==> hears(
            work_filters(channels),
            message,
        ),
        forall|place: int|
            0 <= place < channels.len() && (#[trigger] channels[place]).0@ == message.channel && (
            forall|i: int|
                place < i < channels.len() ==> (#[trigger] channels[i]).0@ != message.channel)
                ==> (hears(work_filters(channels), message) <==> message.payload
                == channels[place].1@),
        hears(work_filters(channels), message) ==> message.channel == "pgtask_schedule"@
            || message.channel == "pgtask_wait"@ || exists|i: int|
            0 <= i < channels.len() && (#[trigger] channels[i]).0@ == message.channel
                && channels[i].1@ == message.payload,
    decreases channels.len(),
{
    if channels.len() > 0 {
        let earlier = channels.drop_last();
        let last = channels[channels.len() - 1];
        workers_hear_their_own_queues(earlier, message);
        if last.0@ != message.channel {
            if hears(work_filters(earlier), message) && message.channel != "pgtask_schedule"@
                && message.channel != "pgtask_wait"@ {
                let i = choose|i: int|
                    0 <= i < earlier.len() && (#[trigger] earlier[i]).0@ == message.channel
                        && earlier[i].1@ == message.payload;
                assert(channels[i].0@ == message.channel);
            }
            if forall|i: int|
                0 <= i < channels.len() ==> (#[trigger] channels[i]).0@ != message.channel {
                assert forall|i: int| 0 <= i < earlier.len() implies (#[trigger] earlier[i]).0@
                    != message.channel by {
                    assert(channels[i].0@ != message.channel);
                }
            }
            assert forall|place: int|
                0 <= place < channels.len() && (#[trigger] channels[place]).0@ == message.channel
                    && (forall|i: int|
                    place < i < channels.len() ==> (#[trigger] channels[i]).0@ != message.channel)
                implies (hears(work_filters(channels), message) <==> message.payload
                == channels[place].1@) by {
                assert(earlier[place] == channels[place]);
                assert forall|i: int| place < i < earlier.len() implies (
                #[trigger] earlier[i]).0@ != message.channel by {
                    assert(channels[i].0@ != message.channel);
                }
            }
        } else {
            assert(channels[channels.len() - 1].0@ == message.channel);
            assert forall|place: int|
                0 <= place < channels.len() && (#[trigger] channels[place]).0@ == message.channel
                    && (forall|i: int|
                    place < i < channels.len() ==> (#[trigger] channels[i]).0@ != message.channel)
                implies place == channels.len() - 1 by {
            }
        }
    }
}

/// A subscription adds the channels that are not there yet, each once, in the order in which it
/// names them.
pub proof fn channels_are_added_once(
    known: Seq<Seq<char>>,
    offered: Seq<Seq<char>>,
    channel: Seq<char>,
)
    requires
        known.no_duplicates(),
    ensures
        (known + fresh(known, offered)).no_duplicates(),
        (known + fresh(known, offered)).contains(channel) <==> known.contains(channel)
            || offered.contains(channel),
        fresh(known, offered.push(channel)) == if known.contains(channel) || offered.contains(
            channel,
        ) {
            fresh(known, offered)
        } else {
            fresh(known, offered).push(channel)
        },
        fresh(known, Seq::empty()) == Seq::<Seq<char>>::empty(),
{
    lemma_fresh(known, offered);
    assert(offered.push(channel).drop_last() =~= offered);
}

/// A hub listens to its channels one after the other: it is connected when it has listened to the
/// last, and a failure makes it wait and begin again with the first.
pub proof fn hubs_listen_one_by_one(state: HubState, offered: Seq<Seq<char>>)
    requires
        is_hub_state(state),
    ensures
        after_opened(state, true).channels == state.channels,
        after_opened(state, true).listened == 0,
        after_opened(state, true).phase == HubPhase::Connected <==> state.channels.len() == 0,
        after_opened(state, true).phase == HubPhase::Listening <==> state.channels.len() > 0,
        after_listened(state, true).channels == state.channels,
        after_listened(state, true).listened == state.listened + 1,
        state.listened + 1 == state.channels.len() ==> after_listened(state, true).phase
            == HubPhase::Connected,
        state.listened + 1 < state.channels.len() ==> after_listened(state, true).phase
            == state.phase,
        after_opened(state, false).phase == HubPhase::Waiting,
        after_opened(state, false).channels == state.channels,
        after_opened(state, false).listened == 0,
        after_listened(state, false).phase == HubPhase::Waiting,
        after_listened(state, false).channels == state.channels,
        after_listened(state, false).listened == 0,
        lost_state(state.channels).phase == HubPhase::Waiting,
        lost_state(state.channels).listened == 0,
        state.phase == HubPhase::Connected ==> after_command(state, offered).listened
            == state.listened,
        state.phase == HubPhase::Connected ==> (after_command(state, offered).phase
            == HubPhase::Connected <==> forall|i: int|
            0 <= i < offered.len() ==> state.channels.contains(#[trigger] offered[i])),
        state.phase == HubPhase::Connected && after_command(state, offered).phase
            != HubPhase::Connected ==> after_command(state, offered).phase == HubPhase::Adding,
        state.phase != HubPhase::Connected ==> after_command(state, offered).phase
            == HubPhase::Connecting && after_command(state, offered).listened == 0,
        after_command(state, offered).channels.take(state.channels.len() as int) == state.channels,
{
    lemma_fresh(state.channels, offered);
    let added = fresh(state.channels, offered);
    let all = state.channels + added;
    assert(all.take(state.channels.len() as int) =~= state.channels);
    if added.len() == 0 {
        assert(all =~= state.channels);
        assert forall|i: int| 0 <= i < offered.len() implies state.channels.contains(
            #[trigger] offered[i],
        ) by {
            assert(offered.contains(offered[i]));
        }
    } else {
        let channel = added[0];
        assert(all[state.channels.len() as int] == channel);
        assert(all.contains(channel));
        if state.channels.contains(channel) {
            let at = state.channels.index_of(channel);
            assert(all[at] == channel);
            assert(false);
        }
        let at = offered.index_of(channel);
        assert(offered[at] == channel);
    }
}

/// A subscription is answered when, and only when, nothing is left to listen to; until then the
/// next channel is listened to.
pub proof fn subscriptions_are_answered_at_the_end(step: HubStep, state: HubState)
    requires
        is_hub_state(state),
        goes_on(step, state),
    ensures
        step.answer is Some <==> state.phase == HubPhase::Connected,
        step.answer is Some ==> step.answer->0 is Ok,
        step.broadcast is None,
        state.phase == HubPhase::Connected ==> step.action
            == HubAction::AwaitCommandOrNotification,
        state.phase != HubPhase::Connected ==> step.action is Listen && step.action->Listen_0@
            == state.channels[state.listened as int],
{
}

} // verus!
