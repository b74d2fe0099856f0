//! The decisions of the task-update websocket: whether a connection is fed
//! task updates, what is sent for each update, and when the feed stops.
//! The socket itself (accepting the connection, awaiting the broadcast
//! channel, writing frames) is driven from outside; each callback hands an
//! event to `TaskWs` and performs the action it returns.
use vstd::prelude::*;

verus! {

/// Where a connection's task feed stands.
pub enum FeedState {
    /// Not started yet; `subscribed` tells whether the server had a task
    /// broadcast to subscribe to when the connection opened.
    Pending { subscribed: bool },
    /// Task updates are being forwarded to the client.
    Streaming,
    /// The subscription failed or closed; nothing more is forwarded.
    Ended,
    /// Started without a subscription; the socket stays open and silent.
    Silent,
}

/// What the subscription yields: one task update, or its failure (the
/// channel closed, or this receiver fell behind).
pub enum FeedItem {
    Update(Vec<u8>),
    Failed,
}

/// What to do when the connection starts.
pub enum StartAction {
    /// Attach the subscription as a stream of `FeedItem`s.
    AttachFeed,
    /// Nothing to attach.
    Nothing,
}

/// What to do with one item of the feed.
pub enum FeedAction {
    /// Send these bytes to the client as one binary frame.
    SendBinary(Vec<u8>),
    /// Stop reading the feed.
    StopFeed,
    /// Do nothing.
    Nothing,
}

/// One websocket connection that receives task updates.
pub struct TaskWs {
    pub state: FeedState,
}

/// The state and action that follow starting a connection in `state`.
pub open spec fn next_on_start(state: FeedState) -> (FeedState, StartAction) {
    match state {
        FeedState::Pending { subscribed } => if subscribed {
            (FeedState::Streaming, StartAction::AttachFeed)
        } else {
            (FeedState::Silent, StartAction::Nothing)
        },
        _ => (state, StartAction::Nothing),
    }
}

/// The state and action that follow a feed item arriving in `state`.
pub open spec fn next_on_feed(state: FeedState, item: FeedItem) -> (FeedState, FeedAction) {
    match state {
        FeedState::Streaming => match item {
            FeedItem::Update(bytes) => (FeedState::Streaming, FeedAction::SendBinary(bytes)),
            FeedItem::Failed => (FeedState::Ended, FeedAction::StopFeed),
        },
        _ => (state, FeedAction::Nothing),
    }
}

impl TaskWs {
    /// A connection opened with (`subscribed`) or without a subscription to
    /// the task broadcast.
    pub fn new(subscribed: bool) -> (ws: Self)
        ensures
            ws.state == (FeedState::Pending { subscribed }),
    {
        TaskWs { state: FeedState::Pending { subscribed } }
    }

    /// The connection has started: attach the feed if there is a subscription.
    pub fn started(&mut self) -> (action: StartAction)
        ensures
            (final(self).state, action) == next_on_start(old(self).state),
    {
        match self.state {
            FeedState::Pending { subscribed } => {
                if subscribed {
                    self.state = FeedState::Streaming;
                    StartAction::AttachFeed
                } else {
                    self.state = FeedState::Silent;
                    StartAction::Nothing
                }
            },
            _ => StartAction::Nothing,
        }
    }

    /// An item of the feed arrived: forward an update while streaming, and
    /// stop at the first failure.
    pub fn on_feed(&mut self, item: FeedItem) -> (action: FeedAction)
        ensures
            (final(self).state, action) == next_on_feed(old(self).state, item),
    {
        match self.state {
            FeedState::Streaming => match item {
                FeedItem::Update(bytes) => FeedAction::SendBinary(bytes),
                FeedItem::Failed => {
                    self.state = FeedState::Ended;
                    FeedAction::StopFeed
                },
            },
            _ => FeedAction::Nothing,
        }
    }

    /// A message from the client: it is ignored.
    pub fn handle(&mut self)
        ensures
            final(self).state == old(self).state,
    {
    }
}

/// The payloads sent, in order, when `items` arrive one after another on a
/// connection in `state`.
pub open spec fn sent_payloads(state: FeedState, items: Seq<FeedItem>) -> Seq<Vec<u8>>
    decreases items.len(),
{
    if items.len() == 0 {
        Seq::empty()
    } else {
        let (next, action) = next_on_feed(state, items[0]);
        let rest = sent_payloads(next, items.drop_first());
        match action {
            FeedAction::SendBinary(bytes) => seq![bytes] + rest,
            _ => rest,
        }
    }
}

/// The updates of `items` that come before its first failure.
pub open spec fn updates_before_failure(items: Seq<FeedItem>) -> Seq<Vec<u8>>
    decreases items.len(),
{
    if items.len() == 0 {
        Seq::empty()
    } else {
        match items[0] {
            FeedItem::Update(bytes) => seq![bytes] + updates_before_failure(items.drop_first()),
            FeedItem::Failed => Seq::empty(),
        }
    }
}

/// A connection that is not streaming sends nothing, whatever arrives.
pub proof fn law_no_stream_sends_nothing(state: FeedState, items: Seq<FeedItem>)
    requires
        !(state is Streaming),
    ensures
        sent_payloads(state, items) == Seq::<Vec<u8>>::empty(),
    decreases items.len(),
{
    if items.len() > 0 {
        law_no_stream_sends_nothing(state, items.drop_first());
    }
}

/// A streaming connection forwards every update, unchanged and in order,
/// until the first failure, and nothing after it.
pub proof fn law_streaming_forwards_until_failure(items: Seq<FeedItem>)
    ensures
        sent_payloads(FeedState::Streaming, items) == updates_before_failure(items),
    decreases items.len(),
{
    if items.len() > 0 {
        match items[0] {
            FeedItem::Update(bytes) => {
                law_streaming_forwards_until_failure(items.drop_first());
            },
            FeedItem::Failed => {
                law_no_stream_sends_nothing(FeedState::Ended, items.drop_first());
            },
        }
    }
}

/// A connection opened with a subscription, once started, sends the client
/// exactly the task updates broadcast before the subscription fails.
pub proof fn law_subscribed_connection_receives_updates(items: Seq<FeedItem>)
    ensures
        next_on_start(FeedState::Pending { subscribed: true }).1 is AttachFeed,
        sent_payloads(next_on_start(FeedState::Pending { subscribed: true }).0, items)
            == updates_before_failure(items),
{
    law_streaming_forwards_until_failure(items);
}

/// A connection opened without a subscription is never sent anything.
pub proof fn law_unsubscribed_connection_stays_silent(items: Seq<FeedItem>)
    ensures
        next_on_start(FeedState::Pending { subscribed: false }).1 is Nothing,
        sent_payloads(next_on_start(FeedState::Pending { subscribed: false }).0, items)
            == Seq::<Vec<u8>>::empty(),
{
    law_no_stream_sends_nothing(FeedState::Silent, items);
}

} // verus!
