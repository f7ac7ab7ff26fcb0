//! The synchronization tasks: which streams the agent subscribes to, and
//! what each task does with what its stream hands it. The tasks share
//! nothing but the store.

use crate::error::{Status, StatusView};
use crate::market::{MarketData, MarketDataView, Position, PositionView};
use crate::store::{position_views, StoreView, VegaStore};
use vstd::prelude::*;
use vstd::string::StringExecFns;

verus! {

/// One streaming subscription of the agent.
#[derive(Debug, PartialEq, Eq)]
pub enum Subscription {
    /// The statistics of one market.
    MarketData { market_id: String },
    /// The positions of one account in one market.
    Positions { party_id: String, market_id: String },
}

/// The mathematical value of a [`Subscription`].
pub enum SubscriptionView {
    MarketData { market_id: Seq<char> },
    Positions { party_id: Seq<char>, market_id: Seq<char> },
}

impl View for Subscription {
    type V = SubscriptionView;

    open spec fn view(&self) -> SubscriptionView {
        match *self {
            Subscription::MarketData { market_id } => SubscriptionView::MarketData {
                market_id: market_id@,
            },
            Subscription::Positions { party_id, market_id } => SubscriptionView::Positions {
                party_id: party_id@,
                market_id: market_id@,
            },
        }
    }
}

/// The subscriptions of the agent: the market's statistics, then the
/// positions of the first account, then those of the second.
pub open spec fn subscriptions(
    market: Seq<char>,
    pubkey1: Seq<char>,
    pubkey2: Seq<char>,
) -> Seq<SubscriptionView> {
    seq![
        SubscriptionView::MarketData { market_id: market },
        SubscriptionView::Positions { party_id: pubkey1, market_id: market },
        SubscriptionView::Positions { party_id: pubkey2, market_id: market },
    ]
}

/// The streams to keep the store fresh from, one task each.
pub fn update_forever(market: &str, pubkey1: &str, pubkey2: &str) -> (subs: Vec<Subscription>)
    ensures
        subs@.map_values(|s: Subscription| s@) == subscriptions(market@, pubkey1@, pubkey2@),
{
    let mut subs: Vec<Subscription> = Vec::new();
    subs.push(Subscription::MarketData { market_id: String::from_str(market) });
    subs.push(
        Subscription::Positions {
            party_id: String::from_str(pubkey1),
            market_id: String::from_str(market),
        },
    );
    subs.push(
        Subscription::Positions {
            party_id: String::from_str(pubkey2),
            market_id: String::from_str(market),
        },
    );
    assert(subs@.map_values(|s: Subscription| s@) =~= subscriptions(market@, pubkey1@, pubkey2@));
    subs
}

/// What the market-data stream hands to its task.
#[derive(Debug, PartialEq, Eq)]
pub enum MarketDataEvent {
    /// The subscription could not be opened.
    OpenFailed(Status),
    /// One message: statistics in the order in which the venue lists them.
    Message(Vec<MarketData>),
    /// One message did not arrive; the stream is still live.
    DeliveryFailed(Status),
    /// The venue closed the stream.
    Closed,
}

/// The mathematical value of a [`MarketDataEvent`].
pub enum MarketDataEventView {
    OpenFailed(StatusView),
    Message(Seq<MarketDataView>),
    DeliveryFailed(StatusView),
    Closed,
}

impl View for MarketDataEvent {
    type V = MarketDataEventView;

    open spec fn view(&self) -> MarketDataEventView {
        match *self {
            MarketDataEvent::OpenFailed(status) => MarketDataEventView::OpenFailed(status@),
            MarketDataEvent::Message(list) => MarketDataEventView::Message(
                list@.map_values(|md: MarketData| md@),
            ),
            MarketDataEvent::DeliveryFailed(status) => MarketDataEventView::DeliveryFailed(status@),
            MarketDataEvent::Closed => MarketDataEventView::Closed,
        }
    }
}

/// What a position stream hands to its task.
#[derive(Debug, PartialEq, Eq)]
pub enum PositionsEvent {
    /// The subscription could not be opened.
    OpenFailed(Status),
    /// One message with the positions as they stand.
    Snapshot(Vec<Position>),
    /// One message with the positions that changed.
    Updates(Vec<Position>),
    /// One message that holds neither.
    Empty,
    /// One message did not arrive; the stream is still live.
    DeliveryFailed(Status),
    /// The venue closed the stream.
    Closed,
}

/// The mathematical value of a [`PositionsEvent`].
pub enum PositionsEventView {
    OpenFailed(StatusView),
    Snapshot(Seq<PositionView>),
    Updates(Seq<PositionView>),
    Empty,
    DeliveryFailed(StatusView),
    Closed,
}

impl View for PositionsEvent {
    type V = PositionsEventView;

    open spec fn view(&self) -> PositionsEventView {
        match *self {
            PositionsEvent::OpenFailed(status) => PositionsEventView::OpenFailed(status@),
            PositionsEvent::Snapshot(list) => PositionsEventView::Snapshot(position_views(list@)),
            PositionsEvent::Updates(list) => PositionsEventView::Updates(position_views(list@)),
            PositionsEvent::Empty => PositionsEventView::Empty,
            PositionsEvent::DeliveryFailed(status) => PositionsEventView::DeliveryFailed(status@),
            PositionsEvent::Closed => PositionsEventView::Closed,
        }
    }
}

/// What a task does next.
#[derive(Debug, PartialEq, Eq)]
pub enum SyncAction {
    /// Wait for the next message.
    Continue,
    /// Record this line, then wait for the next message.
    Report(String),
    /// End the task; nothing restarts it.
    Stop,
    /// The task cannot run at all: stop it for good with this status.
    Abort(Status),
}

/// The mathematical value of a [`SyncAction`].
pub enum SyncActionView {
    Continue,
    Report(Seq<char>),
    Stop,
    Abort(StatusView),
}

impl View for SyncAction {
    type V = SyncActionView;

    open spec fn view(&self) -> SyncActionView {
        match *self {
            SyncAction::Continue => SyncActionView::Continue,
            SyncAction::Report(line) => SyncActionView::Report(line@),
            SyncAction::Stop => SyncActionView::Stop,
            SyncAction::Abort(status) => SyncActionView::Abort(status@),
        }
    }
}

/// The line that records a message that did not arrive: what could not be
/// loaded, the status as it prints, and the status's message.
pub open spec fn delivery_report(what: Seq<char>, status: StatusView) -> Seq<char> {
    "could not load "@ + what + ": "@ + status.text + " - "@ + status.message
}

/// The store after one message of market statistics: each record replaces
/// the one before it, so the last of the message stays; an empty message
/// changes nothing.
pub open spec fn store_after_market_data(s: StoreView, list: Seq<MarketDataView>) -> StoreView {
    if list.len() == 0 {
        s
    } else {
        s.save_market_data(list.last())
    }
}

/// The store after one event of the market-data stream.
pub open spec fn store_after_market_data_event(
    s: StoreView,
    event: MarketDataEventView,
) -> StoreView {
    match event {
        MarketDataEventView::Message(list) => store_after_market_data(s, list),
        _ => s,
    }
}

/// What the market-data task does after one event of its stream.
pub open spec fn action_after_market_data_event(event: MarketDataEventView) -> SyncActionView {
    match event {
        MarketDataEventView::OpenFailed(status) => SyncActionView::Abort(status),
        MarketDataEventView::Message(_) => SyncActionView::Continue,
        MarketDataEventView::DeliveryFailed(status) => SyncActionView::Report(
            delivery_report("market data"@, status),
        ),
        MarketDataEventView::Closed => SyncActionView::Stop,
    }
}

/// The store after one event of a position stream. A snapshot and a list of
/// updates are applied alike: each position replaces the entry of its
/// account.
pub open spec fn store_after_positions_event(s: StoreView, event: PositionsEventView) -> StoreView {
    match event {
        PositionsEventView::Snapshot(list) => s.save_positions(list),
        PositionsEventView::Updates(list) => s.save_positions(list),
        _ => s,
    }
}

/// What a position task does after one event of its stream.
pub open spec fn action_after_positions_event(event: PositionsEventView) -> SyncActionView {
    match event {
        PositionsEventView::OpenFailed(status) => SyncActionView::Abort(status),
        PositionsEventView::Snapshot(_) => SyncActionView::Continue,
        PositionsEventView::Updates(_) => SyncActionView::Continue,
        PositionsEventView::Empty => SyncActionView::Continue,
        PositionsEventView::DeliveryFailed(status) => SyncActionView::Report(
            delivery_report("position"@, status),
        ),
        PositionsEventView::Closed => SyncActionView::Stop,
    }
}

/// Of two messages of market statistics the later one stays, unless it is
/// empty; nothing of the earlier one is mixed into it.
pub proof fn lemma_later_message_stays(
    s: StoreView,
    first: Seq<MarketDataView>,
    second: Seq<MarketDataView>,
)
    ensures
        second.len() > 0 ==> store_after_market_data(store_after_market_data(s, first), second)
            == store_after_market_data(s, second),
        second.len() > 0 ==> store_after_market_data(
            store_after_market_data(s, first),
            second,
        ).market_data == second.last(),
        second.len() == 0 ==> store_after_market_data(store_after_market_data(s, first), second)
            == store_after_market_data(s, first),
{
}

/// A snapshot and a list of updates with the same positions leave the same
/// store, and no event but these two changes the store.
pub proof fn lemma_snapshot_and_updates_alike(s: StoreView, list: Seq<PositionView>)
    ensures
        store_after_positions_event(s, PositionsEventView::Snapshot(list))
            == store_after_positions_event(s, PositionsEventView::Updates(list)),
        store_after_positions_event(s, PositionsEventView::Snapshot(list)) == s.save_positions(
            list,
        ),
        forall|e: PositionsEventView|
            !(e is Snapshot) && !(e is Updates) ==> #[trigger] store_after_positions_event(s, e)
                == s,
{
}

/// Builds the line that records a message that did not arrive.
fn report_line(what: &str, status: &Status) -> (line: String)
    ensures
        line@ == delivery_report(what@, status@),
{
    let mut line = String::from_str("could not load ");
    line.append(what);
    line.append(": ");
    line.append(status.text.as_str());
    line.append(" - ");
    line.append(status.message.as_str());
    line
}

/// One step of the market-data task: applies a message to the store and
/// says what the task does next.
///
/// A failure to open the stream stops the task for good. A message that
/// did not arrive is recorded and skipped. The end of the stream ends the
/// task.
pub fn update_market_data(store: &mut VegaStore, event: MarketDataEvent) -> (action: SyncAction)
    ensures
        final(store)@ == store_after_market_data_event(old(store)@, event@),
        action@ == action_after_market_data_event(event@),
{
    match event {
        MarketDataEvent::OpenFailed(status) => SyncAction::Abort(status),
        MarketDataEvent::Message(list) => {
            let mut i: usize = 0;
            while i < list.len()
                invariant
                    i <= list.len(),
                    store@ == store_after_market_data(
                        old(store)@,
                        list@.map_values(|md: MarketData| md@).take(i as int),
                    ),
                decreases list.len() - i,
            {
                store.save_market_data(list[i].clone());
                i += 1;
            }
            assert(list@.map_values(|md: MarketData| md@).take(i as int) =~= list@.map_values(
                |md: MarketData| md@,
            ));
            SyncAction::Continue
        },
        MarketDataEvent::DeliveryFailed(status) => SyncAction::Report(
            report_line("market data", &status),
        ),
        MarketDataEvent::Closed => SyncAction::Stop,
    }
}

/// One step of a position task: applies a message to the store and says
/// what the task does next.
///
/// A failure to open the stream stops the task for good. A message that
/// did not arrive is recorded and skipped. The end of the stream ends the
/// task.
pub fn update_position(store: &mut VegaStore, event: PositionsEvent) -> (action: SyncAction)
    ensures
        final(store)@ == store_after_positions_event(old(store)@, event@),
        action@ == action_after_positions_event(event@),
{
    match event {
        PositionsEvent::OpenFailed(status) => SyncAction::Abort(status),
        PositionsEvent::Snapshot(list) => {
            store.save_positions(list);
            SyncAction::Continue
        },
        PositionsEvent::Updates(list) => {
            store.save_positions(list);
            SyncAction::Continue
        },
        PositionsEvent::Empty => SyncAction::Continue,
        PositionsEvent::DeliveryFailed(status) => SyncAction::Report(
            report_line("position", &status),
        ),
        PositionsEvent::Closed => SyncAction::Stop,
    }
}

} // verus!
