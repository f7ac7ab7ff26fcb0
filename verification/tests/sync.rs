use vega_market_maker::error::Status;
use vega_market_maker::market::{Asset, Market, MarketData, Position, Product};
use vega_market_maker::store::VegaStore;
use vega_market_maker::sync::{
    update_forever, update_market_data, update_position, MarketDataEvent, PositionsEvent,
    Subscription, SyncAction,
};

fn sync_store() -> VegaStore {
    VegaStore::new(
        Market {
            id: "mkt".to_string(),
            name: "BTC/USD".to_string(),
            decimal_places: 2,
            position_decimal_places: 0,
            product: Product::Future { settlement_asset: "usd".to_string() },
        },
        sync_data("100", "200", 1),
        vec![Asset { id: "usd".to_string(), decimals: 5 }],
    )
}

fn sync_data(bid: &str, offer: &str, stamp: i64) -> MarketData {
    MarketData {
        market: "mkt".to_string(),
        best_bid_price: bid.to_string(),
        best_bid_volume: 1,
        best_offer_price: offer.to_string(),
        best_offer_volume: 2,
        timestamp: stamp,
    }
}

fn sync_position(party: &str, volume: i64) -> Position {
    Position { party_id: party.to_string(), market_id: "mkt".to_string(), open_volume: volume }
}

fn unavailable() -> Status {
    Status {
        text: "status: Unavailable, message: \"gone\"".to_string(),
        message: "gone".to_string(),
    }
}

#[test]
fn the_agent_subscribes_to_the_market_and_to_both_accounts() {
    let subs = update_forever("mkt", "alice", "bob");
    assert_eq!(
        subs,
        vec![
            Subscription::MarketData { market_id: "mkt".to_string() },
            Subscription::Positions { party_id: "alice".to_string(), market_id: "mkt".to_string() },
            Subscription::Positions { party_id: "bob".to_string(), market_id: "mkt".to_string() },
        ]
    );
}

#[test]
fn a_market_data_message_replaces_the_statistics() {
    let mut s = sync_store();
    let action = update_market_data(&mut s, MarketDataEvent::Message(vec![sync_data("5", "7", 2)]));
    assert_eq!(action, SyncAction::Continue);
    assert_eq!(s.get_market_data(), sync_data("5", "7", 2));
}

#[test]
fn of_several_records_in_one_message_the_last_stays() {
    let mut s = sync_store();
    let action = update_market_data(
        &mut s,
        MarketDataEvent::Message(vec![
            sync_data("5", "7", 2),
            sync_data("6", "8", 3),
            sync_data("9", "11", 4),
        ]),
    );
    assert_eq!(action, SyncAction::Continue);
    assert_eq!(s.get_market_data(), sync_data("9", "11", 4));
}

#[test]
fn an_empty_market_data_message_changes_nothing() {
    let mut s = sync_store();
    let action = update_market_data(&mut s, MarketDataEvent::Message(vec![]));
    assert_eq!(action, SyncAction::Continue);
    assert_eq!(s.get_market_data(), sync_data("100", "200", 1));
}

#[test]
fn market_data_messages_apply_in_the_order_received() {
    let mut s = sync_store();
    update_market_data(&mut s, MarketDataEvent::Message(vec![sync_data("5", "7", 2)]));
    update_market_data(&mut s, MarketDataEvent::Message(vec![sync_data("6", "8", 3)]));
    assert_eq!(s.get_market_data(), sync_data("6", "8", 3));
}

#[test]
fn a_lost_market_data_message_is_recorded_and_skipped() {
    let mut s = sync_store();
    let action = update_market_data(&mut s, MarketDataEvent::DeliveryFailed(unavailable()));
    assert_eq!(
        action,
        SyncAction::Report(
            "could not load market data: status: Unavailable, message: \"gone\" - gone".to_string()
        )
    );
    assert_eq!(s.get_market_data(), sync_data("100", "200", 1));
}

#[test]
fn the_task_goes_on_after_a_lost_market_data_message() {
    let mut s = sync_store();
    update_market_data(&mut s, MarketDataEvent::DeliveryFailed(unavailable()));
    let action = update_market_data(&mut s, MarketDataEvent::Message(vec![sync_data("5", "7", 2)]));
    assert_eq!(action, SyncAction::Continue);
    assert_eq!(s.get_market_data(), sync_data("5", "7", 2));
}

#[test]
fn the_end_of_the_market_data_stream_ends_the_task() {
    let mut s = sync_store();
    assert_eq!(update_market_data(&mut s, MarketDataEvent::Closed), SyncAction::Stop);
    assert_eq!(s.get_market_data(), sync_data("100", "200", 1));
}

#[test]
fn a_market_data_stream_that_does_not_open_stops_the_task_for_good() {
    let mut s = sync_store();
    assert_eq!(
        update_market_data(&mut s, MarketDataEvent::OpenFailed(unavailable())),
        SyncAction::Abort(unavailable())
    );
    assert_eq!(s.get_market_data(), sync_data("100", "200", 1));
}

#[test]
fn a_snapshot_replaces_the_entries_of_its_accounts() {
    let mut s = sync_store();
    let action = update_position(
        &mut s,
        PositionsEvent::Snapshot(vec![sync_position("alice", 3), sync_position("bob", -4)]),
    );
    assert_eq!(action, SyncAction::Continue);
    assert_eq!(s.get_position("alice"), Some(sync_position("alice", 3)));
    assert_eq!(s.get_position("bob"), Some(sync_position("bob", -4)));
}

#[test]
fn updates_are_applied_like_a_snapshot() {
    let mut by_snapshot = sync_store();
    update_position(&mut by_snapshot, PositionsEvent::Snapshot(vec![sync_position("alice", 3)]));
    let mut by_updates = sync_store();
    update_position(&mut by_updates, PositionsEvent::Updates(vec![sync_position("alice", 3)]));
    assert_eq!(by_updates.get_position("alice"), by_snapshot.get_position("alice"));
    assert_eq!(by_updates.get_position("alice"), Some(sync_position("alice", 3)));
}

#[test]
fn an_update_replaces_the_volume_and_does_not_add_to_it() {
    let mut s = sync_store();
    update_position(&mut s, PositionsEvent::Snapshot(vec![sync_position("alice", 3)]));
    let action = update_position(&mut s, PositionsEvent::Updates(vec![sync_position("alice", 2)]));
    assert_eq!(action, SyncAction::Continue);
    assert_eq!(s.get_position("alice"), Some(sync_position("alice", 2)));
}

#[test]
fn a_snapshot_does_not_remove_the_accounts_it_leaves_out() {
    let mut s = sync_store();
    update_position(&mut s, PositionsEvent::Snapshot(vec![sync_position("alice", 3)]));
    update_position(&mut s, PositionsEvent::Snapshot(vec![sync_position("bob", 1)]));
    assert_eq!(s.get_position("alice"), Some(sync_position("alice", 3)));
    assert_eq!(s.get_position("bob"), Some(sync_position("bob", 1)));
}

#[test]
fn a_position_message_without_content_changes_nothing() {
    let mut s = sync_store();
    assert_eq!(update_position(&mut s, PositionsEvent::Empty), SyncAction::Continue);
    assert_eq!(s.get_position("alice"), None);
}

#[test]
fn a_lost_position_message_is_recorded_and_skipped() {
    let mut s = sync_store();
    update_position(&mut s, PositionsEvent::Snapshot(vec![sync_position("alice", 3)]));
    let action = update_position(&mut s, PositionsEvent::DeliveryFailed(unavailable()));
    assert_eq!(
        action,
        SyncAction::Report(
            "could not load position: status: Unavailable, message: \"gone\" - gone".to_string()
        )
    );
    assert_eq!(s.get_position("alice"), Some(sync_position("alice", 3)));
}

#[test]
fn the_end_of_a_position_stream_ends_the_task() {
    let mut s = sync_store();
    assert_eq!(update_position(&mut s, PositionsEvent::Closed), SyncAction::Stop);
}

#[test]
fn a_position_stream_that_does_not_open_stops_the_task_for_good() {
    let mut s = sync_store();
    assert_eq!(
        update_position(&mut s, PositionsEvent::OpenFailed(unavailable())),
        SyncAction::Abort(unavailable())
    );
    assert_eq!(s.get_position("alice"), None);
}

#[test]
fn the_feeds_write_to_different_parts_of_the_store() {
    let mut s = sync_store();
    update_position(&mut s, PositionsEvent::Snapshot(vec![sync_position("alice", 3)]));
    update_market_data(&mut s, MarketDataEvent::Message(vec![sync_data("5", "7", 2)]));
    update_position(&mut s, PositionsEvent::Updates(vec![sync_position("bob", -1)]));
    assert_eq!(s.get_market_data(), sync_data("5", "7", 2));
    assert_eq!(s.get_position("alice"), Some(sync_position("alice", 3)));
    assert_eq!(s.get_position("bob"), Some(sync_position("bob", -1)));
}
