use vega_market_maker::market::{get_asset, Asset, Market, MarketData, Position, Product};
use vega_market_maker::store::VegaStore;

fn market() -> Market {
    Market {
        id: "mkt".to_string(),
        name: "BTC/USD".to_string(),
        decimal_places: 2,
        position_decimal_places: 0,
        product: Product::Future { settlement_asset: "usd".to_string() },
    }
}

fn data(bid: &str, offer: &str, stamp: i64) -> MarketData {
    MarketData {
        market: "mkt".to_string(),
        best_bid_price: bid.to_string(),
        best_bid_volume: 11,
        best_offer_price: offer.to_string(),
        best_offer_volume: 12,
        timestamp: stamp,
    }
}

fn asset(id: &str, decimals: u64) -> Asset {
    Asset { id: id.to_string(), decimals }
}

fn position(party: &str, volume: i64) -> Position {
    Position { party_id: party.to_string(), market_id: "mkt".to_string(), open_volume: volume }
}

fn store() -> VegaStore {
    VegaStore::new(market(), data("100", "200", 1), vec![asset("usd", 5), asset("eur", 2)])
}

#[test]
fn a_new_store_holds_what_it_was_made_from() {
    let s = store();
    assert_eq!(s.get_market(), market());
    assert_eq!(s.get_market_data(), data("100", "200", 1));
    assert_eq!(s.get_asset("usd".to_string()), asset("usd", 5));
    assert_eq!(s.get_asset("eur".to_string()), asset("eur", 2));
}

#[test]
fn a_new_store_knows_no_position() {
    let s = store();
    assert_eq!(s.get_position("alice"), None);
    assert_eq!(s.get_position(""), None);
}

#[test]
fn the_store_tells_which_assets_it_holds() {
    let s = store();
    assert!(s.has_asset("usd"));
    assert!(s.has_asset("eur"));
    assert!(!s.has_asset("gbp"));
    assert!(!s.has_asset(""));
}

#[test]
fn a_store_without_assets_holds_none() {
    let s = VegaStore::new(market(), data("1", "2", 0), vec![]);
    assert!(s.get_assets().is_empty());
    assert!(!s.has_asset("usd"));
}

#[test]
fn all_assets_come_out_each_once() {
    let s = store();
    let mut ids: Vec<String> = s.get_assets().into_iter().map(|a| a.id).collect();
    ids.sort();
    assert_eq!(ids, vec!["eur".to_string(), "usd".to_string()]);
}

#[test]
fn of_two_assets_with_one_identifier_the_later_stays() {
    let s = VegaStore::new(
        market(),
        data("1", "2", 0),
        vec![asset("usd", 5), asset("eur", 2), asset("usd", 6)],
    );
    assert_eq!(s.get_asset("usd".to_string()), asset("usd", 6));
    let all = s.get_assets();
    assert_eq!(all.len(), 2);
    assert!(all.contains(&asset("usd", 6)));
    assert!(all.contains(&asset("eur", 2)));
}

#[test]
fn the_settlement_asset_of_the_market_is_found_in_the_store() {
    let s = store();
    let id = get_asset(&s.get_market());
    assert_eq!(id, "usd");
    assert!(s.has_asset(&id));
    assert_eq!(s.get_asset(id).decimals, 5);
}

#[test]
fn a_perpetual_settles_in_its_asset_too() {
    let mut m = market();
    m.product = Product::Perpetual { settlement_asset: "eur".to_string() };
    assert_eq!(get_asset(&m), "eur");
}

#[test]
fn a_saved_position_is_read_back() {
    let mut s = store();
    s.save_positions(vec![position("alice", 3)]);
    assert_eq!(s.get_position("alice"), Some(position("alice", 3)));
    assert_eq!(s.get_position("bob"), None);
}

#[test]
fn a_position_replaces_the_entry_of_its_account_only() {
    let mut s = store();
    s.save_positions(vec![position("alice", 3), position("bob", -4)]);
    s.save_positions(vec![position("alice", 10)]);
    assert_eq!(s.get_position("alice"), Some(position("alice", 10)));
    assert_eq!(s.get_position("bob"), Some(position("bob", -4)));
}

#[test]
fn an_update_replaces_and_does_not_add_to_the_volume() {
    let mut s = store();
    s.save_positions(vec![position("alice", 3)]);
    s.save_positions(vec![position("alice", 2)]);
    assert_eq!(s.get_position("alice").map(|p| p.open_volume), Some(2));
}

#[test]
fn every_field_of_a_position_is_replaced() {
    let mut s = store();
    s.save_positions(vec![position("alice", 3)]);
    let other = Position {
        party_id: "alice".to_string(),
        market_id: "other".to_string(),
        open_volume: -1,
    };
    s.save_positions(vec![other.clone()]);
    assert_eq!(s.get_position("alice"), Some(other));
}

#[test]
fn of_two_positions_of_one_account_in_a_list_the_later_stays() {
    let mut s = store();
    s.save_positions(vec![position("alice", 1), position("bob", 5), position("alice", 2)]);
    assert_eq!(s.get_position("alice"), Some(position("alice", 2)));
    assert_eq!(s.get_position("bob"), Some(position("bob", 5)));
}

#[test]
fn saving_an_identical_position_changes_nothing() {
    let mut s = store();
    s.save_positions(vec![position("alice", 3), position("bob", -4)]);
    let market_before = s.get_market();
    let data_before = s.get_market_data();
    let alice_before = s.get_position("alice");
    let bob_before = s.get_position("bob");
    let mut assets_before = s.get_assets();
    s.save_positions(vec![position("alice", 3)]);
    assert_eq!(s.get_position("alice"), alice_before);
    assert_eq!(s.get_position("bob"), bob_before);
    assert_eq!(s.get_market(), market_before);
    assert_eq!(s.get_market_data(), data_before);
    let mut assets_after = s.get_assets();
    assets_before.sort_by(|x, y| x.id.cmp(&y.id));
    assets_after.sort_by(|x, y| x.id.cmp(&y.id));
    assert_eq!(assets_after, assets_before);
}

#[test]
fn saving_a_position_twice_is_saving_it_once() {
    let mut once = store();
    once.save_positions(vec![position("alice", 3)]);
    let mut twice = store();
    twice.save_positions(vec![position("alice", 3)]);
    twice.save_positions(vec![position("alice", 3)]);
    assert_eq!(twice.get_position("alice"), once.get_position("alice"));
}

#[test]
fn saving_an_empty_list_changes_nothing() {
    let mut s = store();
    s.save_positions(vec![position("alice", 3)]);
    s.save_positions(vec![]);
    assert_eq!(s.get_position("alice"), Some(position("alice", 3)));
}

#[test]
fn market_data_is_replaced_as_a_whole() {
    let mut s = store();
    let first = MarketData {
        market: "mkt".to_string(),
        best_bid_price: "10".to_string(),
        best_bid_volume: 1,
        best_offer_price: "20".to_string(),
        best_offer_volume: 2,
        timestamp: 100,
    };
    let second = MarketData {
        market: "mkt-2".to_string(),
        best_bid_price: "30".to_string(),
        best_bid_volume: 3,
        best_offer_price: "40".to_string(),
        best_offer_volume: 4,
        timestamp: 200,
    };
    s.save_market_data(first.clone());
    assert_eq!(s.get_market_data(), first);
    s.save_market_data(second.clone());
    let now = s.get_market_data();
    assert_eq!(now, second);
    assert_ne!(now.market, first.market);
    assert_ne!(now.best_bid_price, first.best_bid_price);
    assert_ne!(now.best_bid_volume, first.best_bid_volume);
    assert_ne!(now.best_offer_price, first.best_offer_price);
    assert_ne!(now.best_offer_volume, first.best_offer_volume);
    assert_ne!(now.timestamp, first.timestamp);
}

#[test]
fn market_data_with_empty_fields_clears_the_fields_before() {
    let mut s = store();
    let bare = MarketData {
        market: String::new(),
        best_bid_price: String::new(),
        best_bid_volume: 0,
        best_offer_price: String::new(),
        best_offer_volume: 0,
        timestamp: 0,
    };
    s.save_market_data(bare.clone());
    assert_eq!(s.get_market_data(), bare);
}

#[test]
fn saving_market_data_leaves_the_rest_of_the_store() {
    let mut s = store();
    s.save_positions(vec![position("alice", 3)]);
    s.save_market_data(data("5", "6", 9));
    assert_eq!(s.get_market(), market());
    assert_eq!(s.get_position("alice"), Some(position("alice", 3)));
    assert_eq!(s.get_asset("usd".to_string()), asset("usd", 5));
}

#[test]
fn saving_positions_leaves_the_rest_of_the_store() {
    let mut s = store();
    s.save_positions(vec![position("alice", 3)]);
    assert_eq!(s.get_market(), market());
    assert_eq!(s.get_market_data(), data("100", "200", 1));
    assert_eq!(s.get_assets().len(), 2);
}

#[test]
fn what_the_store_hands_out_is_a_copy() {
    let s = store();
    let mut md = s.get_market_data();
    md.best_bid_price = "999".to_string();
    assert_eq!(s.get_market_data(), data("100", "200", 1));
}
