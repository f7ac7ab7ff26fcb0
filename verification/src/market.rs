//! The venue's records as the agent reads them: the market definition, the
//! assets, the latest market statistics and the positions of the accounts.

use vstd::pervasive::unreached;
use vstd::prelude::*;

verus! {

/// The product that a market trades. Futures and perpetuals settle in an
/// asset; spot markets are not supported by the agent.
#[derive(Debug, PartialEq, Eq)]
pub enum Product {
    Future { settlement_asset: String },
    Perpetual { settlement_asset: String },
    Spot,
}

/// The mathematical value of a [`Product`].
pub enum ProductView {
    Future { settlement_asset: Seq<char> },
    Perpetual { settlement_asset: Seq<char> },
    Spot,
}

impl View for Product {
    type V = ProductView;

    open spec fn view(&self) -> ProductView {
        match *self {
            Product::Future { settlement_asset } => ProductView::Future {
                settlement_asset: settlement_asset@,
            },
            Product::Perpetual { settlement_asset } => ProductView::Perpetual {
                settlement_asset: settlement_asset@,
            },
            Product::Spot => ProductView::Spot,
        }
    }
}

impl Clone for Product {
    fn clone(&self) -> (r: Self)
        ensures
            r@ == self@,
    {
        match self {
            Product::Future { settlement_asset } => Product::Future {
                settlement_asset: settlement_asset.clone(),
            },
            Product::Perpetual { settlement_asset } => Product::Perpetual {
                settlement_asset: settlement_asset.clone(),
            },
            Product::Spot => Product::Spot,
        }
    }
}

/// The definition of the traded instrument. It is fetched once and does not
/// change while the agent runs.
#[derive(Debug, PartialEq, Eq)]
pub struct Market {
    pub id: String,
    pub name: String,
    pub decimal_places: u64,
    pub position_decimal_places: i64,
    pub product: Product,
}

/// The mathematical value of a [`Market`].
pub struct MarketView {
    pub id: Seq<char>,
    pub name: Seq<char>,
    pub decimal_places: nat,
    pub position_decimal_places: int,
    pub product: ProductView,
}

impl View for Market {
    type V = MarketView;

    open spec fn view(&self) -> MarketView {
        MarketView {
            id: self.id@,
            name: self.name@,
            decimal_places: self.decimal_places as nat,
            position_decimal_places: self.position_decimal_places as int,
            product: self.product@,
        }
    }
}

impl Clone for Market {
    fn clone(&self) -> (r: Self)
        ensures
            r@ == self@,
    {
        Market {
            id: self.id.clone(),
            name: self.name.clone(),
            decimal_places: self.decimal_places,
            position_decimal_places: self.position_decimal_places,
            product: self.product.clone(),
        }
    }
}

/// An asset of the venue: its identifier and the number of decimals of its
/// ledger amounts.
#[derive(Debug, PartialEq, Eq)]
pub struct Asset {
    pub id: String,
    pub decimals: u64,
}

/// The mathematical value of an [`Asset`].
pub struct AssetView {
    pub id: Seq<char>,
    pub decimals: nat,
}

impl View for Asset {
    type V = AssetView;

    open spec fn view(&self) -> AssetView {
        AssetView { id: self.id@, decimals: self.decimals as nat }
    }
}

impl Clone for Asset {
    fn clone(&self) -> (r: Self)
        ensures
            r@ == self@,
    {
        Asset { id: self.id.clone(), decimals: self.decimals }
    }
}

/// The venue's latest statistics of the market. Prices are decimal strings
/// in the market's integer precision.
#[derive(Debug, PartialEq, Eq)]
pub struct MarketData {
    pub market: String,
    pub best_bid_price: String,
    pub best_bid_volume: u64,
    pub best_offer_price: String,
    pub best_offer_volume: u64,
    pub timestamp: i64,
}

/// The mathematical value of a [`MarketData`].
pub struct MarketDataView {
    pub market: Seq<char>,
    pub best_bid_price: Seq<char>,
    pub best_bid_volume: nat,
    pub best_offer_price: Seq<char>,
    pub best_offer_volume: nat,
    pub timestamp: int,
}

impl View for MarketData {
    type V = MarketDataView;

    open spec fn view(&self) -> MarketDataView {
        MarketDataView {
            market: self.market@,
            best_bid_price: self.best_bid_price@,
            best_bid_volume: self.best_bid_volume as nat,
            best_offer_price: self.best_offer_price@,
            best_offer_volume: self.best_offer_volume as nat,
            timestamp: self.timestamp as int,
        }
    }
}

impl Clone for MarketData {
    fn clone(&self) -> (r: Self)
        ensures
            r@ == self@,
    {
        MarketData {
            market: self.market.clone(),
            best_bid_price: self.best_bid_price.clone(),
            best_bid_volume: self.best_bid_volume,
            best_offer_price: self.best_offer_price.clone(),
            best_offer_volume: self.best_offer_volume,
            timestamp: self.timestamp,
        }
    }
}

/// The position of one account in one market. The sign of the open volume
/// is the direction, its magnitude the size in the market's position
/// precision.
#[derive(Debug, PartialEq, Eq)]
pub struct Position {
    pub party_id: String,
    pub market_id: String,
    pub open_volume: i64,
}

/// The mathematical value of a [`Position`].
pub struct PositionView {
    pub party_id: Seq<char>,
    pub market_id: Seq<char>,
    pub open_volume: int,
}

impl View for Position {
    type V = PositionView;

    open spec fn view(&self) -> PositionView {
        PositionView {
            party_id: self.party_id@,
            market_id: self.market_id@,
            open_volume: self.open_volume as int,
        }
    }
}

impl Clone for Position {
    fn clone(&self) -> (r: Self)
        ensures
            r@ == self@,
    {
        Position {
            party_id: self.party_id.clone(),
            market_id: self.market_id.clone(),
            open_volume: self.open_volume,
        }
    }
}

/// The settlement asset that a product names, if it has one.
pub open spec fn settlement_asset_of(product: ProductView) -> Option<Seq<char>> {
    match product {
        ProductView::Future { settlement_asset } => Some(settlement_asset),
        ProductView::Perpetual { settlement_asset } => Some(settlement_asset),
        ProductView::Spot => None,
    }
}

/// The identifier of the asset in which the market settles.
///
/// Spot markets are not supported: the caller leaves them out.
pub fn get_asset(mkt: &Market) -> (id: String)
    requires
        !(mkt@.product is Spot),
    ensures
        settlement_asset_of(mkt@.product) == Some(id@),
{
    match &mkt.product {
        Product::Future { settlement_asset } => settlement_asset.clone(),
        Product::Perpetual { settlement_asset } => settlement_asset.clone(),
        Product::Spot => unreached(),
    }
}

} // verus!
