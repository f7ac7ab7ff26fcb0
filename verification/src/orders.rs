//! The trading commands that the agent submits: one batch per account,
//! which cancels the account's resting orders and places at most one new
//! order.

use vstd::prelude::*;

verus! {

/// The direction of an order.
#[derive(Clone, Copy, Debug, PartialEq, Eq, Structural)]
pub enum Side {
    Buy,
    Sell,
}

/// How long an order stays valid: until the end of normal trading, or only
/// for an immediate fill.
#[derive(Clone, Copy, Debug, PartialEq, Eq, Structural)]
pub enum TimeInForce {
    Gfn,
    Ioc,
}

/// The kind of an order.
#[derive(Clone, Copy, Debug, PartialEq, Eq, Structural)]
pub enum OrderType {
    Limit,
    Market,
}

/// The cancellation of one order, or of every order of the market where the
/// order identifier is empty.
#[derive(Debug, PartialEq, Eq)]
pub struct OrderCancellation {
    pub order_id: String,
    pub market_id: String,
}

/// The mathematical value of an [`OrderCancellation`].
pub struct OrderCancellationView {
    pub order_id: Seq<char>,
    pub market_id: Seq<char>,
}

impl View for OrderCancellation {
    type V = OrderCancellationView;

    open spec fn view(&self) -> OrderCancellationView {
        OrderCancellationView { order_id: self.order_id@, market_id: self.market_id@ }
    }
}

impl Clone for OrderCancellation {
    fn clone(&self) -> (r: Self)
        ensures
            r@ == self@,
    {
        OrderCancellation { order_id: self.order_id.clone(), market_id: self.market_id.clone() }
    }
}

/// One new order. The price is a decimal string in the market's integer
/// precision, and empty for a market order.
#[derive(Debug, PartialEq, Eq)]
pub struct OrderSubmission {
    pub market_id: String,
    pub price: String,
    pub size: u64,
    pub side: Side,
    pub time_in_force: TimeInForce,
    pub expires_at: i64,
    pub order_type: OrderType,
    pub reference: String,
    pub reduce_only: bool,
    pub post_only: bool,
}

/// The mathematical value of an [`OrderSubmission`].
pub struct OrderSubmissionView {
    pub market_id: Seq<char>,
    pub price: Seq<char>,
    pub size: nat,
    pub side: Side,
    pub time_in_force: TimeInForce,
    pub expires_at: int,
    pub order_type: OrderType,
    pub reference: Seq<char>,
    pub reduce_only: bool,
    pub post_only: bool,
}

impl View for OrderSubmission {
    type V = OrderSubmissionView;

    open spec fn view(&self) -> OrderSubmissionView {
        OrderSubmissionView {
            market_id: self.market_id@,
            price: self.price@,
            size: self.size as nat,
            side: self.side,
            time_in_force: self.time_in_force,
            expires_at: self.expires_at as int,
            order_type: self.order_type,
            reference: self.reference@,
            reduce_only: self.reduce_only,
            post_only: self.post_only,
        }
    }
}

impl Clone for OrderSubmission {
    fn clone(&self) -> (r: Self)
        ensures
            r@ == self@,
    {
        OrderSubmission {
            market_id: self.market_id.clone(),
            price: self.price.clone(),
            size: self.size,
            side: self.side,
            time_in_force: self.time_in_force,
            expires_at: self.expires_at,
            order_type: self.order_type,
            reference: self.reference.clone(),
            reduce_only: self.reduce_only,
            post_only: self.post_only,
        }
    }
}

/// One command for one account: cancellations first, then new orders.
#[derive(Debug, PartialEq, Eq)]
pub struct BatchMarketInstructions {
    pub cancellations: Vec<OrderCancellation>,
    pub submissions: Vec<OrderSubmission>,
}

/// The mathematical value of a [`BatchMarketInstructions`].
pub struct BatchView {
    pub cancellations: Seq<OrderCancellationView>,
    pub submissions: Seq<OrderSubmissionView>,
}

impl View for BatchMarketInstructions {
    type V = BatchView;

    open spec fn view(&self) -> BatchView {
        BatchView {
            cancellations: self.cancellations@.map_values(|c: OrderCancellation| c@),
            submissions: self.submissions@.map_values(|s: OrderSubmission| s@),
        }
    }
}

/// The cancellation of every resting order of the market.
pub open spec fn cancel_all(market_id: Seq<char>) -> OrderCancellationView {
    OrderCancellationView { order_id: Seq::empty(), market_id }
}

/// The order of signed size `size`, which is not zero: a buy where it is
/// positive, a sell where it is negative; an immediate-or-cancel market
/// order without a price where `is_market` is set, else a limit order at
/// `price` that is good for normal trading.
pub open spec fn order_for(
    market_id: Seq<char>,
    price: Seq<char>,
    size: int,
    is_market: bool,
) -> OrderSubmissionView {
    OrderSubmissionView {
        market_id,
        price: if is_market {
            Seq::empty()
        } else {
            price
        },
        size: (if size < 0 {
            -size
        } else {
            size
        }) as nat,
        side: if size > 0 {
            Side::Buy
        } else {
            Side::Sell
        },
        time_in_force: if is_market {
            TimeInForce::Ioc
        } else {
            TimeInForce::Gfn
        },
        expires_at: 0,
        order_type: if is_market {
            OrderType::Market
        } else {
            OrderType::Limit
        },
        reference: Seq::empty(),
        reduce_only: false,
        post_only: false,
    }
}

/// The batch of one account for one cycle: cancel everything, and place one
/// order unless the size is zero.
pub open spec fn batch_for(
    market_id: Seq<char>,
    price: Seq<char>,
    size: int,
    is_market: bool,
) -> BatchView {
    BatchView {
        cancellations: seq![cancel_all(market_id)],
        submissions: if size == 0 {
            Seq::empty()
        } else {
            seq![order_for(market_id, price, size, is_market)]
        },
    }
}

/// The batch that only clears the market of the account's resting orders.
pub open spec fn close_batch_for(market_id: Seq<char>) -> BatchView {
    BatchView { cancellations: seq![cancel_all(market_id)], submissions: Seq::empty() }
}

/// The magnitude of a signed size.
pub fn magnitude(size: i64) -> (m: u64)
    ensures
        m as int == if size < 0 {
            -(size as int)
        } else {
            size as int
        },
{
    if size < 0 {
        let below: i64 = -(size + 1);
        let m: u64 = below as u64;
        m + 1
    } else {
        size as u64
    }
}

/// Builds the batch of one account for one cycle from the account's signed
/// order size.
pub fn get_batch(market_id: String, price: String, size: i64, is_market: bool) -> (batch:
    BatchMarketInstructions)
    ensures
        batch@ == batch_for(market_id@, price@, size as int, is_market),
{
    let cancellation = OrderCancellation { order_id: String::new(), market_id: market_id.clone() };
    let cancellations: Vec<OrderCancellation> = vec![cancellation];
    let mut submissions: Vec<OrderSubmission> = Vec::new();
    if size != 0 {
        let side = if size > 0 {
            Side::Buy
        } else {
            Side::Sell
        };
        let order = if is_market {
            OrderSubmission {
                market_id,
                price: String::new(),
                size: magnitude(size),
                side,
                time_in_force: TimeInForce::Ioc,
                expires_at: 0,
                order_type: OrderType::Market,
                reference: String::new(),
                reduce_only: false,
                post_only: false,
            }
        } else {
            OrderSubmission {
                market_id,
                price,
                size: magnitude(size),
                side,
                time_in_force: TimeInForce::Gfn,
                expires_at: 0,
                order_type: OrderType::Limit,
                reference: String::new(),
                reduce_only: false,
                post_only: false,
            }
        };
        submissions.push(order);
    }
    let batch = BatchMarketInstructions { cancellations, submissions };
    assert(batch@.cancellations =~= batch_for(
        market_id@,
        price@,
        size as int,
        is_market,
    ).cancellations);
    assert(batch@.submissions =~= batch_for(
        market_id@,
        price@,
        size as int,
        is_market,
    ).submissions);
    batch
}

/// Builds the batch that cancels every resting order of the account in the
/// market and places none.
pub fn get_close_batch(market_id: String) -> (batch: BatchMarketInstructions)
    ensures
        batch@ == close_batch_for(market_id@),
{
    let cancellation = OrderCancellation { order_id: String::new(), market_id };
    let batch = BatchMarketInstructions {
        cancellations: vec![cancellation],
        submissions: Vec::new(),
    };
    assert(batch@.cancellations =~= close_batch_for(market_id@).cancellations);
    assert(batch@.submissions =~= close_batch_for(market_id@).submissions);
    batch
}

} // verus!
