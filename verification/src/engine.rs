//! The decision engine: on each tick it reads the store and the reference
//! quote, sizes the orders of the two accounts and builds the batches to
//! submit, in the order in which they go out.

use crate::decimal::{decimal_repr, decimal_value, is_decimal};
use crate::market::{MarketData, MarketDataView};
use crate::natural::{mid_price, midpoint};
use crate::orders::{
    batch_for, close_batch_for, get_batch, get_close_batch, BatchMarketInstructions, BatchView,
};
use crate::sizing::{get_order_sizes, order_sizes};
use crate::store::VegaStore;
use vstd::prelude::*;
use vstd::string::StringExecFns;

verus! {

/// One of the two accounts that the agent trades for.
#[derive(Clone, Copy, Debug, PartialEq, Eq, Structural)]
pub enum Account {
    A,
    B,
}

/// One batch to submit for one account.
#[derive(Debug, PartialEq, Eq)]
pub struct Submission {
    pub account: Account,
    pub batch: BatchMarketInstructions,
}

/// The mathematical value of a [`Submission`].
pub struct SubmissionView {
    pub account: Account,
    pub batch: BatchView,
}

impl View for Submission {
    type V = SubmissionView;

    open spec fn view(&self) -> SubmissionView {
        SubmissionView { account: self.account, batch: self.batch@ }
    }
}

/// The views of a list of submissions.
pub open spec fn submission_views(list: Seq<Submission>) -> Seq<SubmissionView> {
    list.map_values(|s: Submission| s@)
}

/// The best bid and the best ask of the reference feed, each held as the
/// sixty-four bits of its IEEE 754 double. Before the feed has reported,
/// both are zero.
#[derive(Clone, Copy, Debug, PartialEq, Eq)]
pub struct ReferenceQuote {
    pub best_bid_bits: u64,
    pub best_ask_bits: u64,
}

/// Whether the bits are those of a double equal to zero: all clear, or the
/// sign bit alone.
pub open spec fn is_zero_double(bits: u64) -> bool {
    bits == 0 || bits == 0x8000_0000_0000_0000
}

impl ReferenceQuote {
    /// Whether the feed has reported both sides: neither is zero.
    pub open spec fn ready(self) -> bool {
        !is_zero_double(self.best_bid_bits) && !is_zero_double(self.best_ask_bits)
    }

    /// Whether the feed has reported both sides.
    pub fn is_ready(&self) -> (ready: bool)
        ensures
            ready == self.ready(),
    {
        let bid_is_zero = self.best_bid_bits == 0 || self.best_bid_bits == 0x8000_0000_0000_0000;
        let ask_is_zero = self.best_ask_bits == 0 || self.best_ask_bits == 0x8000_0000_0000_0000;
        !bid_is_zero && !ask_is_zero
    }
}

/// `rand::random::<u64>()`: one number from the thread's generator. Nothing
/// is known of it beyond its type.
#[verifier::external_body]
fn random_u64() -> u64 {
    rand::random::<u64>()
}

/// The extra delay, in seconds, that a draw stands for: the draw modulo ten.
pub open spec fn extra_sleep(draw: int) -> int {
    draw % 10
}

/// The extra delay before a cycle, from one draw of the generator.
pub fn extra_sleep_from_draw(draw: u64) -> (seconds: u64)
    ensures
        seconds == extra_sleep(draw as int),
        seconds < 10,
{
    draw % 10
}

/// Draws the extra delay, in seconds, that the engine waits before a cycle,
/// so that its timing is not exactly periodic.
pub fn next_extra_sleep() -> (seconds: u64)
    ensures
        exists|draw: u64| seconds == extra_sleep(draw as int),
        seconds < 10,
{
    let draw: u64 = random_u64();
    extra_sleep_from_draw(draw)
}

/// The trade size that a draw stands for under the bound `bound`: one more
/// than the draw modulo the bound.
pub open spec fn trade_size(draw: int, bound: int) -> int {
    draw % bound + 1
}

/// The trade size of a cycle, from one draw of the generator: between one
/// and the default trade size, both included.
pub fn trade_size_from_draw(draw: u64, default_trade_size: i64) -> (size: i64)
    requires
        default_trade_size >= 1,
    ensures
        size == trade_size(draw as int, default_trade_size as int),
        1 <= size <= default_trade_size,
{
    let bound: u64 = default_trade_size as u64;
    let below: u64 = draw % bound;
    (below + 1) as i64
}

/// The two batches of a cycle, in the order in which they are submitted:
/// the batch of account A first where A buys, else the batch of B first.
pub open spec fn submissions_for(
    market: Seq<char>,
    price: Seq<char>,
    size_a: int,
    size_b: int,
    is_market: bool,
) -> Seq<SubmissionView> {
    let a = SubmissionView {
        account: Account::A,
        batch: batch_for(market, price, size_a, is_market),
    };
    let b = SubmissionView {
        account: Account::B,
        batch: batch_for(market, price, size_b, is_market),
    };
    if size_a > 0 {
        seq![a, b]
    } else {
        seq![b, a]
    }
}

/// What one cycle submits, from what the engine has read: the market's
/// statistics, the reference quote, the open volume of each account, and
/// the cycle's trade size.
///
/// Where the reference feed has not reported both sides yet, the cycle
/// ends there with nothing to submit, before any price of the market is
/// read. Else `None` where the best bid or the best offer is no decimal
/// literal. Else the two batches, sized by the decision table and priced at
/// the market's mid price.
pub open spec fn cycle(
    market: Seq<char>,
    md: MarketDataView,
    reference: ReferenceQuote,
    pos_a: int,
    pos_b: int,
    size: int,
) -> Option<Seq<SubmissionView>> {
    if !reference.ready() {
        Some(Seq::empty())
    } else if !is_decimal(md.best_bid_price) || !is_decimal(md.best_offer_price) {
        None
    } else {
        let price = decimal_repr(
            midpoint(decimal_value(md.best_bid_price), decimal_value(md.best_offer_price)),
        );
        let sizes = order_sizes(pos_a, pos_b, size);
        Some(submissions_for(market, price, sizes.0, sizes.1, sizes.2))
    }
}

/// While the reference feed has not reported both sides, a cycle ends
/// without a failure and submits nothing, whatever the market's statistics
/// hold.
pub proof fn lemma_nothing_submitted_until_ready(
    market: Seq<char>,
    md: MarketDataView,
    reference: ReferenceQuote,
    pos_a: int,
    pos_b: int,
    size: int,
)
    requires
        is_zero_double(reference.best_bid_bits) || is_zero_double(reference.best_ask_bits),
    ensures
        cycle(market, md, reference, pos_a, pos_b, size) == Some(Seq::<SubmissionView>::empty()),
{
}

/// A cycle that submits has one batch for each account, and the batch of
/// account A goes first exactly where A buys.
pub proof fn lemma_submission_order(
    market: Seq<char>,
    price: Seq<char>,
    size_a: int,
    size_b: int,
    is_market: bool,
)
    ensures
        submissions_for(market, price, size_a, size_b, is_market).len() == 2,
        size_a > 0 ==> {
            &&& submissions_for(market, price, size_a, size_b, is_market)[0].account == Account::A
            &&& submissions_for(market, price, size_a, size_b, is_market)[1].account == Account::B
        },
        size_a <= 0 ==> {
            &&& submissions_for(market, price, size_a, size_b, is_market)[0].account == Account::B
            &&& submissions_for(market, price, size_a, size_b, is_market)[1].account == Account::A
        },
{
}

/// The trade size of a cycle lies between one and its bound, whatever the
/// draw.
pub proof fn lemma_trade_size_in_range(draw: int, bound: int)
    requires
        draw >= 0,
        bound >= 1,
    ensures
        1 <= trade_size(draw, bound) <= bound,
{
}

/// The value of what a cycle returns.
pub open spec fn plan_view(plan: Option<Vec<Submission>>) -> Option<Seq<SubmissionView>> {
    match plan {
        Some(list) => Some(submission_views(list@)),
        None => None,
    }
}

/// Builds the two batches of a cycle in the order in which they are
/// submitted.
pub fn get_submissions(
    market: &str,
    price: &str,
    size_a: i64,
    size_b: i64,
    is_market: bool,
) -> (list: Vec<Submission>)
    ensures
        submission_views(list@) == submissions_for(
            market@,
            price@,
            size_a as int,
            size_b as int,
            is_market,
        ),
{
    let a = Submission {
        account: Account::A,
        batch: get_batch(String::from_str(market), String::from_str(price), size_a, is_market),
    };
    let b = Submission {
        account: Account::B,
        batch: get_batch(String::from_str(market), String::from_str(price), size_b, is_market),
    };
    let mut list: Vec<Submission> = Vec::new();
    if size_a > 0 {
        list.push(a);
        list.push(b);
    } else {
        list.push(b);
        list.push(a);
    }
    assert(submission_views(list@) =~= submissions_for(
        market@,
        price@,
        size_a as int,
        size_b as int,
        is_market,
    ));
    list
}

/// Decides one cycle from what the engine has read and the cycle's trade
/// size.
///
/// While the reference feed has not reported both sides the cycle ends with
/// nothing to submit and reads no price. Once it has, the result is `None`
/// exactly where the best bid or the best offer of the market is no decimal
/// literal.
pub fn plan_cycle(
    market: &str,
    md: &MarketData,
    reference: &ReferenceQuote,
    pos_a: i64,
    pos_b: i64,
    size: i64,
) -> (plan: Option<Vec<Submission>>)
    requires
        size > i64::MIN,
    ensures
        plan_view(plan) == cycle(market@, md@, *reference, pos_a as int, pos_b as int, size as int),
        !reference.ready() ==> plan_view(plan) == Some(Seq::<SubmissionView>::empty()),
        plan is None <==> reference.ready() && !(is_decimal(md@.best_bid_price) && is_decimal(
            md@.best_offer_price,
        )),
{
    if !reference.is_ready() {
        let nothing: Vec<Submission> = Vec::new();
        assert(submission_views(nothing@) =~= Seq::<SubmissionView>::empty());
        return Some(nothing);
    }
    let price = match mid_price(md.best_bid_price.as_str(), md.best_offer_price.as_str()) {
        Some(price) => price,
        None => { return None; },
    };
    let (size_a, size_b, is_market) = get_order_sizes(pos_a, pos_b, size);
    Some(get_submissions(market, price.as_str(), size_a, size_b, is_market))
}

/// Decides one cycle for a given draw of the generator: reads the market's
/// statistics and the positions of the two accounts from the store, takes
/// the trade size that the draw stands for, and decides what to submit. An
/// account without a known position counts as flat.
pub fn strategy_for_draw(
    store: &VegaStore,
    reference: &ReferenceQuote,
    account_a: &str,
    account_b: &str,
    market: &str,
    default_trade_size: i64,
    draw: u64,
) -> (plan: Option<Vec<Submission>>)
    requires
        default_trade_size >= 1,
    ensures
        plan_view(plan) == cycle(
            market@,
            store@.market_data,
            *reference,
            store@.open_volume(account_a@),
            store@.open_volume(account_b@),
            trade_size(draw as int, default_trade_size as int),
        ),
        !reference.ready() ==> plan_view(plan) == Some(Seq::<SubmissionView>::empty()),
        plan is None <==> reference.ready() && !(is_decimal(store@.market_data.best_bid_price)
            && is_decimal(store@.market_data.best_offer_price)),
{
    let size: i64 = trade_size_from_draw(draw, default_trade_size);
    let md = store.get_market_data();
    let pos_a: i64 = match store.get_position(account_a) {
        Some(p) => p.open_volume,
        None => 0,
    };
    let pos_b: i64 = match store.get_position(account_b) {
        Some(p) => p.open_volume,
        None => 0,
    };
    plan_cycle(market, &md, reference, pos_a, pos_b, size)
}

/// Runs one cycle: draws from the generator and decides the cycle for that
/// draw, so that the trade size is some number between one and
/// `default_trade_size`.
///
/// The result is that of [`strategy_for_draw`] for some draw.
pub fn run_strategy(
    store: &VegaStore,
    reference: &ReferenceQuote,
    account_a: &str,
    account_b: &str,
    market: &str,
    default_trade_size: i64,
) -> (plan: Option<Vec<Submission>>)
    requires
        default_trade_size >= 1,
    ensures
        exists|draw: u64|
            plan_view(plan) == #[trigger] cycle(
                market@,
                store@.market_data,
                *reference,
                store@.open_volume(account_a@),
                store@.open_volume(account_b@),
                trade_size(draw as int, default_trade_size as int),
            ),
        !reference.ready() ==> plan_view(plan) == Some(Seq::<SubmissionView>::empty()),
        plan is None <==> reference.ready() && !(is_decimal(store@.market_data.best_bid_price)
            && is_decimal(store@.market_data.best_offer_price)),
{
    let draw: u64 = random_u64();
    strategy_for_draw(store, reference, account_a, account_b, market, default_trade_size, draw)
}

/// What the engine submits once, before its first cycle: for each account
/// a batch that cancels its resting orders, account A first.
pub open spec fn startup(market: Seq<char>) -> Seq<SubmissionView> {
    seq![
        SubmissionView { account: Account::A, batch: close_batch_for(market) },
        SubmissionView { account: Account::B, batch: close_batch_for(market) },
    ]
}

/// Builds what the engine submits once, before its first cycle, to clear
/// the orders that an earlier run may have left.
pub fn start(market: &str) -> (list: Vec<Submission>)
    ensures
        submission_views(list@) == startup(market@),
{
    let mut list: Vec<Submission> = Vec::new();
    list.push(Submission { account: Account::A, batch: get_close_batch(String::from_str(market)) });
    list.push(Submission { account: Account::B, batch: get_close_batch(String::from_str(market)) });
    assert(submission_views(list@) =~= startup(market@));
    list
}

} // verus!
