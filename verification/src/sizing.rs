//! The order-sizing decision table.

use vstd::prelude::*;

verus! {

/// Absolute value of an integer.
pub open spec fn abs(x: int) -> int {
    if x < 0 {
        -x
    } else {
        x
    }
}

/// The decision table: from the open volumes of the two accounts and the
/// trade size `s` to the signed order size of each account (positive buys,
/// negative sells) and whether both orders go out as market orders.
pub open spec fn order_sizes(pos_a: int, pos_b: int, s: int) -> (int, int, bool) {
    if pos_a == 0 && pos_b == 0 {
        (-s, s, false)
    } else if pos_a == 0 && pos_b > 0 {
        (s, -s, false)
    } else if pos_a == 0 && pos_b < 0 {
        (-s, s, false)
    } else if pos_a > 0 && pos_b == 0 {
        (-s, s, false)
    } else if pos_a < 0 && pos_b == 0 {
        (s, -s, false)
    } else if pos_a > 0 && pos_b > 0 {
        (-s, -s, true)
    } else if pos_a < 0 && pos_b < 0 {
        (s, s, true)
    } else if pos_a > 0 && pos_b < 0 {
        (-s, s, false)
    } else {
        (s, -s, false)
    }
}

/// Sizes the orders of the two accounts for one cycle.
///
/// Two accounts that hold positions of the same sign both trade against
/// their position with market orders; in every other case the two trade in
/// opposite directions with limit orders.
pub fn get_order_sizes(
    w1_position_size: i64,
    w2_position_size: i64,
    default_trade_size: i64,
) -> (r: (i64, i64, bool))
    requires
        default_trade_size > i64::MIN,
    ensures
        (r.0 as int, r.1 as int, r.2) == order_sizes(
            w1_position_size as int,
            w2_position_size as int,
            default_trade_size as int,
        ),
{
    let s: i64 = default_trade_size;
    if w1_position_size == 0 {
        if w2_position_size > 0 {
            (s, -s, false)
        } else {
            (-s, s, false)
        }
    } else if w2_position_size == 0 {
        if w1_position_size > 0 {
            (-s, s, false)
        } else {
            (s, -s, false)
        }
    } else if w1_position_size > 0 {
        if w2_position_size > 0 {
            (-s, -s, true)
        } else {
            (-s, s, false)
        }
    } else {
        if w2_position_size < 0 {
            (s, s, true)
        } else {
            (s, -s, false)
        }
    }
}

/// Each order has the magnitude of the trade size, whatever the positions.
pub proof fn lemma_sizes_have_trade_magnitude(pos_a: int, pos_b: int, s: int)
    ensures
        abs(order_sizes(pos_a, pos_b, s).0) == abs(s),
        abs(order_sizes(pos_a, pos_b, s).1) == abs(s),
        s >= 0 ==> abs(order_sizes(pos_a, pos_b, s).0) == s && abs(order_sizes(pos_a, pos_b, s).1)
            == s,
{
}

/// Market orders are used exactly where both accounts hold positions of
/// one sign, and then both accounts trade the same size against their
/// position. In every other case the two sizes are opposite, so that the
/// two orders offset each other.
pub proof fn lemma_sizes_balance(pos_a: int, pos_b: int, s: int)
    ensures
        order_sizes(pos_a, pos_b, s).2 <==> (pos_a > 0 && pos_b > 0) || (pos_a < 0 && pos_b < 0),
        !order_sizes(pos_a, pos_b, s).2 ==> order_sizes(pos_a, pos_b, s).0 == -order_sizes(
            pos_a,
            pos_b,
            s,
        ).1,
        order_sizes(pos_a, pos_b, s).2 ==> order_sizes(pos_a, pos_b, s).0 == order_sizes(
            pos_a,
            pos_b,
            s,
        ).1,
        pos_a > 0 && pos_b > 0 ==> order_sizes(pos_a, pos_b, s).0 == -s,
        pos_a < 0 && pos_b < 0 ==> order_sizes(pos_a, pos_b, s).0 == s,
{
}

} // verus!
