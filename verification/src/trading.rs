//! Arbitrage order-pair execution: sizing, slippage, the
//! minimum-notional gate, deterministic send ordering, and outcome
//! reconciliation.
//!
//! Prices and sizes are fixed-point with six decimal places (a price of
//! one is 1 000 000), so a leg's notional — price times size — carries
//! twelve decimal places. The shell builds, signs and submits the
//! planned intents and hands the per-leg results back for
//! reconciliation.

use vstd::prelude::*;
use vstd::string::StrSliceExecFns;
use crate::bytesutil::{clone_bytes, contains_bytes, contains_seq, is_word32};
use crate::errors::{LegFailReason, TradeError};

verus! {

/// One price unit (1.0) in millionths.
pub const PRICE_SCALE: u64 = 1000000;

/// The venue's minimum notional — one quote unit — in price-times-size
/// units (trillionths).
pub const MIN_NOTIONAL: u128 = 1000000000000;

/// Order time-in-force policy.
#[derive(PartialEq, Eq, Structural, Debug, Clone, Copy)]
pub enum OrderType {
    /// Good till cancelled.
    Gtc,
    /// Good till date: carries an expiration.
    Gtd,
    /// Fill or kill.
    Fok,
    /// Fill and kill.
    Fak,
}

#[derive(PartialEq, Eq, Structural, Debug, Clone, Copy)]
pub enum Side {
    Buy,
    Sell,
}

/// The executor's standing parameters.
#[derive(Debug)]
pub struct TradeParams {
    /// The largest size one leg may take, in millionths.
    pub max_order_size: u64,
    /// The slippage allowance for a leg moving upward or flat, in
    /// millionths of price.
    pub slippage_first: u64,
    /// The larger slippage allowance for a leg moving downward.
    pub slippage_second: u64,
    /// How long a good-till-date order lives, in seconds.
    pub gtd_expiration_secs: u64,
    /// The time-in-force policy both legs are placed under.
    pub arbitrage_order_type: OrderType,
}

impl TradeParams {
    /// Slippages and prices live on the probability scale.
    pub open spec fn wf(&self) -> bool {
        &&& self.slippage_first <= PRICE_SCALE
        &&& self.slippage_second <= PRICE_SCALE
    }
}

/// An opportunity as the scanner hands it in: the two outcome tokens,
/// their ask prices, and the sizes available at those asks.
#[derive(Debug)]
pub struct ArbitrageOpportunity {
    pub yes_token_id: Vec<u8>,
    pub no_token_id: Vec<u8>,
    pub yes_ask_price: u64,
    pub no_ask_price: u64,
    pub yes_size: u64,
    pub no_size: u64,
}

impl ArbitrageOpportunity {
    /// Token identifiers are 256-bit words; asks are valid prices.
    pub open spec fn wf(&self) -> bool {
        &&& is_word32(self.yes_token_id@)
        &&& is_word32(self.no_token_id@)
        &&& self.yes_ask_price <= PRICE_SCALE
        &&& self.no_ask_price <= PRICE_SCALE
    }
}

/// A downward price direction, written `↓`. Anything else — upward,
/// flat, empty or unrecognized — is not downward.
pub open spec fn is_down_direction(s: Seq<char>) -> bool {
    s.len() == 1 && s[0] == '↓'
}

impl TradeParams {
    /// The slippage a leg gets for its recent price direction: only a
    /// downward leg uses the larger second allowance; upward, flat and
    /// unrecognized directions use the first.
    pub fn slippage_for_direction(&self, dir: &str) -> (r: u64)
        ensures
            r == if is_down_direction(dir@) {
                self.slippage_second
            } else {
                self.slippage_first
            },
    {
        if dir.unicode_len() == 1 && dir.get_char(0) == '↓' {
            self.slippage_second
        } else {
            self.slippage_first
        }
    }
}

/// A quoted price nudged by a slippage allowance and capped at the
/// market's maximum valid price of one.
pub open spec fn capped_price(ask: u64, slippage: u64) -> u64
    recommends
        ask + slippage <= u64::MAX,
{
    if ask + slippage <= PRICE_SCALE {
        (ask + slippage) as u64
    } else {
        PRICE_SCALE
    }
}

/// A leg's notional: price times size, in trillionths of the quote
/// unit.
pub open spec fn notional(price: u64, size: u64) -> u128 {
    (price * size) as u128
}

/// One leg's order intent. Only a good-till-date order carries an
/// expiration.
#[derive(Debug)]
pub struct OrderIntent {
    pub token_id: Vec<u8>,
    pub side: Side,
    pub price: u64,
    pub size: u64,
    pub order_type: OrderType,
    pub expiration_secs: Option<u64>,
}

impl OrderIntent {
    pub open spec fn wf(&self) -> bool {
        self.expiration_secs is Some <==> self.order_type == OrderType::Gtd
    }
}

/// A planned pair: both intents, and whether the YES leg is sent first
/// (it is when its price is highest, ties kept YES-first).
#[derive(Debug)]
pub struct OrderPairPlan {
    pub yes: OrderIntent,
    pub no: OrderIntent,
    pub yes_first: bool,
}

/// The sell intent used to unwind a single-leg position: a
/// good-till-cancelled sell at the given price, with no expiration.
pub fn make_sell_intent(token_id: Vec<u8>, price: u64, size: u64) -> (r: OrderIntent)
    ensures
        r.wf(),
        r.token_id@ == token_id@,
        r.side == Side::Sell,
        r.price == price,
        r.size == size,
        r.order_type == OrderType::Gtc,
        r.expiration_secs is None,
{
    OrderIntent {
        token_id,
        side: Side::Sell,
        price,
        size,
        order_type: OrderType::Gtc,
        expiration_secs: None,
    }
}

/// Plan one order pair: the size is the smallest of the two available
/// sizes and the configured maximum; each leg's price is its ask plus
/// its direction's slippage, capped at one; both legs' notionals must
/// clear the venue's floor or the whole pair is rejected before any
/// network call; both intents are buys under the configured policy,
/// with an expiration exactly when that policy is good-till-date; the
/// higher-priced leg is sent first, ties YES-first.
pub fn plan_order_pair(
    params: &TradeParams,
    opp: &ArbitrageOpportunity,
    yes_dir: &str,
    no_dir: &str,
    now_secs: u64,
) -> (r: Result<OrderPairPlan, TradeError>)
    requires
        params.wf(),
        opp.wf(),
        params.arbitrage_order_type == OrderType::Gtd ==> now_secs + params.gtd_expiration_secs
            <= u64::MAX,
    ensures
        ({
            let osize = min3(opp.yes_size, opp.no_size, params.max_order_size);
            let yp = capped_price(
                opp.yes_ask_price,
                if is_down_direction(yes_dir@) {
                    params.slippage_second
                } else {
                    params.slippage_first
                },
            );
            let np = capped_price(
                opp.no_ask_price,
                if is_down_direction(no_dir@) {
                    params.slippage_second
                } else {
                    params.slippage_first
                },
            );
            &&& (r is Err <==> notional(yp, osize) <= MIN_NOTIONAL || notional(np, osize)
                <= MIN_NOTIONAL)
            &&& (r matches Err(e) ==> (e matches TradeError::MinimumNotionalViolation {
                yes_notional,
                no_notional,
            } && yes_notional == notional(yp, osize) && no_notional == notional(np, osize)))
            &&& (r matches Ok(p) ==> {
                &&& p.yes.wf() && p.no.wf()
                &&& p.yes.token_id@ == opp.yes_token_id@
                &&& p.no.token_id@ == opp.no_token_id@
                &&& p.yes.side == Side::Buy && p.no.side == Side::Buy
                &&& p.yes.price == yp && p.no.price == np
                &&& p.yes.size == osize && p.no.size == osize
                &&& p.yes.order_type == params.arbitrage_order_type
                &&& p.no.order_type == params.arbitrage_order_type
                &&& (params.arbitrage_order_type == OrderType::Gtd ==> p.yes.expiration_secs
                    == Some((now_secs + params.gtd_expiration_secs) as u64)
                    && p.no.expiration_secs == Some((now_secs + params.gtd_expiration_secs) as u64))
                &&& p.yes_first == (yp >= np)
            })
        }),
{
    let osize = {
        let m = if opp.yes_size <= opp.no_size {
            opp.yes_size
        } else {
            opp.no_size
        };
        if m <= params.max_order_size {
            m
        } else {
            params.max_order_size
        }
    };
    let yes_slip = params.slippage_for_direction(yes_dir);
    let no_slip = params.slippage_for_direction(no_dir);
    let yp = {
        let p = opp.yes_ask_price + yes_slip;
        if p <= PRICE_SCALE {
            p
        } else {
            PRICE_SCALE
        }
    };
    let np = {
        let p = opp.no_ask_price + no_slip;
        if p <= PRICE_SCALE {
            p
        } else {
            PRICE_SCALE
        }
    };
    proof {
        assert(yp * osize <= 0xffff_ffff_ffff_ffff * 0xffff_ffff_ffff_ffff) by (nonlinear_arith)
            requires
                yp <= 0xffff_ffff_ffff_ffffu64,
                osize <= 0xffff_ffff_ffff_ffffu64,
        ;
        assert(np * osize <= 0xffff_ffff_ffff_ffff * 0xffff_ffff_ffff_ffff) by (nonlinear_arith)
            requires
                np <= 0xffff_ffff_ffff_ffffu64,
                osize <= 0xffff_ffff_ffff_ffffu64,
        ;
    }
    let yes_notional = (yp as u128) * (osize as u128);
    let no_notional = (np as u128) * (osize as u128);
    if yes_notional <= MIN_NOTIONAL || no_notional <= MIN_NOTIONAL {
        return Err(TradeError::MinimumNotionalViolation { yes_notional, no_notional });
    }
    let expiration: Option<u64> = if matches!(params.arbitrage_order_type, OrderType::Gtd) {
        Some(now_secs + params.gtd_expiration_secs)
    } else {
        None
    };
    let yes = OrderIntent {
        token_id: clone_bytes(&opp.yes_token_id),
        side: Side::Buy,
        price: yp,
        size: osize,
        order_type: params.arbitrage_order_type,
        expiration_secs: expiration,
    };
    let no = OrderIntent {
        token_id: clone_bytes(&opp.no_token_id),
        side: Side::Buy,
        price: np,
        size: osize,
        order_type: params.arbitrage_order_type,
        expiration_secs: expiration,
    };
    Ok(OrderPairPlan { yes, no, yes_first: yp >= np })
}

/// The smallest of three sizes.
pub open spec fn min3(a: u64, b: u64, c: u64) -> u64 {
    let m = if a <= b {
        a
    } else {
        b
    };
    if m <= c {
        m
    } else {
        c
    }
}

/// What the venue reported for one leg of a submitted batch.
#[derive(Debug)]
pub struct LegResult {
    pub order_id: String,
    /// The size actually filled, in millionths.
    pub filled: u64,
    /// The venue's own acceptance flag; a leg can be accepted and still
    /// fill zero.
    pub success: bool,
    pub error_msg: Option<Vec<u8>>,
}

/// The needle that marks an empty book: `no orders found to match`.
pub open spec fn no_match_needle() -> Seq<u8> {
    seq![
        0x6eu8, 0x6f, 0x20, 0x6f, 0x72, 0x64, 0x65, 0x72, 0x73, 0x20, 0x66, 0x6f,
        0x75, 0x6e, 0x64, 0x20, 0x74, 0x6f, 0x20, 0x6d, 0x61, 0x74, 0x63, 0x68,
    ]
}

/// What stands in for a leg that reported no message: `unknown error`.
pub open spec fn unknown_reason() -> Seq<u8> {
    seq![
        0x75u8, 0x6e, 0x6b, 0x6e, 0x6f, 0x77, 0x6e, 0x20, 0x65, 0x72, 0x72, 0x6f, 0x72,
    ]
}

/// Whether a message names a time-in-force policy: `GTD`, `FOK`, `FAK`
/// or `GTC`.
pub open spec fn names_policy(m: Seq<u8>) -> bool {
    ||| contains_seq(m, seq![0x47u8, 0x54, 0x44])
    ||| contains_seq(m, seq![0x46u8, 0x4f, 0x4b])
    ||| contains_seq(m, seq![0x46u8, 0x41, 0x4b])
    ||| contains_seq(m, seq![0x47u8, 0x54, 0x43])
}

/// How a simplified reason relates to the message it came from.
pub open spec fn simplified_matches(r: &LegFailReason, msg: &Option<Vec<u8>>) -> bool {
    match msg {
        Some(m) => {
            if contains_seq(m@, no_match_needle()) {
                r is NoMatchingOrders
            } else if names_policy(m@) {
                r is NotFilled
            } else {
                r matches LegFailReason::Other { message } && message@ == m@
            }
        },
        None => r matches LegFailReason::Other { message } && message@ == unknown_reason(),
    }
}

/// Simplify a leg's reported error: an empty book and a time-in-force
/// rejection each get a fixed reason, anything else is kept verbatim,
/// and a missing message stands as unknown.
pub fn simplify_leg_reason(msg: &Option<Vec<u8>>) -> (r: LegFailReason)
    ensures
        simplified_matches(&r, msg),
{
    match msg {
        Some(m) => {
            let needle_nomatch: Vec<u8> = vec![
                0x6eu8, 0x6f, 0x20, 0x6f, 0x72, 0x64, 0x65, 0x72, 0x73, 0x20, 0x66, 0x6f,
                0x75, 0x6e, 0x64, 0x20, 0x74, 0x6f, 0x20, 0x6d, 0x61, 0x74, 0x63, 0x68,
            ];
            assert(needle_nomatch@ =~= no_match_needle());
            if contains_bytes(m, &needle_nomatch) {
                return LegFailReason::NoMatchingOrders;
            }
            let gtd: Vec<u8> = vec![0x47u8, 0x54, 0x44];
            assert(gtd@ =~= seq![0x47u8, 0x54, 0x44]);
            let fok: Vec<u8> = vec![0x46u8, 0x4f, 0x4b];
            assert(fok@ =~= seq![0x46u8, 0x4f, 0x4b]);
            let fak: Vec<u8> = vec![0x46u8, 0x41, 0x4b];
            assert(fak@ =~= seq![0x46u8, 0x41, 0x4b]);
            let gtc: Vec<u8> = vec![0x47u8, 0x54, 0x43];
            assert(gtc@ =~= seq![0x47u8, 0x54, 0x43]);
            if contains_bytes(m, &gtd) || contains_bytes(m, &fok) || contains_bytes(m, &fak)
                || contains_bytes(m, &gtc) {
                return LegFailReason::NotFilled;
            }
            LegFailReason::Other { message: clone_bytes(m) }
        },
        None => {
            let message: Vec<u8> = vec![
                0x75u8, 0x6e, 0x6b, 0x6e, 0x6f, 0x77, 0x6e, 0x20, 0x65, 0x72, 0x72, 0x6f, 0x72,
            ];
            assert(message@ =~= unknown_reason());
            LegFailReason::Other { message }
        },
    }
}

/// The pair's outcome: per-leg order ids and true filled sizes, the
/// requested size on both legs, and an overall success flag.
#[derive(Debug)]
pub struct OrderPairResult {
    pub pair_id: String,
    pub yes_order_id: String,
    pub no_order_id: String,
    pub yes_filled: u64,
    pub no_filled: u64,
    pub yes_size: u64,
    pub no_size: u64,
    pub success: bool,
}

/// Reconcile the batch's outcome. A failed submission fails the pair; a
/// batch that is not exactly two results fails the pair; the two
/// results are remapped to (YES, NO) identity by undoing the send
/// order; a pair where both legs filled zero is a hard failure with
/// both legs' simplified reasons; anything else — one or both legs
/// filled — is a successful result carrying the true per-leg fills, a
/// partial fill being downstream risk management's business.
pub fn reconcile_order_pair(
    pair_id: String,
    order_size: u64,
    yes_first: bool,
    submission: Result<Vec<LegResult>, Vec<u8>>,
) -> (r: Result<OrderPairResult, TradeError>)
    ensures
        (submission matches Err(m) ==> (r matches Err(TradeError::SubmissionFailed { message })
            && message@ == m@)),
        (submission matches Ok(res) ==> res@.len() != 2 ==> (r matches Err(
            TradeError::BatchResultShapeMismatch { count },
        ) && count == res@.len())),
        (submission matches Ok(res) ==> res@.len() == 2 ==> {
            let yes_leg = if yes_first {
                res@[0]
            } else {
                res@[1]
            };
            let no_leg = if yes_first {
                res@[1]
            } else {
                res@[0]
            };
            &&& (yes_leg.filled == 0 && no_leg.filled == 0 <==> r is Err)
            &&& (r matches Err(e) ==> (e matches TradeError::TotalFillFailure {
                yes_reason,
                no_reason,
            } && simplified_matches(&yes_reason, &yes_leg.error_msg) && simplified_matches(
                &no_reason,
                &no_leg.error_msg,
            )))
            &&& (r matches Ok(out) ==> {
                &&& out.pair_id@ == pair_id@
                &&& out.yes_order_id@ == yes_leg.order_id@
                &&& out.no_order_id@ == no_leg.order_id@
                &&& out.yes_filled == yes_leg.filled
                &&& out.no_filled == no_leg.filled
                &&& out.yes_size == order_size
                &&& out.no_size == order_size
                &&& out.success
            })
        }),
{
    let results = match submission {
        Ok(res) => res,
        Err(message) => {
            return Err(TradeError::SubmissionFailed { message });
        },
    };
    if results.len() != 2 {
        return Err(TradeError::BatchResultShapeMismatch { count: results.len() });
    }
    let (yes_idx, no_idx): (usize, usize) = if yes_first {
        (0, 1)
    } else {
        (1, 0)
    };
    let yes_leg = &results[yes_idx];
    let no_leg = &results[no_idx];
    if yes_leg.filled == 0 && no_leg.filled == 0 {
        let yes_reason = simplify_leg_reason(&yes_leg.error_msg);
        let no_reason = simplify_leg_reason(&no_leg.error_msg);
        return Err(TradeError::TotalFillFailure { yes_reason, no_reason });
    }
    Ok(
        OrderPairResult {
            pair_id,
            yes_order_id: clone_string(&yes_leg.order_id),
            no_order_id: clone_string(&no_leg.order_id),
            yes_filled: yes_leg.filled,
            no_filled: no_leg.filled,
            yes_size: order_size,
            no_size: order_size,
            success: true,
        },
    )
}

/// A fresh copy of a string.
fn clone_string(s: &String) -> (r: String)
    ensures
        r@ == s@,
{
    s.clone()
}

} // verus!
