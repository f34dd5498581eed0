//! The price resolver.
//!
//! `XExchangeService::get_fungible_price` starts a resolution; the caller runs
//! the returned state machine by performing each named on-chain query and
//! feeding the answer back through `Resolution::step`. Every decision — which
//! pair to look up, which cache policy to use, how the exact rational price is
//! composed from the reserves — is made and proved here; only the transport
//! lives with the caller.

use vstd::prelude::*;
use crate::errors::app::AppError;
use crate::errors::xexchange::XExchangeError;
use crate::rational::big_uint_is_zero;
use crate::rational::big_uint_mul;
use crate::rational::big_uint_pow10;
use crate::rational::big_uint_value;
use crate::rational::lemma_pow10_positive;
use crate::rational::pow10;
use crate::rational::rat_is;
use crate::rational::rational_denom;
use crate::rational::rational_from_parts;
use crate::rational::rational_inv;
use crate::rational::rational_mul;
use crate::rational::rational_numer;
use crate::rational::rational_one;

verus! {

/// Decimal count of the USD anchor token in the deployment this service is
/// configured for: a property of that token, not of the algorithm.
pub const ANCHOR_TOKEN_DECIMALS: u8 = 6;

/// Decimal count of the reference (bridge) token in the same deployment.
pub const BRIDGE_TOKEN_DECIMALS: u8 = 18;

/// Seconds in a year: the expiration horizon for pair-address lookups, which
/// are effectively static once a pair exists.
pub const ONE_YEAR: u64 = 31_536_000;

/// How long an answer to a query may be served from the cache.
#[derive(Clone, Copy, PartialEq, Eq, Structural, Debug)]
pub enum CachePolicy {
    /// Always recompute.
    NoCache,
    /// Serve the cached value until this many seconds elapse.
    FixedDuration { seconds: u64 },
    /// Serve the cached value until the ledger advances one block.
    UntilNextBlock,
}

/// A read-only on-chain query the resolver needs answered.
pub enum Query {
    /// Ask the router for the liquidity-pair address of the two tokens,
    /// passed in this order.
    GetPair {
        router_address: String,
        first_token_identifier: String,
        second_token_identifier: String,
        cache: CachePolicy,
    },
    /// Ask the pair contract for the raw reserves of both tokens. The two
    /// fetches carry no ordering dependency and may run concurrently; both
    /// must complete before the answer is fed back.
    GetReserves {
        pair_address: String,
        first_token_identifier: String,
        second_token_identifier: String,
        cache: CachePolicy,
    },
}

/// The answer to the pending query.
pub enum Event {
    /// The router resolved the pair to this address.
    PairFound { pair_address: String },
    /// The router reports that no such pair exists.
    PairMissing,
    /// The raw reserves of the pair's two tokens, in the order the query
    /// named them.
    ReservesFetched {
        first_token_reserve: num_bigint::BigUint,
        second_token_reserve: num_bigint::BigUint,
    },
    /// The transport or the cache layer failed; the failure is opaque here.
    QueryFailed { error: crate::errors::app::TransportError },
}

/// What a resolution does next: ask one more query, or finish.
pub enum Step {
    Ask { resolution: Resolution, query: Query },
    Done { outcome: Result<num_rational::BigRational, AppError> },
}

enum Phase {
    AwaitPair {
        counterpart_token_identifier: String,
        counterpart_decimals: u8,
        bridge_decimals: u8,
        pending: Option<num_rational::BigRational>,
    },
    AwaitReserves {
        counterpart_token_identifier: String,
        counterpart_decimals: u8,
        bridge_decimals: u8,
        pending: Option<num_rational::BigRational>,
        pair_address: String,
    },
}

/// An in-flight price resolution. Each round prices one counterpart token
/// against the bridge token; a second round runs exactly when the queried
/// token is a third token, whose bridge ratio then waits in `pending` for the
/// bridge token's own USD price.
pub struct Resolution {
    anchor_token_identifier: String,
    bridge_token_identifier: String,
    router_address: String,
    phase: Phase,
}

impl Resolution {
    pub closed spec fn anchor_id(self) -> Seq<char> {
        self.anchor_token_identifier@
    }

    pub closed spec fn bridge_id(self) -> Seq<char> {
        self.bridge_token_identifier@
    }

    pub closed spec fn router_view(self) -> Seq<char> {
        self.router_address@
    }

    pub closed spec fn awaiting_pair(self) -> bool {
        self.phase is AwaitPair
    }

    pub closed spec fn awaiting_reserves(self) -> bool {
        self.phase is AwaitReserves
    }

    pub closed spec fn counterpart_id(self) -> Seq<char> {
        match self.phase {
            Phase::AwaitPair { counterpart_token_identifier, .. } => counterpart_token_identifier@,
            Phase::AwaitReserves { counterpart_token_identifier, .. } => counterpart_token_identifier@,
        }
    }

    pub closed spec fn counterpart_decimals(self) -> nat {
        match self.phase {
            Phase::AwaitPair { counterpart_decimals, .. } => counterpart_decimals as nat,
            Phase::AwaitReserves { counterpart_decimals, .. } => counterpart_decimals as nat,
        }
    }

    /// The bridge-side decimal exponent of the current round: the
    /// caller-supplied count when the queried token is the bridge itself,
    /// the configured constant otherwise.
    pub closed spec fn bridge_decimals(self) -> nat {
        match self.phase {
            Phase::AwaitPair { bridge_decimals, .. } => bridge_decimals as nat,
            Phase::AwaitReserves { bridge_decimals, .. } => bridge_decimals as nat,
        }
    }

    pub closed spec fn pending_ratio(self) -> Option<num_rational::BigRational> {
        match self.phase {
            Phase::AwaitPair { pending, .. } => pending,
            Phase::AwaitReserves { pending, .. } => pending,
        }
    }

    pub closed spec fn pair_address_view(self) -> Seq<char> {
        match self.phase {
            Phase::AwaitPair { .. } => Seq::empty(),
            Phase::AwaitReserves { pair_address, .. } => pair_address@,
        }
    }

    /// A ratio waits in `pending` only while the bridge token itself is being
    /// priced against the anchor, and it is always a well-formed non-negative
    /// rational.
    pub open spec fn wf(self) -> bool {
        self.pending_ratio() matches Some(q) ==> {
            &&& rational_denom(q) > 0
            &&& rational_numer(q) >= 0
            &&& self.counterpart_id() == self.anchor_id()
        }
    }

    /// The event answers the query this resolution is waiting for.
    pub open spec fn accepts(self, event: Event) -> bool {
        match event {
            Event::PairFound { .. } => self.awaiting_pair(),
            Event::PairMissing => self.awaiting_pair(),
            Event::ReservesFetched { .. } => self.awaiting_reserves(),
            Event::QueryFailed { .. } => true,
        }
    }
}

/// The step finished with the transport failure passed through unchanged.
pub open spec fn is_transport_failure(s: Step, message: Seq<char>) -> bool {
    &&& s matches Step::Done { outcome }
    &&& outcome matches Err(e)
    &&& e matches AppError::Transport(t)
    &&& t.message@ == message
}

/// The step finished with `PairNotFound` carrying the two identifiers, in
/// this order.
pub open spec fn is_pair_not_found(s: Step, first: Seq<char>, second: Seq<char>) -> bool {
    &&& s matches Step::Done { outcome }
    &&& outcome matches Err(e)
    &&& e matches AppError::XExchange(x)
    &&& x matches XExchangeError::PairNotFound { first_token_identifier, second_token_identifier }
    &&& first_token_identifier@ == first
    &&& second_token_identifier@ == second
}

/// The step finished with the division-by-zero domain error.
pub open spec fn is_division_by_zero(s: Step) -> bool {
    &&& s matches Step::Done { outcome }
    &&& outcome matches Err(e)
    &&& e matches AppError::XExchange(x)
    &&& x is DivisionByZero
}

/// The step finished with a non-negative price standing for `num / den`.
pub open spec fn is_price(s: Step, num: int, den: int) -> bool {
    &&& s matches Step::Done { outcome }
    &&& outcome matches Ok(p)
    &&& rat_is(p, num, den)
    &&& rational_numer(p) >= 0
}

/// The step finished with a price equal to the pending ratio `q` times the
/// inverse of `num / den`.
pub open spec fn composed_price(s: Step, q: num_rational::BigRational, num: int, den: int) -> bool {
    &&& s matches Step::Done { outcome }
    &&& outcome matches Ok(p)
    &&& rational_denom(p) > 0
    &&& rational_numer(p) >= 0
    &&& rational_numer(p) * (rational_denom(q) * num) == (rational_numer(q) * den) * rational_denom(p)
}

/// The query asks the router at `router` for the pair of `first` and
/// `second`, cached on the year-long horizon.
pub open spec fn is_get_pair_query(query: Query, router: Seq<char>, first: Seq<char>, second: Seq<char>) -> bool {
    &&& query matches Query::GetPair { router_address, first_token_identifier, second_token_identifier, cache }
    &&& router_address@ == router
    &&& first_token_identifier@ == first
    &&& second_token_identifier@ == second
    &&& cache == (CachePolicy::FixedDuration { seconds: ONE_YEAR })
}

/// The pair was found: the resolution now waits for both reserves of that
/// pair, asked in one fan-out query, cached only until the next block; all
/// round data is carried over unchanged.
pub open spec fn moved_to_reserves(pre: Resolution, addr: Seq<char>, s: Step) -> bool {
    &&& s matches Step::Ask { resolution, query }
    &&& resolution.wf()
    &&& resolution.awaiting_reserves()
    &&& resolution.anchor_id() == pre.anchor_id()
    &&& resolution.bridge_id() == pre.bridge_id()
    &&& resolution.router_view() == pre.router_view()
    &&& resolution.counterpart_id() == pre.counterpart_id()
    &&& resolution.counterpart_decimals() == pre.counterpart_decimals()
    &&& resolution.bridge_decimals() == pre.bridge_decimals()
    &&& resolution.pending_ratio() == pre.pending_ratio()
    &&& resolution.pair_address_view() == addr
    &&& query matches Query::GetReserves { pair_address, first_token_identifier, second_token_identifier, cache }
    &&& pair_address@ == addr
    &&& first_token_identifier@ == pre.bridge_id()
    &&& second_token_identifier@ == pre.counterpart_id()
    &&& cache == CachePolicy::UntilNextBlock
}

/// A third token's bridge ratio `num / den` is complete: the resolution now
/// prices the bridge token itself against the anchor, the ratio waiting in
/// `pending`.
pub open spec fn starts_bridge_round(pre: Resolution, num: int, den: int, s: Step) -> bool {
    &&& s matches Step::Ask { resolution, query }
    &&& resolution.wf()
    &&& resolution.awaiting_pair()
    &&& resolution.anchor_id() == pre.anchor_id()
    &&& resolution.bridge_id() == pre.bridge_id()
    &&& resolution.router_view() == pre.router_view()
    &&& resolution.counterpart_id() == pre.anchor_id()
    &&& resolution.counterpart_decimals() == ANCHOR_TOKEN_DECIMALS as nat
    &&& resolution.bridge_decimals() == BRIDGE_TOKEN_DECIMALS as nat
    &&& (resolution.pending_ratio() matches Some(q) && rat_is(q, num, den) && rational_numer(q) >= 0)
    &&& is_get_pair_query(query, pre.router_view(), pre.bridge_id(), pre.anchor_id())
}

/// What `Resolution::step` does with the reserves of the current round:
/// `b` is the bridge-token reserve, `c` the counterpart-token reserve.
pub open spec fn reserves_outcome(pre: Resolution, b: nat, c: nat, s: Step) -> bool {
    let num = (b as int) * pow10(pre.counterpart_decimals());
    let den = (c as int) * pow10(pre.bridge_decimals());
    if c == 0 {
        is_division_by_zero(s)
    } else if pre.counterpart_id() == pre.anchor_id() {
        if b == 0 {
            is_division_by_zero(s)
        } else {
            match pre.pending_ratio() {
                Option::None => is_price(s, den, num),
                Option::Some(q) => composed_price(s, q, num, den),
            }
        }
    } else if pre.bridge_id() == pre.anchor_id() {
        // The recursive call would price the bridge token, which in this
        // malformed configuration is the anchor itself and so is worth
        // exactly one: the round's ratio is already the final price.
        is_price(s, num, den)
    } else {
        starts_bridge_round(pre, num, den, s)
    }
}

/// The full transition relation of one step of a resolution.
pub open spec fn step_spec(pre: Resolution, event: Event, s: Step) -> bool {
    match event {
        Event::QueryFailed { error } => is_transport_failure(s, error.message@),
        Event::PairMissing => is_pair_not_found(s, pre.bridge_id(), pre.counterpart_id()),
        Event::PairFound { pair_address } => moved_to_reserves(pre, pair_address@, s),
        Event::ReservesFetched { first_token_reserve, second_token_reserve } => reserves_outcome(
            pre,
            big_uint_value(first_token_reserve),
            big_uint_value(second_token_reserve),
            s,
        ),
    }
}

impl Resolution {
    /// Consume the answer to the pending query and either finish or name the
    /// next query.
    pub fn step(self, event: Event) -> (s: Step)
        requires
            self.wf(),
            self.accepts(event),
        ensures
            step_spec(self, event, s),
    {
        let Resolution { anchor_token_identifier, bridge_token_identifier, router_address, phase } = self;
        match (phase, event) {
            (_, Event::QueryFailed { error }) => Step::Done { outcome: Err(AppError::Transport(error)) },
            (Phase::AwaitPair { counterpart_token_identifier, .. }, Event::PairMissing) => Step::Done {
                outcome: Err(AppError::XExchange(XExchangeError::PairNotFound {
                    first_token_identifier: bridge_token_identifier,
                    second_token_identifier: counterpart_token_identifier,
                })),
            },
            (
                Phase::AwaitPair { counterpart_token_identifier, counterpart_decimals, bridge_decimals, pending },
                Event::PairFound { pair_address },
            ) => {
                let query = Query::GetReserves {
                    pair_address: pair_address.clone(),
                    first_token_identifier: bridge_token_identifier.clone(),
                    second_token_identifier: counterpart_token_identifier.clone(),
                    cache: CachePolicy::UntilNextBlock,
                };
                let resolution = Resolution {
                    anchor_token_identifier,
                    bridge_token_identifier,
                    router_address,
                    phase: Phase::AwaitReserves {
                        counterpart_token_identifier,
                        counterpart_decimals,
                        bridge_decimals,
                        pending,
                        pair_address,
                    },
                };
                Step::Ask { resolution, query }
            },
            (
                Phase::AwaitReserves { counterpart_token_identifier, counterpart_decimals, bridge_decimals, pending, pair_address: _ },
                Event::ReservesFetched { first_token_reserve, second_token_reserve },
            ) => {
                if big_uint_is_zero(&second_token_reserve) {
                    return Step::Done {
                        outcome: Err(AppError::XExchange(XExchangeError::DivisionByZero)),
                    };
                }
                let ten_counterpart = big_uint_pow10(counterpart_decimals as u32);
                let ten_bridge = big_uint_pow10(bridge_decimals as u32);
                let num = big_uint_mul(&first_token_reserve, &ten_counterpart);
                let den = big_uint_mul(&second_token_reserve, &ten_bridge);
                proof {
                    lemma_pow10_positive(counterpart_decimals as nat);
                    lemma_pow10_positive(bridge_decimals as nat);
                    lemma_product_nonzero(
                        big_uint_value(second_token_reserve),
                        pow10(bridge_decimals as nat),
                    );
                }
                let ratio = rational_from_parts(num, den);
                if counterpart_token_identifier == anchor_token_identifier {
                    if big_uint_is_zero(&first_token_reserve) {
                        return Step::Done {
                            outcome: Err(AppError::XExchange(XExchangeError::DivisionByZero)),
                        };
                    }
                    proof {
                        lemma_product_nonzero(
                            big_uint_value(first_token_reserve),
                            pow10(counterpart_decimals as nat),
                        );
                        lemma_numer_positive(
                            rational_numer(ratio),
                            rational_denom(ratio),
                            big_uint_value(num) as int,
                            big_uint_value(den) as int,
                        );
                    }
                    let price = rational_inv(ratio);
                    proof {
                        lemma_inverted_value(
                            rational_numer(price),
                            rational_denom(price),
                            rational_numer(ratio),
                            rational_denom(ratio),
                            big_uint_value(num) as int,
                            big_uint_value(den) as int,
                        );
                    }
                    match pending {
                        Option::None => Step::Done { outcome: Ok(price) },
                        Option::Some(q) => {
                            let ghost price_numer = rational_numer(price);
                            let ghost price_denom = rational_denom(price);
                            let final_price = rational_mul(price, q);
                            proof {
                                lemma_composed_value(
                                    rational_numer(final_price),
                                    rational_denom(final_price),
                                    price_numer,
                                    price_denom,
                                    rational_numer(q),
                                    rational_denom(q),
                                    big_uint_value(num) as int,
                                    big_uint_value(den) as int,
                                );
                            }
                            Step::Done { outcome: Ok(final_price) }
                        },
                    }
                } else if bridge_token_identifier == anchor_token_identifier {
                    // The recursive call would price the bridge token, which
                    // in this malformed configuration is the anchor itself
                    // and so is worth exactly one: the round's ratio is
                    // already the final price.
                    Step::Done { outcome: Ok(ratio) }
                } else {
                    let query = Query::GetPair {
                        router_address: router_address.clone(),
                        first_token_identifier: bridge_token_identifier.clone(),
                        second_token_identifier: anchor_token_identifier.clone(),
                        cache: CachePolicy::FixedDuration { seconds: ONE_YEAR },
                    };
                    let resolution = Resolution {
                        anchor_token_identifier: anchor_token_identifier.clone(),
                        bridge_token_identifier,
                        router_address,
                        phase: Phase::AwaitPair {
                            counterpart_token_identifier: anchor_token_identifier,
                            counterpart_decimals: ANCHOR_TOKEN_DECIMALS,
                            bridge_decimals: BRIDGE_TOKEN_DECIMALS,
                            pending: Some(ratio),
                        },
                    };
                    Step::Ask { resolution, query }
                }
            },
            _ => vstd::pervasive::unreached(),
        }
    }
}

/// The immutable configuration of the pricing service: the USD anchor token,
/// the reference (bridge) token and the router the pairs are resolved by.
pub struct XExchangeService {
    usdc_token_identifier: String,
    wegld_token_identifier: String,
    router_address: String,
}

/// The resolution just started: one round against the proper counterpart
/// (the anchor when the bridge token itself is queried, the token otherwise),
/// with nothing pending yet.
pub open spec fn started(svc: XExchangeService, token: Seq<char>, dec: nat, s: Step) -> bool {
    let counterpart = if token == svc.bridge_id() {
        svc.anchor_id()
    } else {
        token
    };
    let cdec: nat = if token == svc.bridge_id() {
        ANCHOR_TOKEN_DECIMALS as nat
    } else {
        dec
    };
    &&& s matches Step::Ask { resolution, query }
    &&& resolution.wf()
    &&& resolution.awaiting_pair()
    &&& resolution.anchor_id() == svc.anchor_id()
    &&& resolution.bridge_id() == svc.bridge_id()
    &&& resolution.router_view() == svc.router_address_view()
    &&& resolution.counterpart_id() == counterpart
    &&& resolution.counterpart_decimals() == cdec
    &&& resolution.bridge_decimals() == (if token == svc.bridge_id() {
        dec
    } else {
        BRIDGE_TOKEN_DECIMALS as nat
    })
    &&& resolution.pending_ratio() is None
    &&& is_get_pair_query(query, svc.router_address_view(), svc.bridge_id(), counterpart)
}

impl XExchangeService {
    pub closed spec fn anchor_id(self) -> Seq<char> {
        self.usdc_token_identifier@
    }

    pub closed spec fn bridge_id(self) -> Seq<char> {
        self.wegld_token_identifier@
    }

    pub closed spec fn router_address_view(self) -> Seq<char> {
        self.router_address@
    }

    pub fn new(
        usdc_token_identifier: String,
        wegld_token_identifier: String,
        router_address: String,
    ) -> (s: XExchangeService)
        ensures
            s.anchor_id() == usdc_token_identifier@,
            s.bridge_id() == wegld_token_identifier@,
            s.router_address_view() == router_address@,
    {
        XExchangeService { usdc_token_identifier, wegld_token_identifier, router_address }
    }

    /// Start resolving the USD price of `token_identifier` with
    /// `token_decimals` decimals. The anchor token itself is worth exactly
    /// one, immediately and with no query; any other token opens a round
    /// against the bridge token. When the bridge token itself is queried,
    /// the supplied decimals are its decimals for that round; the second,
    /// recursive round of a third-token query always uses the configured
    /// `BRIDGE_TOKEN_DECIMALS`.
    pub fn get_fungible_price(&self, token_identifier: &str, token_decimals: u8) -> (s: Step)
        ensures
            token_identifier@ == self.anchor_id() ==> is_price(s, 1, 1),
            token_identifier@ != self.anchor_id() ==> started(
                *self,
                token_identifier@,
                token_decimals as nat,
                s,
            ),
    {
        let token: String = token_identifier.to_owned();
        if token == self.usdc_token_identifier {
            return Step::Done { outcome: Ok(rational_one()) };
        }
        let bridge_query = token == self.wegld_token_identifier;
        let (counterpart_token_identifier, counterpart_decimals): (String, u8) = if bridge_query {
            (self.usdc_token_identifier.clone(), ANCHOR_TOKEN_DECIMALS)
        } else {
            (token, token_decimals)
        };
        let bridge_decimals: u8 = if bridge_query {
            token_decimals
        } else {
            BRIDGE_TOKEN_DECIMALS
        };
        let query = Query::GetPair {
            router_address: self.router_address.clone(),
            first_token_identifier: self.wegld_token_identifier.clone(),
            second_token_identifier: counterpart_token_identifier.clone(),
            cache: CachePolicy::FixedDuration { seconds: ONE_YEAR },
        };
        let resolution = Resolution {
            anchor_token_identifier: self.usdc_token_identifier.clone(),
            bridge_token_identifier: self.wegld_token_identifier.clone(),
            router_address: self.router_address.clone(),
            phase: Phase::AwaitPair {
                counterpart_token_identifier,
                counterpart_decimals,
                bridge_decimals,
                pending: Option::None,
            },
        };
        Step::Ask { resolution, query }
    }
}

proof fn lemma_product_nonzero(a: nat, b: int)
    by (nonlinear_arith)
    requires
        a > 0,
        b > 0,
    ensures
        a * b > 0,
{
}

proof fn lemma_numer_positive(rn: int, rd: int, nv: int, dv: int)
    by (nonlinear_arith)
    requires
        rn * dv == nv * rd,
        rd > 0,
        dv > 0,
        nv > 0,
    ensures
        rn > 0,
{
}

proof fn lemma_inverted_value(pn: int, pd: int, rn: int, rd: int, nv: int, dv: int)
    by (nonlinear_arith)
    requires
        pn * rn == rd * pd,
        rn * dv == nv * rd,
        rd > 0,
        dv > 0,
    ensures
        pn * nv == dv * pd,
{
}

proof fn lemma_composed_value(fnum: int, fden: int, pn: int, pd: int, qn: int, qd: int, nv: int, dv: int)
    by (nonlinear_arith)
    requires
        fnum * (pd * qd) == (pn * qn) * fden,
        pn * nv == dv * pd,
        pd > 0,
        nv > 0,
    ensures
        fnum * (qd * nv) == (qn * dv) * fden,
{
}

} // verus!
