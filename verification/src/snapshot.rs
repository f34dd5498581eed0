//! A deterministic, in-memory transport: price resolution against a snapshot
//! of the exchange's pairs and reserves.
//!
//! `get_fungible_price_with_snapshot` runs the resolution state machine to
//! completion, answering every query from a table of pair records, and its
//! contract states the whole algorithm: the anchor token is worth one with no
//! lookup; the bridge token is worth the inverse of its bridge-to-anchor
//! reserve ratio; a third token is worth the bridge token's own USD price
//! times its bridge ratio; a token without a pair fails with `PairNotFound`
//! carrying the bridge token first; an empty reserve on the relevant side
//! fails with `DivisionByZero`.

use vstd::prelude::*;
use crate::errors::app::AppError;
use crate::errors::app::TransportError;
use crate::errors::xexchange::XExchangeError;
use crate::rational::big_uint_clone;
use crate::rational::big_uint_value;
use crate::rational::pow10;
use crate::rational::rat_is;
use crate::rational::rational_denom;
use crate::rational::rational_numer;
use crate::xexchange::composed_price;
use crate::xexchange::step_spec;
use crate::xexchange::ANCHOR_TOKEN_DECIMALS;
use crate::xexchange::BRIDGE_TOKEN_DECIMALS;
use crate::xexchange::Event;
use crate::xexchange::Query;
use crate::xexchange::Resolution;
use crate::xexchange::Step;
use crate::xexchange::XExchangeService;

verus! {

/// One liquidity pair of the snapshot: its address and the raw reserves of
/// its two tokens, the bridge token first.
pub struct PairRecord {
    pub first_token_identifier: String,
    pub second_token_identifier: String,
    pub pair_address: String,
    pub first_token_reserve: num_bigint::BigUint,
    pub second_token_reserve: num_bigint::BigUint,
}

/// The first record whose two token identifiers are `first` and `second`,
/// in that order.
pub open spec fn find_pair(records: Seq<PairRecord>, first: Seq<char>, second: Seq<char>) -> Option<PairRecord>
    decreases records.len(),
{
    if records.len() == 0 {
        Option::None
    } else if records[0].first_token_identifier@ == first && records[0].second_token_identifier@
        == second {
        Option::Some(records[0])
    } else {
        find_pair(records.drop_first(), first, second)
    }
}

/// The first record at address `addr` holding reserves for `first` and
/// `second`, in that order.
pub open spec fn find_reserves(records: Seq<PairRecord>, addr: Seq<char>, first: Seq<char>, second: Seq<char>) -> Option<PairRecord>
    decreases records.len(),
{
    if records.len() == 0 {
        Option::None
    } else if records[0].pair_address@ == addr && records[0].first_token_identifier@ == first
        && records[0].second_token_identifier@ == second {
        Option::Some(records[0])
    } else {
        find_reserves(records.drop_first(), addr, first, second)
    }
}

/// What a resolution against a snapshot must end in.
pub enum SpecOutcome {
    /// An exact non-negative price standing for `num / den`.
    PriceRatio { num: int, den: int },
    /// The router knows no pair for the two identifiers, in this order.
    PairNotFound { first: Seq<char>, second: Seq<char> },
    /// A reserve that stands in a denominator, or under an inversion, is zero.
    DivisionByZero,
    /// The reserves of a resolved pair address could not be read.
    Unavailable,
}

/// The second, recursive round: the bridge token priced against the anchor,
/// composed with the already-computed bridge ratio `num1 / den1` of the
/// queried token.
pub open spec fn bridge_round(records: Seq<PairRecord>, anchor: Seq<char>, bridge: Seq<char>, num1: int, den1: int) -> SpecOutcome {
    match find_pair(records, bridge, anchor) {
        Option::None => SpecOutcome::PairNotFound { first: bridge, second: anchor },
        Option::Some(rec) => match find_reserves(records, rec.pair_address@, bridge, anchor) {
            Option::None => SpecOutcome::Unavailable,
            Option::Some(r2) => {
                let b2 = big_uint_value(r2.first_token_reserve);
                let a = big_uint_value(r2.second_token_reserve);
                if a == 0 || b2 == 0 {
                    SpecOutcome::DivisionByZero
                } else {
                    SpecOutcome::PriceRatio {
                        num: num1 * ((a as int) * pow10(BRIDGE_TOKEN_DECIMALS as nat)),
                        den: den1 * ((b2 as int) * pow10(ANCHOR_TOKEN_DECIMALS as nat)),
                    }
                }
            },
        },
    }
}

/// The price-resolution algorithm, stated over the snapshot contents.
pub open spec fn spec_resolve(records: Seq<PairRecord>, anchor: Seq<char>, bridge: Seq<char>, token: Seq<char>, dec: nat) -> SpecOutcome {
    if token == anchor {
        SpecOutcome::PriceRatio { num: 1, den: 1 }
    } else {
        let counterpart = if token == bridge {
            anchor
        } else {
            token
        };
        let cdec: nat = if token == bridge {
            ANCHOR_TOKEN_DECIMALS as nat
        } else {
            dec
        };
        match find_pair(records, bridge, counterpart) {
            Option::None => SpecOutcome::PairNotFound { first: bridge, second: counterpart },
            Option::Some(rec) => match find_reserves(records, rec.pair_address@, bridge, counterpart) {
                Option::None => SpecOutcome::Unavailable,
                Option::Some(r1) => {
                    let b = big_uint_value(r1.first_token_reserve);
                    let c = big_uint_value(r1.second_token_reserve);
                    if c == 0 {
                        SpecOutcome::DivisionByZero
                    } else if counterpart == anchor {
                        // The queried token is the bridge itself, so the
                        // caller-supplied decimals are the bridge-side
                        // exponent of this round.
                        if b == 0 {
                            SpecOutcome::DivisionByZero
                        } else {
                            SpecOutcome::PriceRatio {
                                num: (c as int) * pow10(dec),
                                den: (b as int) * pow10(cdec),
                            }
                        }
                    } else if anchor == bridge {
                        // Malformed configuration: the bridge token is the
                        // anchor and is worth exactly one, so the round's
                        // ratio is already the final price.
                        SpecOutcome::PriceRatio {
                            num: (b as int) * pow10(cdec),
                            den: (c as int) * pow10(BRIDGE_TOKEN_DECIMALS as nat),
                        }
                    } else {
                        bridge_round(
                            records,
                            anchor,
                            bridge,
                            (b as int) * pow10(cdec),
                            (c as int) * pow10(BRIDGE_TOKEN_DECIMALS as nat),
                        )
                    }
                },
            },
        }
    }
}

/// The message `answer` reports when a resolved pair address holds no
/// reserves in the snapshot.
pub open spec fn reserves_unavailable_message() -> Seq<char> {
    "no reserves at the resolved pair address"@
}

/// The executable result agrees with the outcome the snapshot dictates.
pub open spec fn outcome_matches(r: Result<num_rational::BigRational, AppError>, o: SpecOutcome) -> bool {
    match o {
        SpecOutcome::PriceRatio { num, den } => {
            &&& r matches Ok(p)
            &&& rat_is(p, num, den)
            &&& rational_numer(p) >= 0
        },
        SpecOutcome::PairNotFound { first, second } => {
            &&& r matches Err(e)
            &&& e matches AppError::XExchange(x)
            &&& x matches XExchangeError::PairNotFound { first_token_identifier, second_token_identifier }
            &&& first_token_identifier@ == first
            &&& second_token_identifier@ == second
        },
        SpecOutcome::DivisionByZero => {
            &&& r matches Err(e)
            &&& e matches AppError::XExchange(x)
            &&& x is DivisionByZero
        },
        SpecOutcome::Unavailable => {
            &&& r matches Err(e)
            &&& e matches AppError::Transport(t)
            &&& t.message@ == reserves_unavailable_message()
        },
    }
}

/// Index of the first record whose token identifiers are `first` and
/// `second`, in that order.
fn lookup_pair_index(records: &Vec<PairRecord>, first: &String, second: &String) -> (r: Option<usize>)
    ensures
        (match r {
            Option::Some(i) => i < records@.len() && find_pair(records@, first@, second@)
                == Option::Some(records@[i as int]),
            Option::None => find_pair(records@, first@, second@) is None,
        }),
{
    let n = records.len();
    let mut i: usize = 0;
    proof {
        assert(records@.skip(0) =~= records@);
    }
    while i < n
        invariant
            i <= n,
            n == records@.len(),
            find_pair(records@, first@, second@) == find_pair(
                records@.skip(i as int),
                first@,
                second@,
            ),
        decreases n - i,
    {
        let rec = &records[i];
        proof {
            assert(records@.skip(i as int)[0] == records@[i as int]);
        }
        if rec.first_token_identifier == *first && rec.second_token_identifier == *second {
            return Some(i);
        }
        proof {
            assert(records@.skip(i as int).drop_first() =~= records@.skip(i as int + 1));
        }
        i += 1;
    }
    proof {
        assert(records@.skip(n as int).len() == 0);
    }
    None
}

/// Index of the first record at `addr` holding reserves for `first` and
/// `second`, in that order.
fn lookup_reserves_index(records: &Vec<PairRecord>, addr: &String, first: &String, second: &String) -> (r: Option<usize>)
    ensures
        (match r {
            Option::Some(i) => i < records@.len() && find_reserves(records@, addr@, first@, second@)
                == Option::Some(records@[i as int]),
            Option::None => find_reserves(records@, addr@, first@, second@) is None,
        }),
{
    let n = records.len();
    let mut i: usize = 0;
    proof {
        assert(records@.skip(0) =~= records@);
    }
    while i < n
        invariant
            i <= n,
            n == records@.len(),
            find_reserves(records@, addr@, first@, second@) == find_reserves(
                records@.skip(i as int),
                addr@,
                first@,
                second@,
            ),
        decreases n - i,
    {
        let rec = &records[i];
        proof {
            assert(records@.skip(i as int)[0] == records@[i as int]);
        }
        if rec.pair_address == *addr && rec.first_token_identifier == *first
            && rec.second_token_identifier == *second {
            return Some(i);
        }
        proof {
            assert(records@.skip(i as int).drop_first() =~= records@.skip(i as int + 1));
        }
        i += 1;
    }
    proof {
        assert(records@.skip(n as int).len() == 0);
    }
    None
}

/// Answer one query from the snapshot.
pub fn answer(records: &Vec<PairRecord>, query: &Query) -> (e: Event)
    ensures
        (query matches Query::GetPair { first_token_identifier, second_token_identifier, .. }
            ==> (match find_pair(records@, first_token_identifier@, second_token_identifier@) {
            Option::Some(rec) => e matches Event::PairFound { pair_address } && pair_address@
                == rec.pair_address@,
            Option::None => e is PairMissing,
        })),
        (query matches Query::GetReserves { pair_address, first_token_identifier, second_token_identifier, .. }
            ==> (match find_reserves(
            records@,
            pair_address@,
            first_token_identifier@,
            second_token_identifier@,
        ) {
            Option::Some(rec) => {
                &&& e matches Event::ReservesFetched { first_token_reserve, second_token_reserve }
                &&& big_uint_value(first_token_reserve) == big_uint_value(rec.first_token_reserve)
                &&& big_uint_value(second_token_reserve) == big_uint_value(rec.second_token_reserve)
            },
            Option::None => e matches Event::QueryFailed { error } && error.message@
                == reserves_unavailable_message(),
        })),
{
    match query {
        Query::GetPair { first_token_identifier: first, second_token_identifier: second, .. } => {
            match lookup_pair_index(records, first, second) {
                Some(i) => Event::PairFound { pair_address: records[i].pair_address.clone() },
                None => Event::PairMissing,
            }
        },
        Query::GetReserves {
            pair_address: addr,
            first_token_identifier: first,
            second_token_identifier: second,
            ..
        } => {
            match lookup_reserves_index(records, addr, first, second) {
                Some(i) => Event::ReservesFetched {
                    first_token_reserve: big_uint_clone(&records[i].first_token_reserve),
                    second_token_reserve: big_uint_clone(&records[i].second_token_reserve),
                },
                None => Event::QueryFailed {
                    error: TransportError {
                        message: "no reserves at the resolved pair address".to_owned(),
                    },
                },
            }
        },
    }
}

impl XExchangeService {
    /// Resolve `token_identifier` to its exact USD price against an
    /// in-memory snapshot of the exchange, running the state machine to
    /// completion with `answer` as the transport.
    pub fn get_fungible_price_with_snapshot(
        &self,
        token_identifier: &str,
        token_decimals: u8,
        records: &Vec<PairRecord>,
    ) -> (r: Result<num_rational::BigRational, AppError>)
        ensures
            outcome_matches(
                r,
                spec_resolve(
                    records@,
                    self.anchor_id(),
                    self.bridge_id(),
                    token_identifier@,
                    token_decimals as nat,
                ),
            ),
    {
        match self.get_fungible_price(token_identifier, token_decimals) {
            Step::Done { outcome } => outcome,
            Step::Ask { resolution, query } => {
                let event = answer(records, &query);
                match resolution.step(event) {
                    Step::Done { outcome } => outcome,
                    Step::Ask { resolution: resolution2, query: query2 } => {
                        let event2 = answer(records, &query2);
                        match resolution2.step(event2) {
                            Step::Done { outcome } => outcome,
                            Step::Ask { resolution: resolution3, query: query3 } => {
                                let event3 = answer(records, &query3);
                                match resolution3.step(event3) {
                                    Step::Done { outcome } => outcome,
                                    Step::Ask { resolution: resolution4, query: query4 } => {
                                        let event4 = answer(records, &query4);
                                        let last = resolution4.step(event4);
                                        proof {
                                            lemma_final_price(
                                                resolution2,
                                                event2,
                                                resolution4,
                                                event4,
                                                last,
                                            );
                                        }
                                        match last {
                                            Step::Done { outcome } => outcome,
                                            Step::Ask { .. } => vstd::pervasive::unreached(),
                                        }
                                    },
                                }
                            },
                        }
                    },
                }
            },
        }
    }
}

/// The second round's step always finishes (its counterpart is the anchor),
/// and when it finishes with a price, that price composes the pending
/// bridge ratio of the first round with the inverted anchor-round ratio.
proof fn lemma_final_price(pre1: Resolution, event1: Event, pre2: Resolution, event2: Event, s: Step)
    requires
        step_spec(pre2, event2, s),
        pre2.wf(),
        pre2.awaiting_reserves(),
        pre2.counterpart_id() == pre2.anchor_id(),
        event2 matches Event::ReservesFetched { .. } || event2 is QueryFailed,
        (match event1 {
            Event::ReservesFetched { first_token_reserve, second_token_reserve } => {
                let b = big_uint_value(first_token_reserve);
                let c = big_uint_value(second_token_reserve);
                pre2.pending_ratio() matches Some(q) && rat_is(
                    q,
                    (b as int) * pow10(pre1.counterpart_decimals()),
                    (c as int) * pow10(pre1.bridge_decimals()),
                )
            },
            _ => false,
        }),
    ensures
        s is Done,
        (match (event1, event2) {
            (
                Event::ReservesFetched { first_token_reserve: r1b, second_token_reserve: r1c },
                Event::ReservesFetched { first_token_reserve: r2b, second_token_reserve: r2c },
            ) => {
                let n1 = (big_uint_value(r1b) as int) * pow10(pre1.counterpart_decimals());
                let d1 = (big_uint_value(r1c) as int) * pow10(pre1.bridge_decimals());
                let n2 = (big_uint_value(r2b) as int) * pow10(pre2.counterpart_decimals());
                let d2 = (big_uint_value(r2c) as int) * pow10(pre2.bridge_decimals());
                big_uint_value(r2b) != 0 && big_uint_value(r2c) != 0 ==> (
                    s matches Step::Done { outcome }
                    && outcome matches Ok(p)
                    && rat_is(p, n1 * d2, d1 * n2)
                    && rational_numer(p) >= 0
                )
            },
            _ => true,
        }),
{
    match (event1, event2) {
        (
            Event::ReservesFetched { first_token_reserve: r1b, second_token_reserve: r1c },
            Event::ReservesFetched { first_token_reserve: r2b, second_token_reserve: r2c },
        ) => {
            let n1 = (big_uint_value(r1b) as int) * pow10(pre1.counterpart_decimals());
            let d1 = (big_uint_value(r1c) as int) * pow10(pre1.bridge_decimals());
            let n2 = (big_uint_value(r2b) as int) * pow10(pre2.counterpart_decimals());
            let d2 = (big_uint_value(r2c) as int) * pow10(pre2.bridge_decimals());
            if big_uint_value(r2b) != 0 && big_uint_value(r2c) != 0 {
                match pre2.pending_ratio() {
                    Option::Some(q) => {
                        assert(composed_price(s, q, n2, d2));
                        match s {
                            Step::Done { outcome } => match outcome {
                                Result::Ok(p) => {
                                    lemma_two_round_value(
                                        rational_numer(p),
                                        rational_denom(p),
                                        rational_numer(q),
                                        rational_denom(q),
                                        n1,
                                        d1,
                                        n2,
                                        d2,
                                    );
                                },
                                Result::Err(_) => {},
                            },
                            Step::Ask { .. } => {},
                        }
                    },
                    Option::None => {},
                }
            }
        },
        _ => {},
    }
}

proof fn lemma_two_round_value(pn: int, pd: int, qn: int, qd: int, n1: int, d1: int, n2: int, d2: int)
    by (nonlinear_arith)
    requires
        pn * (qd * n2) == (qn * d2) * pd,
        qn * d1 == n1 * qd,
        qd > 0,
    ensures
        pn * (d1 * n2) == (n1 * d2) * pd,
{
}

/// Resolving twice with the same arguments against the same snapshot yields
/// the same rational value: any two prices that stand for the one pinned
/// ratio agree as rational numbers.
pub proof fn lemma_resolution_deterministic(
    p1: num_rational::BigRational,
    p2: num_rational::BigRational,
    num: int,
    den: int,
)
    by (nonlinear_arith)
    requires
        rat_is(p1, num, den),
        rat_is(p2, num, den),
        den != 0,
    ensures
        rational_numer(p1) * rational_denom(p2) == rational_numer(p2) * rational_denom(p1),
{
}

} // verus!
