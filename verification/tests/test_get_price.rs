use num_bigint::BigInt;
use num_bigint::BigUint;
use num_rational::BigRational;
use num_traits::ToPrimitive;
use novax_price_getter::XExchangeService;
use novax_price_getter::errors::AppError;
use novax_price_getter::errors::TransportError;
use novax_price_getter::errors::XExchangeError;
use novax_price_getter::snapshot::PairRecord;
use novax_price_getter::xexchange::CachePolicy;
use novax_price_getter::xexchange::Event;
use novax_price_getter::xexchange::ONE_YEAR;
use novax_price_getter::xexchange::Query;
use novax_price_getter::xexchange::Step;

const XEXCHANGE_ROUTER_ADDRESS: &str = "erd1qqqqqqqqqqqqqpgqg2esr6d6tfd250x4n3tkhfkw8cc4p2x50n4swatdz6";
const USDC_WEGLD_PAIR_ADDRESS: &str = "erd1qqqqqqqqqqqqqpgqeel2kumf0r8ffyhth7pqdujjat9nx0862jpsg2pqaq";
const MEX_WEGLD_PAIR_ADDRESS: &str = "erd1qqqqqqqqqqqqqpgqa0fsfshnff4n76jhcye6k7uvd7qacsq42jpsp6shh2";

// Reserves of the WEGLD/USDC pair in the fixture.
const WEGLD_RESERVE: &str = "562949953421312000000000000";
const USDC_RESERVE: &str = "8363612914745633";
// Reserves of the WEGLD/MEX pair in the fixture.
const WEGLD_RESERVE_IN_MEX_PAIR: &str = "371778985056365855821013188608";
const MEX_RESERVE: &str = "77140713484942337452319721562046464";

fn uint(digits: &str) -> BigUint {
    BigUint::parse_bytes(digits.as_bytes(), 10).unwrap()
}

fn fixture() -> Vec<PairRecord> {
    vec![
        PairRecord {
            first_token_identifier: "WEGLD-d7c6bb".to_string(),
            second_token_identifier: "USDC-8d4068".to_string(),
            pair_address: USDC_WEGLD_PAIR_ADDRESS.to_string(),
            first_token_reserve: uint(WEGLD_RESERVE),
            second_token_reserve: uint(USDC_RESERVE),
        },
        PairRecord {
            first_token_identifier: "WEGLD-d7c6bb".to_string(),
            second_token_identifier: "MEX-dc289c".to_string(),
            pair_address: MEX_WEGLD_PAIR_ADDRESS.to_string(),
            first_token_reserve: uint(WEGLD_RESERVE_IN_MEX_PAIR),
            second_token_reserve: uint(MEX_RESERVE),
        },
    ]
}

fn init_service() -> XExchangeService {
    XExchangeService::new(
        "USDC-8d4068".to_string(),
        "WEGLD-d7c6bb".to_string(),
        XEXCHANGE_ROUTER_ADDRESS.to_string(),
    )
}

#[test]
fn test_get_price_with_usdc() {
    let service = init_service();

    let result = service
        .get_fungible_price_with_snapshot("USDC-8d4068", 18, &fixture())
        .unwrap()
        .to_f64()
        .unwrap();

    let expected = 1f64;

    assert_eq!(result, expected);
}

#[test]
fn test_get_price_with_wegld() {
    let service = init_service();

    let result = service
        .get_fungible_price_with_snapshot("WEGLD-d7c6bb", 18, &fixture())
        .unwrap()
        .to_f64()
        .unwrap();

    let expected = 14.856761003204669;

    assert_eq!(result, expected);
}

#[test]
fn test_get_price_with_wegld_exact_rational() {
    let service = init_service();

    let result = service
        .get_fungible_price_with_snapshot("WEGLD-d7c6bb", 18, &fixture())
        .unwrap();

    let numerator = BigInt::from(uint(USDC_RESERVE)) * BigInt::from(10u8).pow(18);
    let denominator = BigInt::from(uint(WEGLD_RESERVE)) * BigInt::from(10u8).pow(6);
    let expected = BigRational::new(numerator, denominator);

    assert_eq!(result, expected);
}

#[test]
fn test_bridge_price_follows_caller_supplied_decimals() {
    let service = init_service();

    let result = service
        .get_fungible_price_with_snapshot("WEGLD-d7c6bb", 12, &fixture())
        .unwrap();

    let numerator = BigInt::from(uint(USDC_RESERVE)) * BigInt::from(10u8).pow(12);
    let denominator = BigInt::from(uint(WEGLD_RESERVE)) * BigInt::from(10u8).pow(6);
    let expected = BigRational::new(numerator, denominator);

    assert_eq!(result, expected);
}

#[test]
fn test_same_bridge_and_anchor_prices_through_one_round() {
    let service = XExchangeService::new(
        "WEGLD-d7c6bb".to_string(),
        "WEGLD-d7c6bb".to_string(),
        XEXCHANGE_ROUTER_ADDRESS.to_string(),
    );
    let records = fixture();

    let anchor_price = service
        .get_fungible_price_with_snapshot("WEGLD-d7c6bb", 18, &records)
        .unwrap()
        .to_f64()
        .unwrap();
    assert_eq!(anchor_price, 1f64);

    let result = service
        .get_fungible_price_with_snapshot("MEX-dc289c", 18, &records)
        .unwrap();

    let numerator = BigInt::from(uint(WEGLD_RESERVE_IN_MEX_PAIR)) * BigInt::from(10u8).pow(18);
    let denominator = BigInt::from(uint(MEX_RESERVE)) * BigInt::from(10u8).pow(18);
    let expected = BigRational::new(numerator, denominator);

    assert_eq!(result, expected);
}

#[test]
fn test_missing_reserves_answer_names_its_failure() {
    let records = fixture();
    let query = Query::GetReserves {
        pair_address: "erd1qqqqqqqqqqqqqpgqunknownunknownunknownunknownunknown2jps".to_string(),
        first_token_identifier: "WEGLD-d7c6bb".to_string(),
        second_token_identifier: "USDC-8d4068".to_string(),
        cache: CachePolicy::UntilNextBlock,
    };

    match novax_price_getter::snapshot::answer(&records, &query) {
        Event::QueryFailed { error } => {
            assert_eq!(error.message, "no reserves at the resolved pair address");
        }
        _ => panic!("reserves of an unknown address cannot be fetched"),
    }
}

#[test]
fn test_get_price_with_mex() {
    let service = init_service();

    let result = service
        .get_fungible_price_with_snapshot("MEX-dc289c", 18, &fixture())
        .unwrap()
        .to_f64()
        .unwrap();

    let expected = 0.00007160202800139497;

    assert_eq!(result, expected);
}

#[test]
fn test_get_price_with_unknown_token() {
    let service = init_service();

    let result = service
        .get_fungible_price_with_snapshot("ABC-648400", 18, &fixture())
        .unwrap_err();

    let expected = AppError::XExchange(XExchangeError::PairNotFound {
        first_token_identifier: "WEGLD-d7c6bb".to_string(),
        second_token_identifier: "ABC-648400".to_string(),
    });

    assert_eq!(result, expected);
}

#[test]
fn test_resolving_twice_gives_identical_rationals() {
    let service = init_service();
    let records = fixture();

    let first = service
        .get_fungible_price_with_snapshot("MEX-dc289c", 18, &records)
        .unwrap();
    let second = service
        .get_fungible_price_with_snapshot("MEX-dc289c", 18, &records)
        .unwrap();

    assert_eq!(first.numer(), second.numer());
    assert_eq!(first.denom(), second.denom());
    assert_eq!(first, second);
}

#[test]
fn test_zero_counterpart_reserve_fails_with_division_by_zero() {
    let service = init_service();
    let records = vec![PairRecord {
        first_token_identifier: "WEGLD-d7c6bb".to_string(),
        second_token_identifier: "MEX-dc289c".to_string(),
        pair_address: MEX_WEGLD_PAIR_ADDRESS.to_string(),
        first_token_reserve: uint(WEGLD_RESERVE_IN_MEX_PAIR),
        second_token_reserve: BigUint::from(0u8),
    }];

    let result = service
        .get_fungible_price_with_snapshot("MEX-dc289c", 18, &records)
        .unwrap_err();

    assert_eq!(result, AppError::XExchange(XExchangeError::DivisionByZero));
}

#[test]
fn test_zero_bridge_reserve_fails_under_inversion() {
    let service = init_service();
    let records = vec![PairRecord {
        first_token_identifier: "WEGLD-d7c6bb".to_string(),
        second_token_identifier: "USDC-8d4068".to_string(),
        pair_address: USDC_WEGLD_PAIR_ADDRESS.to_string(),
        first_token_reserve: BigUint::from(0u8),
        second_token_reserve: uint(USDC_RESERVE),
    }];

    let result = service
        .get_fungible_price_with_snapshot("WEGLD-d7c6bb", 18, &records)
        .unwrap_err();

    assert_eq!(result, AppError::XExchange(XExchangeError::DivisionByZero));
}

#[test]
fn test_zero_bridge_reserve_in_third_token_pair_gives_zero_price() {
    let service = init_service();
    let mut records = fixture();
    records[1].first_token_reserve = BigUint::from(0u8);

    let result = service
        .get_fungible_price_with_snapshot("MEX-dc289c", 18, &records)
        .unwrap()
        .to_f64()
        .unwrap();

    assert_eq!(result, 0f64);
}

#[test]
fn test_anchor_token_resolves_without_any_query() {
    let service = init_service();

    match service.get_fungible_price("USDC-8d4068", 18) {
        Step::Done { outcome } => {
            let price = outcome.unwrap().to_f64().unwrap();
            assert_eq!(price, 1f64);
        }
        Step::Ask { .. } => panic!("the anchor token must resolve without a query"),
    }
}

#[test]
fn test_pair_lookup_uses_year_long_cache_and_bridge_first_order() {
    let service = init_service();

    match service.get_fungible_price("MEX-dc289c", 18) {
        Step::Ask { resolution: _, query } => match query {
            Query::GetPair {
                router_address,
                first_token_identifier,
                second_token_identifier,
                cache,
            } => {
                assert_eq!(router_address.as_str(), XEXCHANGE_ROUTER_ADDRESS);
                assert_eq!(first_token_identifier.as_str(), "WEGLD-d7c6bb");
                assert_eq!(second_token_identifier.as_str(), "MEX-dc289c");
                assert!(matches!(cache, CachePolicy::FixedDuration { seconds } if seconds == ONE_YEAR));
            }
            Query::GetReserves { .. } => panic!("the first query must be a pair lookup"),
        },
        Step::Done { .. } => panic!("a third token needs at least one query"),
    }
}

#[test]
fn test_reserve_fetch_uses_block_scoped_cache() {
    let service = init_service();

    let Step::Ask { resolution, query: _ } = service.get_fungible_price("WEGLD-d7c6bb", 18) else {
        panic!("the bridge token needs a pair lookup");
    };
    match resolution.step(Event::PairFound {
        pair_address: USDC_WEGLD_PAIR_ADDRESS.to_string(),
    }) {
        Step::Ask { resolution: _, query } => match query {
            Query::GetReserves {
                pair_address,
                first_token_identifier,
                second_token_identifier,
                cache,
            } => {
                assert_eq!(pair_address.as_str(), USDC_WEGLD_PAIR_ADDRESS);
                assert_eq!(first_token_identifier.as_str(), "WEGLD-d7c6bb");
                assert_eq!(second_token_identifier.as_str(), "USDC-8d4068");
                assert!(matches!(cache, CachePolicy::UntilNextBlock));
            }
            Query::GetPair { .. } => panic!("after the pair is found the reserves are fetched"),
        },
        Step::Done { .. } => panic!("the resolution cannot finish before the reserves arrive"),
    }
}

#[test]
fn test_transport_failure_is_passed_through_unchanged() {
    let service = init_service();

    let Step::Ask { resolution, query: _ } = service.get_fungible_price("MEX-dc289c", 18) else {
        panic!("a third token needs at least one query");
    };
    match resolution.step(Event::QueryFailed {
        error: TransportError {
            message: "gateway unreachable".to_string(),
        },
    }) {
        Step::Done { outcome } => {
            let expected = AppError::Transport(TransportError {
                message: "gateway unreachable".to_string(),
            });
            assert_eq!(outcome.unwrap_err(), expected);
        }
        Step::Ask { .. } => panic!("a transport failure aborts the resolution"),
    }
}

#[test]
fn test_domain_errors_convert_into_app_errors() {
    let from_domain = AppError::from(XExchangeError::DivisionByZero);
    assert_eq!(from_domain, AppError::XExchange(XExchangeError::DivisionByZero));

    let from_transport = AppError::from(TransportError {
        message: "timeout".to_string(),
    });
    assert_eq!(
        from_transport,
        AppError::Transport(TransportError {
            message: "timeout".to_string(),
        })
    );

    let not_found = XExchangeError::PairNotFound {
        first_token_identifier: "WEGLD-d7c6bb".to_string(),
        second_token_identifier: "ABC-648400".to_string(),
    };
    assert_ne!(
        AppError::XExchange(not_found),
        AppError::XExchange(XExchangeError::DivisionByZero)
    );
}
