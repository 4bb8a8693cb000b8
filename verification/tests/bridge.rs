use tableland_bridge::{
    complete_read, mock_backend, mock_env, pre_call_check, BackendApi, BackendError, Binary,
    MockApi,
};

const DEFAULT_QUERY_GAS_LIMIT: u64 = 300_000;

#[test]
fn mock_read_works() {
    let api = MockApi::default();

    api.read("select * from my_table", DEFAULT_QUERY_GAS_LIMIT)
        .0
        .unwrap();
}

#[test]
fn read_succeeds_within_ceiling() {
    // The fixture is 16 bytes, so its canonical encoding is 24 bytes and the
    // full charge is 100_000 + 0 * 22 + 100 * 24.
    let api = MockApi::default();
    let (outcome, gas) = api.read("select * from my_table", DEFAULT_QUERY_GAS_LIMIT);
    let payload = outcome.unwrap();
    assert_eq!(payload.as_slice(), &b"eyJkYXRhIjpbMSwyLDNdfQ=="[..]);
    assert_eq!(payload.len(), 24);
    assert_eq!(gas.externally_used, 102_400);
}

#[test]
fn read_charges_same_for_empty_statement() {
    // The request multiplier is zero, so the statement length never changes
    // the charge.
    let api = MockApi::default();
    let (outcome, gas) = api.read("", DEFAULT_QUERY_GAS_LIMIT);
    assert!(outcome.is_ok());
    assert_eq!(gas.externally_used, 102_400);
}

#[test]
fn read_out_of_gas_before_call() {
    // The pre-call charge of 100_000 already exceeds the ceiling, so the
    // call fails at once and is charged exactly that much.
    let api = MockApi::default();
    let (outcome, gas) = api.read("select * from my_table", 50_000);
    assert_eq!(outcome.unwrap_err(), BackendError::OutOfGas);
    assert_eq!(gas.externally_used, 100_000);
}

#[test]
fn read_out_of_gas_after_call() {
    // The pre-call charge fits but the cumulative charge does not: the call
    // fails, yet the full charge for the work performed is recorded.
    let api = MockApi::default();
    let (outcome, gas) = api.read("select * from my_table", 100_100);
    assert_eq!(outcome.unwrap_err(), BackendError::OutOfGas);
    assert_eq!(gas.externally_used, 102_400);
}

#[test]
fn read_succeeds_exactly_at_total_cost() {
    // The ceiling is an inclusive bound: a call whose cumulative charge
    // equals it succeeds; one gas less and it fails.
    let api = MockApi::default();
    let (outcome, gas) = api.read("select * from my_table", 102_400);
    assert!(outcome.is_ok());
    assert_eq!(gas.externally_used, 102_400);

    let (outcome, gas) = api.read("select * from my_table", 102_399);
    assert_eq!(outcome.unwrap_err(), BackendError::OutOfGas);
    assert_eq!(gas.externally_used, 102_400);
}

#[test]
fn read_is_idempotent() {
    let api = MockApi::default();
    let (outcome1, gas1) = api.read("select * from my_table", DEFAULT_QUERY_GAS_LIMIT);
    let (outcome2, gas2) = api.read("select * from my_table", DEFAULT_QUERY_GAS_LIMIT);
    assert_eq!(outcome1.unwrap(), outcome2.unwrap());
    assert_eq!(gas1.externally_used, gas2.externally_used);
}

#[test]
fn forced_failure_returns_unknown() {
    // A backend constructed in failing mode short-circuits every call with
    // the fixed message, whatever the statement or ceiling, and records the
    // pre-call charge.
    let api = MockApi::new_failing("boom");
    for (statement, limit) in [
        ("select * from my_table", DEFAULT_QUERY_GAS_LIMIT),
        ("", 0),
        ("anything", 50_000),
    ] {
        let (outcome, gas) = api.read(statement, limit);
        assert_eq!(
            outcome.unwrap_err(),
            BackendError::Unknown {
                msg: "boom".to_string()
            }
        );
        assert_eq!(gas.externally_used, 100_000);
    }
}

#[test]
fn pre_call_check_decides_budget() {
    let (ok, gas) = pre_call_check("select * from my_table", 100_000);
    assert!(ok.is_ok());
    assert_eq!(gas.externally_used, 100_000);

    let (err, gas) = pre_call_check("select * from my_table", 99_999);
    assert_eq!(err.unwrap_err(), BackendError::OutOfGas);
    assert_eq!(gas.externally_used, 100_000);
}

#[test]
fn complete_read_encodes_response() {
    let response = b"{\"rows\":[4,5,6]}".to_vec();
    let (outcome, gas) = complete_read(
        "select * from my_table",
        Ok(response),
        DEFAULT_QUERY_GAS_LIMIT,
    );
    let payload = outcome.unwrap();
    assert_eq!(payload.as_slice(), &b"eyJyb3dzIjpbNCw1LDZdfQ=="[..]);
    assert_eq!(gas.externally_used, 102_400);
}

#[test]
fn gas_is_backend_independent() {
    // A live response whose encoding has the same length as the fixture's is
    // charged exactly what the test backend charges.
    let api = MockApi::default();
    let (_, mock_gas) = api.read("select * from my_table", DEFAULT_QUERY_GAS_LIMIT);
    let (_, live_gas) = complete_read(
        "select * from my_table",
        Ok(b"{\"rows\":[4,5,6]}".to_vec()),
        DEFAULT_QUERY_GAS_LIMIT,
    );
    assert_eq!(mock_gas.externally_used, live_gas.externally_used);
}

#[test]
fn complete_read_converts_collaborator_failure() {
    // A failure raised by the query collaborator surfaces as a user error
    // carrying its message, charged the pre-call cost.
    let (outcome, gas) = complete_read(
        "select * from my_table",
        Err("query failed: no such table".to_string()),
        DEFAULT_QUERY_GAS_LIMIT,
    );
    assert_eq!(
        outcome.unwrap_err(),
        BackendError::UserErr {
            msg: "query failed: no such table".to_string()
        }
    );
    assert_eq!(gas.externally_used, 100_000);
}

#[test]
fn complete_read_out_of_gas_after_call() {
    let (outcome, gas) = complete_read(
        "select * from my_table",
        Ok(b"{\"rows\":[4,5,6]}".to_vec()),
        101_000,
    );
    assert_eq!(outcome.unwrap_err(), BackendError::OutOfGas);
    assert_eq!(gas.externally_used, 102_400);
}

#[test]
fn binary_exposes_its_bytes() {
    let b = Binary(vec![1, 2, 3]);
    assert_eq!(b.len(), 3);
    assert_eq!(b.as_slice(), &[1, 2, 3][..]);
}

#[test]
fn mock_backend_reads() {
    let backend = mock_backend();
    let (outcome, gas) = backend
        .api
        .read("select * from my_table", DEFAULT_QUERY_GAS_LIMIT);
    assert!(outcome.is_ok());
    assert_eq!(gas.externally_used, 102_400);
}

#[test]
fn mock_env_is_fixed() {
    let env = mock_env();
    assert_eq!(env.block.height, 12_345);
    assert_eq!(env.block.chain_id, "yoyo");
}
