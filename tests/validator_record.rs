use validator_gateway::config::{endpoint_from_parse, rpc_endpoint, ConfigError};
use validator_gateway::document::{
    build_document, commission_of, describe, CommissionInfo, ValidatorMetadata,
};
use validator_gateway::lookup::{Action, Answer, Lookup, RequestError, UpstreamQuery};
use validator_gateway::status::{status_and_jailed, ValidatorState};

fn s(t: &str) -> String {
    t.to_string()
}

fn metadata() -> ValidatorMetadata {
    ValidatorMetadata {
        discord_handle: Some(s("val#1")),
        website: Some(s("https://val.example")),
        email: Some(s("ops@val.example")),
        description: None,
    }
}

fn commission() -> CommissionInfo {
    CommissionInfo {
        commission_rate: s("0.05"),
        max_commission_change_per_epoch: s("0.01"),
    }
}

#[test]
fn status_table_for_every_state() {
    let cases = [
        (ValidatorState::Consensus, "CONSENSUS", false),
        (ValidatorState::BelowCapacity, "BELOW_CAPACITY", false),
        (ValidatorState::BelowThreshold, "BELOW_THRESHOLD", false),
        (ValidatorState::Inactive, "INACTIVE", false),
        (ValidatorState::Jailed, "JAILED", true),
    ];
    for (state, word, jailed) in cases {
        assert_eq!(status_and_jailed(Some(state)), (Some(s(word)), Some(jailed)));
    }
    assert_eq!(status_and_jailed(None), (None, None));
}

#[test]
fn jailed_validator_record() {
    let d = build_document(
        s("val1abc..."),
        Some(ValidatorState::Jailed),
        Some(metadata()),
        Some(commission()),
        s("1000.5"),
    );
    assert_eq!(d.jailed, Some(true));
    assert_eq!(d.status, Some(s("JAILED")));
    assert_eq!(d.tokens, s("1000.5"));
    assert_eq!(d.operator_address, s("val1abc..."));
    assert_eq!(d.description.moniker, Some(s("val#1")));
    assert_eq!(d.description.website, Some(s("https://val.example")));
    assert_eq!(d.description.security_contact, Some(s("ops@val.example")));
    assert_eq!(d.description.details, None);
    assert_eq!(d.commission.commission_rates.rate, Some(s("0.05")));
    assert_eq!(d.commission.commission_rates.max_change_rate, Some(s("0.01")));
}

#[test]
fn unknown_validator_keeps_address() {
    let d = build_document(s("tnam1qunknown"), None, None, None, s("0"));
    assert_eq!(d.status, None);
    assert_eq!(d.jailed, None);
    assert_eq!(d.operator_address, s("tnam1qunknown"));
}

#[test]
fn absent_metadata_leaves_description_empty() {
    let d = describe(&None);
    assert_eq!(d.moniker, None);
    assert_eq!(d.identity, None);
    assert_eq!(d.website, None);
    assert_eq!(d.security_contact, None);
    assert_eq!(d.details, None);
    let full = build_document(s("a"), Some(ValidatorState::Consensus), None, Some(commission()), s("1"));
    assert_eq!(full.description, d);
    assert_eq!(full.commission.commission_rates.rate, Some(s("0.05")));
}

#[test]
fn absent_commission_leaves_rates_empty() {
    let c = commission_of(&None);
    assert_eq!(c.commission_rates.rate, None);
    assert_eq!(c.commission_rates.max_rate, None);
    assert_eq!(c.commission_rates.max_change_rate, None);
    assert_eq!(c.update_time, None);
    let full = build_document(s("a"), Some(ValidatorState::Inactive), Some(metadata()), None, s("1"));
    assert_eq!(full.commission, c);
    assert_eq!(full.description.moniker, Some(s("val#1")));
}

#[test]
fn unsourced_fields_are_null() {
    let d = build_document(
        s("a"),
        Some(ValidatorState::Consensus),
        Some(metadata()),
        Some(commission()),
        s("5"),
    );
    assert_eq!(d.description.identity, None);
    assert_eq!(d.commission.commission_rates.max_rate, None);
    assert_eq!(d.commission.update_time, None);
}

#[test]
fn eighteen_fraction_digits_kept() {
    let c = CommissionInfo {
        commission_rate: s("0.050000000000000001"),
        max_commission_change_per_epoch: s("0.000000000000000001"),
    };
    let d = build_document(s("a"), None, None, Some(c), s("123456789.123456789012345678"));
    assert_eq!(d.tokens, s("123456789.123456789012345678"));
    assert_eq!(d.commission.commission_rates.rate, Some(s("0.050000000000000001")));
    assert_eq!(
        d.commission.commission_rates.max_change_rate,
        Some(s("0.000000000000000001"))
    );
}

#[test]
fn malformed_address_is_client_error() {
    let (_, action) = Lookup::begin(s("not-an-address"), Some(s("bad checksum")));
    match action {
        Action::Reject(e) => {
            assert_eq!(e.http_status(), 400);
            assert_eq!(
                e,
                RequestError::InvalidAddress { address: s("not-an-address"), reason: s("bad checksum") }
            );
            assert_eq!(e.message(), s("invalid validator address not-an-address: bad checksum"));
        }
        other => panic!("unexpected action {:?}", other),
    }
}

#[test]
fn full_lookup_responds_with_record() {
    let (l, a) = Lookup::begin(s("val1abc..."), None);
    assert_eq!(a, Action::FetchEpoch);
    assert_eq!(l.pending(), UpstreamQuery::Epoch);
    let (l, a) = l.step(Answer::Epoch(42));
    assert_eq!(a, Action::FetchProfile);
    assert_eq!(l.pending(), UpstreamQuery::Profile);
    let (l, a) = l.step(Answer::Profile(None, Some(commission())));
    assert_eq!(a, Action::FetchState);
    assert_eq!(l.pending(), UpstreamQuery::State);
    let (l, a) = l.step(Answer::State(Some(ValidatorState::Jailed)));
    assert_eq!(a, Action::FetchStake(42));
    assert_eq!(l.pending(), UpstreamQuery::Stake);
    let (_, a) = l.step(Answer::Stake(s("1000.5")));
    match a {
        Action::Respond(d) => {
            assert_eq!(d.jailed, Some(true));
            assert_eq!(d.status, Some(s("JAILED")));
            assert_eq!(d.tokens, s("1000.5"));
            assert_eq!(d.operator_address, s("val1abc..."));
            assert_eq!(d.description.moniker, None);
            assert_eq!(d.commission.commission_rates.rate, Some(s("0.05")));
        }
        other => panic!("unexpected action {:?}", other),
    }
}

#[test]
fn upstream_failure_at_each_query_is_server_error() {
    let answers = [
        Answer::Epoch(7),
        Answer::Profile(Some(metadata()), None),
        Answer::State(None),
    ];
    let queries = [
        (UpstreamQuery::Epoch, "epoch"),
        (UpstreamQuery::Profile, "metadata"),
        (UpstreamQuery::State, "state"),
        (UpstreamQuery::Stake, "stake"),
    ];
    for (n, (query, name)) in queries.iter().enumerate() {
        let (mut l, _) = Lookup::begin(s("val1"), None);
        for a in answers.iter().take(n) {
            l = l.step(a.clone()).0;
        }
        let (_, action) = l.step(Answer::Failed(s("connection refused")));
        match action {
            Action::Reject(e) => {
                assert_eq!(e.http_status(), 502);
                assert_eq!(e, RequestError::Upstream { query: *query, reason: s("connection refused") });
                assert_eq!(
                    e.message(),
                    format!("upstream {} query failed: connection refused", name)
                );
            }
            other => panic!("unexpected action {:?}", other),
        }
    }
}

#[test]
fn missing_rpc_setting() {
    assert_eq!(rpc_endpoint(None).err(), Some(ConfigError::MissingRpc));
}

#[test]
fn invalid_rpc_setting() {
    assert_eq!(
        rpc_endpoint(Some(s("not a url"))).err(),
        Some(ConfigError::InvalidRpc { value: s("not a url") })
    );
    assert_eq!(
        rpc_endpoint(Some(s("ftp://localhost:21"))).err(),
        Some(ConfigError::InvalidRpc { value: s("ftp://localhost:21") })
    );
}

#[test]
fn valid_rpc_setting() {
    let url = rpc_endpoint(Some(s("http://localhost:26657"))).ok().unwrap();
    assert_eq!(url.to_string(), "http://localhost:26657/");
}

#[test]
fn parse_outcome_decides_configuration() {
    let bad: Result<tendermint_rpc::Url, _> = "nope".parse::<tendermint_rpc::Url>();
    assert_eq!(
        endpoint_from_parse(s("nope"), bad).err(),
        Some(ConfigError::InvalidRpc { value: s("nope") })
    );
    let good = "https://rpc.example:443".parse::<tendermint_rpc::Url>();
    assert!(endpoint_from_parse(s("https://rpc.example:443"), good).is_ok());
}
