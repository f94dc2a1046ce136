use vstd::prelude::*;

use crate::document::{document_matches, CommissionInfo, ValidatorDocument, ValidatorMetadata};
use crate::lookup::{error_status, RequestError};
use crate::status::{jailed_field, status_field, ValidatorState};

verus! {

/// Each known state is published under its own status word, with `jailed`
/// true for the jailed state alone; an unknown validator has neither field.
pub proof fn status_table(s: Option<ValidatorState>)
    ensures
        s == Some(ValidatorState::Consensus) ==> status_field(s) == Some("CONSENSUS"@)
            && jailed_field(s) == Some(false),
        s == Some(ValidatorState::BelowCapacity) ==> status_field(s) == Some("BELOW_CAPACITY"@)
            && jailed_field(s) == Some(false),
        s == Some(ValidatorState::BelowThreshold) ==> status_field(s) == Some("BELOW_THRESHOLD"@)
            && jailed_field(s) == Some(false),
        s == Some(ValidatorState::Inactive) ==> status_field(s) == Some("INACTIVE"@)
            && jailed_field(s) == Some(false),
        s == Some(ValidatorState::Jailed) ==> status_field(s) == Some("JAILED"@)
            && jailed_field(s) == Some(true),
        s is None ==> status_field(s) is None && jailed_field(s) is None,
{
}

/// `status` and `jailed` are present together, and `jailed` is true exactly
/// when the status word is the jailed one.
pub proof fn status_and_jailed_agree(s: Option<ValidatorState>)
    ensures
        status_field(s) is None <==> jailed_field(s) is None,
        jailed_field(s) == Some(true) <==> status_field(s) == Some("JAILED"@),
{
    reveal_strlit("JAILED");
    reveal_strlit("CONSENSUS");
    reveal_strlit("BELOW_CAPACITY");
    reveal_strlit("BELOW_THRESHOLD");
    reveal_strlit("INACTIVE");
    if let Some(v) = s {
        match v {
            ValidatorState::Consensus => assert("CONSENSUS"@[0] != "JAILED"@[0]),
            ValidatorState::BelowCapacity => assert("BELOW_CAPACITY"@.len() != "JAILED"@.len()),
            ValidatorState::BelowThreshold => assert("BELOW_THRESHOLD"@.len() != "JAILED"@.len()),
            ValidatorState::Inactive => assert("INACTIVE"@.len() != "JAILED"@.len()),
            ValidatorState::Jailed => {},
        }
    }
}

/// A record merged without metadata has every description field absent.
pub proof fn absent_metadata_gives_empty_description(
    d: ValidatorDocument,
    address: Seq<char>,
    state: Option<ValidatorState>,
    commission: Option<CommissionInfo>,
    tokens: Seq<char>,
)
    requires
        document_matches(d, address, state, None, commission, tokens),
    ensures
        d.description.moniker is None,
        d.description.website is None,
        d.description.security_contact is None,
        d.description.details is None,
{
}

/// A record merged without commission settings has both rates absent.
pub proof fn absent_commission_gives_empty_rates(
    d: ValidatorDocument,
    address: Seq<char>,
    state: Option<ValidatorState>,
    metadata: Option<ValidatorMetadata>,
    tokens: Seq<char>,
)
    requires
        document_matches(d, address, state, metadata, None, tokens),
    ensures
        d.commission.commission_rates.rate is None,
        d.commission.commission_rates.max_change_rate is None,
{
}

/// `identity`, `max_rate` and `update_time` are absent from every record.
pub proof fn unsourced_fields_always_absent(
    d: ValidatorDocument,
    address: Seq<char>,
    state: Option<ValidatorState>,
    metadata: Option<ValidatorMetadata>,
    commission: Option<CommissionInfo>,
    tokens: Seq<char>,
)
    requires
        document_matches(d, address, state, metadata, commission, tokens),
    ensures
        d.description.identity is None,
        d.commission.commission_rates.max_rate is None,
        d.commission.update_time is None,
{
}

/// The record of a validator the node does not know has neither `status`
/// nor `jailed`, and still carries the address asked for.
pub proof fn unknown_validator_record(
    d: ValidatorDocument,
    address: Seq<char>,
    metadata: Option<ValidatorMetadata>,
    commission: Option<CommissionInfo>,
    tokens: Seq<char>,
)
    requires
        document_matches(d, address, None, metadata, commission, tokens),
    ensures
        d.status is None,
        d.jailed is None,
        d.operator_address@ == address,
{
}

/// The stake and both rates appear in the record exactly as the node's
/// display form gave them, character for character.
pub proof fn decimals_kept_exactly(
    d: ValidatorDocument,
    address: Seq<char>,
    state: Option<ValidatorState>,
    metadata: Option<ValidatorMetadata>,
    c: CommissionInfo,
    tokens: Seq<char>,
)
    requires
        document_matches(d, address, state, metadata, Some(c), tokens),
    ensures
        d.tokens@ == tokens,
        d.commission.commission_rates.rate matches Some(r) && r@ == c.commission_rate@,
        d.commission.commission_rates.max_change_rate matches Some(r)
            && r@ == c.max_commission_change_per_epoch@,
{
}

/// A bad address is answered with a client error, a failed upstream query
/// with a server error.
pub proof fn error_classes(e: RequestError)
    ensures
        e is InvalidAddress ==> 400 <= error_status(e) < 500,
        e is Upstream ==> 500 <= error_status(e) < 600,
{
}

} // verus!
