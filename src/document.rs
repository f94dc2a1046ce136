use vstd::prelude::*;

use crate::status::{
    ValidatorState, status_and_jailed, status_field, jailed_field, opt_view,
};

verus! {

/// Descriptive metadata a validator published; each field may be unset.
#[derive(Clone, Debug, PartialEq, Eq)]
pub struct ValidatorMetadata {
    pub discord_handle: Option<String>,
    pub website: Option<String>,
    pub email: Option<String>,
    pub description: Option<String>,
}

/// Commission settings of a validator, each decimal in its canonical text.
#[derive(Clone, Debug, PartialEq, Eq)]
pub struct CommissionInfo {
    pub commission_rate: String,
    pub max_commission_change_per_epoch: String,
}

/// The `description` object of the published validator record.
#[derive(Clone, Debug, PartialEq, Eq)]
pub struct Description {
    pub moniker: Option<String>,
    pub identity: Option<String>,
    pub website: Option<String>,
    pub security_contact: Option<String>,
    pub details: Option<String>,
}

/// The `commission_rates` object of the published validator record.
#[derive(Clone, Debug, PartialEq, Eq)]
pub struct CommissionRates {
    pub rate: Option<String>,
    pub max_rate: Option<String>,
    pub max_change_rate: Option<String>,
}

/// The `commission` object of the published validator record.
#[derive(Clone, Debug, PartialEq, Eq)]
pub struct Commission {
    pub commission_rates: CommissionRates,
    pub update_time: Option<String>,
}

/// The published validator record.
#[derive(Clone, Debug, PartialEq, Eq)]
pub struct ValidatorDocument {
    pub operator_address: String,
    pub jailed: Option<bool>,
    pub status: Option<String>,
    pub tokens: String,
    pub description: Description,
    pub commission: Commission,
}

/// A field of the metadata, or absent when the metadata is.
pub open spec fn meta_field(
    m: Option<ValidatorMetadata>,
    f: spec_fn(ValidatorMetadata) -> Option<String>,
) -> Option<Seq<char>> {
    match m {
        Some(v) => opt_view(f(v)),
        None => None,
    }
}

/// What the description of a record is, given the metadata it is drawn from.
pub open spec fn description_matches(d: Description, m: Option<ValidatorMetadata>) -> bool {
    &&& opt_view(d.moniker) == meta_field(m, |v: ValidatorMetadata| v.discord_handle)
    &&& d.identity is None
    &&& opt_view(d.website) == meta_field(m, |v: ValidatorMetadata| v.website)
    &&& opt_view(d.security_contact) == meta_field(m, |v: ValidatorMetadata| v.email)
    &&& opt_view(d.details) == meta_field(m, |v: ValidatorMetadata| v.description)
}

/// The commission rate, or absent when the commission is.
pub open spec fn rate_field(c: Option<CommissionInfo>) -> Option<Seq<char>> {
    match c {
        Some(v) => Some(v.commission_rate@),
        None => None,
    }
}

/// The largest change of rate per epoch, or absent when the commission is.
pub open spec fn max_change_field(c: Option<CommissionInfo>) -> Option<Seq<char>> {
    match c {
        Some(v) => Some(v.max_commission_change_per_epoch@),
        None => None,
    }
}

/// What the commission of a record is, given the commission it is drawn from.
pub open spec fn commission_matches(k: Commission, c: Option<CommissionInfo>) -> bool {
    &&& opt_view(k.commission_rates.rate) == rate_field(c)
    &&& k.commission_rates.max_rate is None
    &&& opt_view(k.commission_rates.max_change_rate) == max_change_field(c)
    &&& k.update_time is None
}

/// What a whole record is, given the answers it is merged from.
pub open spec fn document_matches(
    d: ValidatorDocument,
    address: Seq<char>,
    state: Option<ValidatorState>,
    metadata: Option<ValidatorMetadata>,
    commission: Option<CommissionInfo>,
    tokens: Seq<char>,
) -> bool {
    &&& d.operator_address@ == address
    &&& opt_view(d.status) == status_field(state)
    &&& d.jailed == jailed_field(state)
    &&& d.tokens@ == tokens
    &&& description_matches(d.description, metadata)
    &&& commission_matches(d.commission, commission)
}

fn copy_str_opt(o: &Option<String>) -> (r: Option<String>)
    ensures
        r == *o,
{
    match o {
        Some(s) => Some(s.clone()),
        None => None,
    }
}

/// A copy of optional metadata, equal to it.
pub fn copy_metadata(m: &Option<ValidatorMetadata>) -> (r: Option<ValidatorMetadata>)
    ensures
        r == *m,
{
    match m {
        Some(v) => Some(ValidatorMetadata {
            discord_handle: copy_str_opt(&v.discord_handle),
            website: copy_str_opt(&v.website),
            email: copy_str_opt(&v.email),
            description: copy_str_opt(&v.description),
        }),
        None => None,
    }
}

/// A copy of optional commission settings, equal to them.
pub fn copy_commission(c: &Option<CommissionInfo>) -> (r: Option<CommissionInfo>)
    ensures
        r == *c,
{
    match c {
        Some(v) => Some(CommissionInfo {
            commission_rate: v.commission_rate.clone(),
            max_commission_change_per_epoch: v.max_commission_change_per_epoch.clone(),
        }),
        None => None,
    }
}

/// Projects optional metadata onto the description object; every field
/// drawn from absent metadata is absent, and `identity` always is.
pub fn describe(metadata: &Option<ValidatorMetadata>) -> (r: Description)
    ensures
        description_matches(r, *metadata),
{
    match metadata {
        Some(m) => Description {
            moniker: copy_str_opt(&m.discord_handle),
            identity: None,
            website: copy_str_opt(&m.website),
            security_contact: copy_str_opt(&m.email),
            details: copy_str_opt(&m.description),
        },
        None => Description {
            moniker: None,
            identity: None,
            website: None,
            security_contact: None,
            details: None,
        },
    }
}

/// Projects optional commission settings onto the commission object; both
/// rates drawn from absent settings are absent, and `max_rate` and
/// `update_time` always are.
pub fn commission_of(commission: &Option<CommissionInfo>) -> (r: Commission)
    ensures
        commission_matches(r, *commission),
{
    match commission {
        Some(c) => Commission {
            commission_rates: CommissionRates {
                rate: Some(c.commission_rate.clone()),
                max_rate: None,
                max_change_rate: Some(c.max_commission_change_per_epoch.clone()),
            },
            update_time: None,
        },
        None => Commission {
            commission_rates: CommissionRates { rate: None, max_rate: None, max_change_rate: None },
            update_time: None,
        },
    }
}

/// Merges the answers about one validator into its published record.
pub fn build_document(
    address: String,
    state: Option<ValidatorState>,
    metadata: Option<ValidatorMetadata>,
    commission: Option<CommissionInfo>,
    tokens: String,
) -> (r: ValidatorDocument)
    ensures
        document_matches(r, address@, state, metadata, commission, tokens@),
{
    let (status, jailed) = status_and_jailed(state);
    let description = describe(&metadata);
    let commission = commission_of(&commission);
    ValidatorDocument { operator_address: address, jailed, status, tokens, description, commission }
}

} // verus!
