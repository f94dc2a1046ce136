use vstd::prelude::*;

verus! {

/// Consensus state of a validator as the chain reports it.
#[derive(Clone, Copy, Debug, PartialEq, Eq, Structural)]
pub enum ValidatorState {
    Consensus,
    BelowCapacity,
    BelowThreshold,
    Inactive,
    Jailed,
}

/// The status word under which a state is published.
pub open spec fn status_label(s: ValidatorState) -> Seq<char> {
    match s {
        ValidatorState::Consensus => "CONSENSUS"@,
        ValidatorState::BelowCapacity => "BELOW_CAPACITY"@,
        ValidatorState::BelowThreshold => "BELOW_THRESHOLD"@,
        ValidatorState::Inactive => "INACTIVE"@,
        ValidatorState::Jailed => "JAILED"@,
    }
}

/// Whether a state counts as jailed.
pub open spec fn jailed_flag(s: ValidatorState) -> bool {
    s == ValidatorState::Jailed
}

/// The `status` field for an optional state: absent when the state is.
pub open spec fn status_field(s: Option<ValidatorState>) -> Option<Seq<char>> {
    match s {
        Some(v) => Some(status_label(v)),
        None => None,
    }
}

/// The `jailed` field for an optional state: absent when the state is.
pub open spec fn jailed_field(s: Option<ValidatorState>) -> Option<bool> {
    match s {
        Some(v) => Some(jailed_flag(v)),
        None => None,
    }
}

/// The text held by an optional string, if it holds one.
pub open spec fn opt_view(o: Option<String>) -> Option<Seq<char>> {
    match o {
        Some(s) => Some(s@),
        None => None,
    }
}

impl ValidatorState {
    /// The status word of this state.
    pub fn label(&self) -> (r: String)
        ensures
            r@ == status_label(*self),
    {
        match self {
            ValidatorState::Consensus => String::from_str("CONSENSUS"),
            ValidatorState::BelowCapacity => String::from_str("BELOW_CAPACITY"),
            ValidatorState::BelowThreshold => String::from_str("BELOW_THRESHOLD"),
            ValidatorState::Inactive => String::from_str("INACTIVE"),
            ValidatorState::Jailed => String::from_str("JAILED"),
        }
    }

    /// Whether this state is the jailed one.
    pub fn is_jailed(&self) -> (r: bool)
        ensures
            r == jailed_flag(*self),
    {
        match self {
            ValidatorState::Jailed => true,
            _ => false,
        }
    }
}

/// The `status` and `jailed` fields for an optional state; both are absent
/// together, and both are present together.
pub fn status_and_jailed(state: Option<ValidatorState>) -> (r: (Option<String>, Option<bool>))
    ensures
        opt_view(r.0) == status_field(state),
        r.1 == jailed_field(state),
{
    match state {
        Some(s) => (Some(s.label()), Some(s.is_jailed())),
        None => (None, None),
    }
}

} // verus!
