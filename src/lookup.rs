use vstd::prelude::*;

use crate::document::{build_document, copy_commission, copy_metadata, document_matches, CommissionInfo, ValidatorDocument, ValidatorMetadata};
use crate::status::ValidatorState;

verus! {

/// One of the read-only queries made against the upstream node.
#[derive(Clone, Copy, Debug, PartialEq, Eq, Structural)]
pub enum UpstreamQuery {
    /// The current epoch.
    Epoch,
    /// The validator's metadata and commission settings.
    Profile,
    /// The validator's consensus state.
    State,
    /// The validator's bonded stake at the epoch.
    Stake,
}

/// Why a request for a validator record fails.
#[derive(Clone, Debug, PartialEq, Eq)]
pub enum RequestError {
    /// The address given is not a validator address.
    InvalidAddress { address: String, reason: String },
    /// A query to the upstream node failed.
    Upstream { query: UpstreamQuery, reason: String },
}

/// The HTTP status under which an error is answered.
pub open spec fn error_status(e: RequestError) -> u16 {
    match e {
        RequestError::InvalidAddress { .. } => 400,
        RequestError::Upstream { .. } => 502,
    }
}

/// The name under which a query is reported.
pub open spec fn query_name(q: UpstreamQuery) -> Seq<char> {
    match q {
        UpstreamQuery::Epoch => "epoch"@,
        UpstreamQuery::Profile => "metadata"@,
        UpstreamQuery::State => "state"@,
        UpstreamQuery::Stake => "stake"@,
    }
}

/// The text of the body that answers an error.
pub open spec fn error_message(e: RequestError) -> Seq<char> {
    match e {
        RequestError::InvalidAddress { address, reason } =>
            "invalid validator address "@ + address@ + ": "@ + reason@,
        RequestError::Upstream { query, reason } =>
            "upstream "@ + query_name(query) + " query failed: "@ + reason@,
    }
}

impl UpstreamQuery {
    /// The name under which this query is reported.
    pub fn name(&self) -> (r: &'static str)
        ensures
            r@ == query_name(*self),
    {
        match self {
            UpstreamQuery::Epoch => "epoch",
            UpstreamQuery::Profile => "metadata",
            UpstreamQuery::State => "state",
            UpstreamQuery::Stake => "stake",
        }
    }
}

impl RequestError {
    /// The HTTP status under which this error is answered: a client error
    /// for a bad address, a gateway error for a failed upstream query.
    pub fn http_status(&self) -> (r: u16)
        ensures
            r == error_status(*self),
    {
        match self {
            RequestError::InvalidAddress { .. } => 400,
            RequestError::Upstream { .. } => 502,
        }
    }

    /// The text of the body that answers this error.
    pub fn message(&self) -> (r: String)
        ensures
            r@ == error_message(*self),
    {
        match self {
            RequestError::InvalidAddress { address, reason } => {
                let mut m = String::from_str("invalid validator address ");
                m.append(address.as_str());
                m.append(": ");
                m.append(reason.as_str());
                m
            },
            RequestError::Upstream { query, reason } => {
                let mut m = String::from_str("upstream ");
                m.append(query.name());
                m.append(" query failed: ");
                m.append(reason.as_str());
                m
            },
        }
    }
}

/// What the upstream node answered to the pending query.
#[derive(Clone, Debug, PartialEq, Eq)]
pub enum Answer {
    Epoch(u64),
    Profile(Option<ValidatorMetadata>, Option<CommissionInfo>),
    State(Option<ValidatorState>),
    /// The bonded stake in the chain's display form.
    Stake(String),
    /// The pending query failed, for the reason given.
    Failed(String),
}

/// What the handler does next.
#[derive(Clone, Debug, PartialEq, Eq)]
pub enum Action {
    FetchEpoch,
    FetchProfile,
    FetchState,
    /// Query the bonded stake at the given epoch.
    FetchStake(u64),
    /// Answer with the record.
    Respond(ValidatorDocument),
    /// Answer with the error.
    Reject(RequestError),
}

/// The answers gathered so far for one request.
#[derive(Clone, Debug, PartialEq, Eq)]
pub struct Lookup {
    pub address: String,
    pub epoch: Option<u64>,
    pub profile: Option<(Option<ValidatorMetadata>, Option<CommissionInfo>)>,
    pub state: Option<Option<ValidatorState>>,
}

/// The query that the action issues, if it issues one.
pub open spec fn action_query(a: Action) -> Option<UpstreamQuery> {
    match a {
        Action::FetchEpoch => Some(UpstreamQuery::Epoch),
        Action::FetchProfile => Some(UpstreamQuery::Profile),
        Action::FetchState => Some(UpstreamQuery::State),
        Action::FetchStake(_) => Some(UpstreamQuery::Stake),
        _ => None,
    }
}

/// Whether an answer can answer a query.
pub open spec fn answers(a: Answer, q: UpstreamQuery) -> bool {
    match a {
        Answer::Epoch(_) => q == UpstreamQuery::Epoch,
        Answer::Profile(_, _) => q == UpstreamQuery::Profile,
        Answer::State(_) => q == UpstreamQuery::State,
        Answer::Stake(_) => q == UpstreamQuery::Stake,
        Answer::Failed(_) => true,
    }
}

impl Lookup {
    /// The answers arrive in order: epoch, then profile, then state.
    pub open spec fn wf(&self) -> bool {
        &&& self.profile is Some ==> self.epoch is Some
        &&& self.state is Some ==> self.profile is Some
    }

    /// The query whose answer is awaited.
    pub open spec fn pending_spec(&self) -> UpstreamQuery {
        if self.epoch is None {
            UpstreamQuery::Epoch
        } else if self.profile is None {
            UpstreamQuery::Profile
        } else if self.state is None {
            UpstreamQuery::State
        } else {
            UpstreamQuery::Stake
        }
    }

    /// The query whose answer is awaited.
    pub fn pending(&self) -> (r: UpstreamQuery)
        ensures
            r == self.pending_spec(),
    {
        if self.epoch.is_none() {
            UpstreamQuery::Epoch
        } else if self.profile.is_none() {
            UpstreamQuery::Profile
        } else if self.state.is_none() {
            UpstreamQuery::State
        } else {
            UpstreamQuery::Stake
        }
    }

    /// Starts a request for the record of `address`. `rejected` holds why
    /// the address could not be parsed, if it could not; the request then
    /// fails with a client error, and otherwise asks for the epoch first.
    pub fn begin(address: String, rejected: Option<String>) -> (r: (Lookup, Action))
        ensures
            r.0.wf(),
            r.0.address@ == address@,
            r.0.epoch is None,
            r.0.profile is None,
            r.0.state is None,
            rejected is None ==> r.1 == Action::FetchEpoch,
            rejected is Some ==> (r.1 matches Action::Reject(
                RequestError::InvalidAddress { address: a, reason: why },
            ) && a@ == address@ && why@ == rejected->Some_0@),
    {
        let lookup = Lookup { address: address.clone(), epoch: None, profile: None, state: None };
        match rejected {
            None => (lookup, Action::FetchEpoch),
            Some(reason) => (lookup, Action::Reject(RequestError::InvalidAddress { address, reason })),
        }
    }

    /// Takes the answer to the pending query. A failure ends the request
    /// with an upstream error naming that query; any other answer is kept,
    /// and the next query is asked, or, once the stake is known, the record
    /// is merged from all the answers and returned.
    pub fn step(self, answer: Answer) -> (r: (Lookup, Action))
        requires
            self.wf(),
            answers(answer, self.pending_spec()),
        ensures
            r.0.wf(),
            r.0.address == self.address,
            answer matches Answer::Failed(why) ==> r.0 == self && (r.1 matches Action::Reject(
                RequestError::Upstream { query: q, reason: rs },
            ) && q == self.pending_spec() && rs@ == why@),
            answer matches Answer::Epoch(e) ==> r.0 == (Lookup { epoch: Some(e), ..self })
                && r.1 == Action::FetchProfile,
            answer matches Answer::Profile(m, c) ==> r.0 == (Lookup {
                profile: Some((m, c)),
                ..self
            }) && r.1 == Action::FetchState,
            answer matches Answer::State(s) ==> r.0 == (Lookup { state: Some(s), ..self })
                && r.1 == Action::FetchStake(self.epoch->Some_0),
            answer matches Answer::Stake(t) ==> r.0 == self && (r.1 matches Action::Respond(d)
                && document_matches(
                d,
                self.address@,
                self.state->Some_0,
                self.profile->Some_0.0,
                self.profile->Some_0.1,
                t@,
            )),
    {
        match answer {
            Answer::Failed(reason) => {
                let query = self.pending();
                (self, Action::Reject(RequestError::Upstream { query, reason }))
            },
            Answer::Epoch(e) => (Lookup { epoch: Some(e), ..self }, Action::FetchProfile),
            Answer::Profile(m, c) => (Lookup { profile: Some((m, c)), ..self }, Action::FetchState),
            Answer::State(s) => {
                let epoch = match self.epoch {
                    Some(e) => e,
                    None => 0,
                };
                (Lookup { state: Some(s), ..self }, Action::FetchStake(epoch))
            },
            Answer::Stake(tokens) => {
                let (metadata, commission) = match &self.profile {
                    Some(p) => (copy_metadata(&p.0), copy_commission(&p.1)),
                    None => (None, None),
                };
                let state = match self.state {
                    Some(s) => s,
                    None => None,
                };
                let doc = build_document(self.address.clone(), state, metadata, commission, tokens);
                (self, Action::Respond(doc))
            },
        }
    }
}

} // verus!
