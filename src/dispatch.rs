//! The dispatch table of the provisioning protocol and the rules that turn
//! its outcome into a response.
use crate::map::JsonObject;
use crate::model::{opt_view, CloudFormationResponse, RequestType, ResponseView, Status};
use crate::CloudFormationResponse as ResourceResponse;
use vstd::prelude::*;
use vstd::string::StringExecFns;

verus! {

/// The identity recorded for a resource whose creation never completed.
pub const PHYSICAL_RESOURCE_ID_FAILURE: &'static str = "FAILURE";

/// The reason given for an update or delete that names no resource.
pub const REASON_ID_EXPECTED: &'static str = "physical_resource_id expected";

/// The start of the reason given for a create that already names a resource.
pub const REASON_ID_UNEXPECTED: &'static str = "Unexpected physical_resource_id ";

/// The start of the reason given for a resource type that nothing handles.
pub const REASON_UNKNOWN_TYPE: &'static str = "Unknown ResourceType ";

/// The sentinel identity, as text.
pub open spec fn sentinel() -> Seq<char> {
    PHYSICAL_RESOURCE_ID_FAILURE@
}

pub open spec fn expected_reason() -> Seq<char> {
    REASON_ID_EXPECTED@
}

pub open spec fn unexpected_reason(id: Seq<char>) -> Seq<char> {
    REASON_ID_UNEXPECTED@ + id
}

pub open spec fn unknown_type_reason(resource_type: Seq<char>) -> Seq<char> {
    REASON_UNKNOWN_TYPE@ + resource_type
}

/// The row of the dispatch table that an event falls in.
pub enum Step {
    /// A delete of a resource whose creation failed: nothing to call.
    Recover,
    Create,
    Update { id: Seq<char> },
    Delete { id: Seq<char> },
    /// A protocol violation: nothing to call, and this failure to report.
    Reject { reason: Seq<char>, id: Seq<char> },
}

/// The dispatch table, keyed by the lifecycle step and the identity carried.
pub open spec fn step_of(request_type: RequestType, id: Option<Seq<char>>) -> Step {
    match id {
        None => match request_type {
            RequestType::Create => Step::Create,
            _ => Step::Reject { reason: expected_reason(), id: sentinel() },
        },
        Some(i) => match request_type {
            RequestType::Create => Step::Reject { reason: unexpected_reason(i), id: i },
            RequestType::Update => Step::Update { id: i },
            RequestType::Delete => if i == sentinel() {
                Step::Recover
            } else {
                Step::Delete { id: i }
            },
        },
    }
}

/// The executable form of a row of the dispatch table.
pub enum Plan {
    Recover,
    Create,
    Update(String),
    Delete(String),
    Reject(String, String),
}

impl View for Plan {
    type V = Step;

    open spec fn view(&self) -> Step {
        match self {
            Plan::Recover => Step::Recover,
            Plan::Create => Step::Create,
            Plan::Update(id) => Step::Update { id: id@ },
            Plan::Delete(id) => Step::Delete { id: id@ },
            Plan::Reject(reason, id) => Step::Reject { reason: reason@, id: id@ },
        }
    }
}

/// Picks the row of the dispatch table for an event.
pub fn plan(request_type: RequestType, physical_resource_id: Option<String>) -> (r: Plan)
    ensures
        r@ == step_of(request_type, opt_view(physical_resource_id)),
{
    match physical_resource_id {
        None => match request_type {
            RequestType::Create => Plan::Create,
            _ => Plan::Reject(
                String::from_str(REASON_ID_EXPECTED),
                String::from_str(PHYSICAL_RESOURCE_ID_FAILURE),
            ),
        },
        Some(id) => match request_type {
            RequestType::Create => {
                let mut reason = String::from_str(REASON_ID_UNEXPECTED);
                reason.append(id.as_str());
                Plan::Reject(reason, id)
            },
            RequestType::Update => Plan::Update(id),
            RequestType::Delete => {
                let failure = String::from_str(PHYSICAL_RESOURCE_ID_FAILURE);
                if id == failure {
                    Plan::Recover
                } else {
                    Plan::Delete(id)
                }
            },
        },
    }
}

/// The result of one dispatch: the identity after it, the failure if any, and
/// the output data.
pub struct ProvisionOutcome {
    pub physical_resource_id: String,
    pub failure_reason: Option<String>,
    pub data: JsonObject,
}

pub struct OutcomeView {
    pub physical_resource_id: Seq<char>,
    pub failure_reason: Option<Seq<char>>,
    pub data: Set<Seq<char>>,
}

impl View for ProvisionOutcome {
    type V = OutcomeView;

    open spec fn view(&self) -> OutcomeView {
        OutcomeView {
            physical_resource_id: self.physical_resource_id@,
            failure_reason: opt_view(self.failure_reason),
            data: self.data@,
        }
    }
}

pub open spec fn succeeded(id: Seq<char>, data: Set<Seq<char>>) -> OutcomeView {
    OutcomeView { physical_resource_id: id, failure_reason: None, data }
}

pub open spec fn failed(reason: Seq<char>, id: Seq<char>) -> OutcomeView {
    OutcomeView {
        physical_resource_id: id,
        failure_reason: Some(reason),
        data: Set::empty(),
    }
}

/// The outcome of the recovery row: success under the sentinel, no data.
pub open spec fn recovery() -> OutcomeView {
    succeeded(sentinel(), Set::empty())
}

/// The outcome of a create, given what the capability returned.
pub open spec fn create_outcome(result: Result<ResourceResponse, String>) -> OutcomeView {
    match result {
        Ok(res) => succeeded(res.physical_resource_id@, res.data@),
        Err(e) => failed(e@, sentinel()),
    }
}

/// The outcome of an update of `id`, given what the capability returned.
pub open spec fn update_outcome(id: Seq<char>, result: Result<ResourceResponse, String>) -> OutcomeView {
    match result {
        Ok(res) => succeeded(res.physical_resource_id@, res.data@),
        Err(e) => failed(e@, id),
    }
}

/// The outcome of a delete of `id`, given what the capability returned.
pub open spec fn delete_outcome(id: Seq<char>, result: Result<(), String>) -> OutcomeView {
    match result {
        Ok(_) => succeeded(id, Set::empty()),
        Err(e) => failed(e@, id),
    }
}

/// The outcome for an event whose resource type nothing handles.
pub open spec fn unknown_type_outcome(
    request_type: RequestType,
    id: Option<Seq<char>>,
    resource_type: Seq<char>,
) -> OutcomeView {
    if request_type == RequestType::Delete && id == Some(sentinel()) {
        recovery()
    } else {
        failed(
            unknown_type_reason(resource_type),
            match id {
                Some(i) => i,
                None => sentinel(),
            },
        )
    }
}

/// The response that reports an outcome, echoing the event's correlation ids.
pub open spec fn response_of(
    stack_id: Seq<char>,
    request_id: Seq<char>,
    logical_resource_id: Seq<char>,
    outcome: OutcomeView,
) -> ResponseView {
    ResponseView {
        status: if outcome.failure_reason is Some {
            Status::Failed
        } else {
            Status::Success
        },
        reason: outcome.failure_reason,
        physical_resource_id: outcome.physical_resource_id,
        stack_id,
        request_id,
        logical_resource_id,
        data: outcome.data,
    }
}

/// Whether `response` answers an event of type `request_type` carrying
/// identity `id` and correlation ids `s`, `q`, `l`: the recovery and rejection
/// rows fix it, and for the rows that call a capability it is the response for
/// some result of that call, carrying a successful result's data unchanged.
pub open spec fn answers(
    request_type: RequestType,
    id: Option<Seq<char>>,
    s: Seq<char>,
    q: Seq<char>,
    l: Seq<char>,
    response: CloudFormationResponse,
) -> bool {
    match step_of(request_type, id) {
        Step::Recover => response@ == response_of(s, q, l, recovery()),
        Step::Reject { reason, id } => response@ == response_of(s, q, l, failed(reason, id)),
        Step::Create => exists|res: Result<ResourceResponse, String>|
            response@ == response_of(s, q, l, #[trigger] create_outcome(res)) && (res is Ok
                ==> response.data == res->Ok_0.data),
        Step::Update { id } => exists|res: Result<ResourceResponse, String>|
            response@ == response_of(s, q, l, #[trigger] update_outcome(id, res)) && (res is Ok
                ==> response.data == res->Ok_0.data),
        Step::Delete { id } => exists|res: Result<(), String>|
            response@ == response_of(s, q, l, #[trigger] delete_outcome(id, res)),
    }
}

impl ProvisionOutcome {
    /// The recovery row: success under the sentinel, with no data.
    pub fn recovered() -> (r: ProvisionOutcome)
        ensures
            r@ == recovery(),
    {
        ProvisionOutcome {
            physical_resource_id: String::from_str(PHYSICAL_RESOURCE_ID_FAILURE),
            failure_reason: None,
            data: JsonObject::new(),
        }
    }

    /// A failure with `reason`, under identity `id`, with no data.
    pub fn rejected(reason: String, id: String) -> (r: ProvisionOutcome)
        ensures
            r@ == failed(reason@, id@),
    {
        ProvisionOutcome { physical_resource_id: id, failure_reason: Some(reason), data: JsonObject::new() }
    }

    /// A success of the capability: its identity and its data.
    fn accepted(res: ResourceResponse) -> (r: ProvisionOutcome)
        ensures
            r@ == succeeded(res.physical_resource_id@, res.data@),
            r.data == res.data,
    {
        ProvisionOutcome { physical_resource_id: res.physical_resource_id, failure_reason: None, data: res.data }
    }

    /// What a create came to; a failed create leaves the sentinel identity.
    pub fn created(result: Result<ResourceResponse, String>) -> (r: ProvisionOutcome)
        ensures
            r@ == create_outcome(result),
            result is Ok ==> r.data == result->Ok_0.data,
    {
        match result {
            Ok(res) => ProvisionOutcome::accepted(res),
            Err(e) => ProvisionOutcome::rejected(e, String::from_str(PHYSICAL_RESOURCE_ID_FAILURE)),
        }
    }

    /// What an update of `id` came to; a failed update keeps `id`.
    pub fn updated(id: String, result: Result<ResourceResponse, String>) -> (r: ProvisionOutcome)
        ensures
            r@ == update_outcome(id@, result),
            result is Ok ==> r.data == result->Ok_0.data,
    {
        match result {
            Ok(res) => ProvisionOutcome::accepted(res),
            Err(e) => ProvisionOutcome::rejected(e, id),
        }
    }

    /// What a delete of `id` came to; either way the identity stays `id`.
    pub fn deleted(id: String, result: Result<(), String>) -> (r: ProvisionOutcome)
        ensures
            r@ == delete_outcome(id@, result),
    {
        match result {
            Ok(_) => ProvisionOutcome::accepted(ResourceResponse::empty(id)),
            Err(e) => ProvisionOutcome::rejected(e, id),
        }
    }
}

/// Builds the response for an outcome: failed exactly when the outcome holds a
/// reason, with the identity and data of the outcome and the event's
/// correlation ids.
pub fn build_response(
    stack_id: String,
    request_id: String,
    logical_resource_id: String,
    outcome: ProvisionOutcome,
) -> (r: CloudFormationResponse)
    ensures
        r@ == response_of(stack_id@, request_id@, logical_resource_id@, outcome@),
        r.data == outcome.data,
{
    let status = match &outcome.failure_reason {
        Some(_) => Status::Failed,
        None => Status::Success,
    };
    CloudFormationResponse {
        status,
        reason: outcome.failure_reason,
        physical_resource_id: outcome.physical_resource_id,
        stack_id,
        request_id,
        logical_resource_id,
        data: outcome.data,
    }
}

} // verus!
