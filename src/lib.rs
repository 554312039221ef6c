use vstd::prelude::*;

pub use map::JsonObject;

use dispatch::{
    answers, build_response, create_outcome, delete_outcome, plan, response_of,
    unknown_type_outcome, update_outcome, Plan, ProvisionOutcome,
    PHYSICAL_RESOURCE_ID_FAILURE, REASON_UNKNOWN_TYPE,
};
use model::opt_view;
use url::Url;
use vstd::string::StringExecFns;

mod map;
pub mod dispatch;
pub mod guarantees;
pub mod model;

verus! {

/// The key under which the orchestrator passes its own token; it is plumbing,
/// not configuration, and never reaches a capability.
pub const SERVICE_TOKEN_KEY: &'static str = "ServiceToken";

/// The properties with the service token taken out.
pub open spec fn without_service_token(properties: Set<Seq<char>>) -> Set<Seq<char>> {
    properties.remove(SERVICE_TOKEN_KEY@)
}

/// What the invocation runtime tells about the running function.
pub struct Context {
    pub function_name: String,
    pub function_version: String,
    pub invoked_function_arn: String,
    pub memory_limit_in_mb: String,
    pub aws_request_id: String,
    pub log_group_name: String,
    pub log_stream_name: String,
}

/// The part of an event that a capability sees.
pub struct CloudFormationRequest<'a> {
    pub stack_id: &'a str,
    pub request_id: &'a str,
    pub resource_type: String,
    pub logical_resource_id: &'a str,
    pub resource_properties: JsonObject,
}

/// What a capability reports after a successful create or update: the
/// resource's identity and its output data.
pub struct CloudFormationResponse {
    pub physical_resource_id: String,
    pub data: JsonObject,
}

impl CloudFormationResponse {
    /// A response with the given identity and no data.
    pub fn empty(physical_resource_id: String) -> (r: Self)
        ensures
            r.physical_resource_id == physical_resource_id,
            r.data@ == Set::<Seq<char>>::empty(),
    {
        CloudFormationResponse { physical_resource_id, data: JsonObject::new() }
    }
}

/// The create, update and delete operations of one resource type, supplied by
/// the integrator. Their errors only need to display as text.
///
/// No operation is handed the service token, and no delete is handed the
/// sentinel identity.
pub trait CloudFormationResource: Sized {
    type Error: std::fmt::Display;

    fn create(self, context: Context, request: CloudFormationRequest) -> Result<
        CloudFormationResponse,
        Self::Error,
    >
        requires
            !request.resource_properties@.contains(SERVICE_TOKEN_KEY@),
    ;

    fn delete(self, context: Context, request: CloudFormationRequest, physical_resource_id: &str) -> Result<
        (),
        Self::Error,
    >
        requires
            !request.resource_properties@.contains(SERVICE_TOKEN_KEY@),
            physical_resource_id@ != dispatch::sentinel(),
    ;

    fn update(
        self,
        context: Context,
        request: CloudFormationRequest,
        physical_resource_id: String,
        old_resource_properties: JsonObject,
    ) -> Result<CloudFormationResponse, Self::Error>
        requires
            !request.resource_properties@.contains(SERVICE_TOKEN_KEY@),
            !old_resource_properties@.contains(SERVICE_TOKEN_KEY@),
    ;
}

/// Takes the service token out of a property map; every other key stays.
pub fn strip_service_token(properties: JsonObject) -> (r: JsonObject)
    ensures
        r@ == without_service_token(properties@),
{
    let mut properties = properties;
    properties.remove(SERVICE_TOKEN_KEY);
    properties
}

/// The request that a capability is handed: the event's correlation ids and
/// resource type, and its properties without the service token.
pub fn capability_request<'a>(
    stack_id: &'a String,
    request_id: &'a String,
    resource_type: String,
    logical_resource_id: &'a String,
    resource_properties: JsonObject,
) -> (r: CloudFormationRequest<'a>)
    ensures
        r.stack_id@ == stack_id@,
        r.request_id@ == request_id@,
        r.resource_type == resource_type,
        r.logical_resource_id@ == logical_resource_id@,
        r.resource_properties@ == without_service_token(resource_properties@),
{
    CloudFormationRequest {
        stack_id: stack_id.as_str(),
        request_id: request_id.as_str(),
        resource_type,
        logical_resource_id: logical_resource_id.as_str(),
        resource_properties: strip_service_token(resource_properties),
    }
}

/// Replaces an error by the text it displays as.
fn error_text<T, E: std::fmt::Display>(result: Result<T, E>) -> (r: Result<T, String>)
    ensures
        r is Ok <==> result is Ok,
        result is Ok ==> r->Ok_0 == result->Ok_0,
        result is Err ==> vstd::string::to_string_from_display_ensures::<E>(
            &result->Err_0,
            r->Err_0,
        ),
{
    match result {
        Ok(v) => Ok(v),
        Err(e) => Err(e.to_string()),
    }
}

/// Runs one event through the dispatch table: calls at most one operation of
/// `resource`, with a request made by `capability_request` and, for an update,
/// the old properties without the service token; then builds the response. Returns it with the address it is to be delivered to.
///
/// The recovery and rejection rows call nothing; for the other rows the
/// response is the one for some result of the operation that the row names.
pub fn provision<T: CloudFormationResource>(
    resource: T,
    request: model::CloudFormationRequest,
    context: Context,
) -> (r: (model::CloudFormationResponse, Url))
    ensures
        r.1 == request.response_url,
        answers(
            request.request_type,
            opt_view(request.physical_resource_id),
            request.stack_id@,
            request.request_id@,
            request.logical_resource_id@,
            r.0,
        ),
{
    let model::CloudFormationRequest {
        request_type,
        response_url,
        stack_id,
        request_id,
        resource_type,
        logical_resource_id,
        physical_resource_id,
        resource_properties,
        old_resource_properties,
    } = request;
    let old_resource_properties = strip_service_token(old_resource_properties);
    let ghost s = stack_id@;
    let ghost q = request_id@;
    let ghost l = logical_resource_id@;
    match plan(request_type, physical_resource_id) {
        Plan::Recover => {
            let outcome = ProvisionOutcome::recovered();
            (build_response(stack_id, request_id, logical_resource_id, outcome), response_url)
        },
        Plan::Reject(reason, id) => {
            let outcome = ProvisionOutcome::rejected(reason, id);
            (build_response(stack_id, request_id, logical_resource_id, outcome), response_url)
        },
        Plan::Create => {
            let req = capability_request(
                &stack_id,
                &request_id,
                resource_type,
                &logical_resource_id,
                resource_properties,
            );
            let result = error_text(resource.create(context, req));
            let outcome = ProvisionOutcome::created(result);
            let response = build_response(stack_id, request_id, logical_resource_id, outcome);
            assert(response@ == response_of(s, q, l, create_outcome(result)) && (result is Ok
                ==> response.data == result->Ok_0.data));
            (response, response_url)
        },
        Plan::Update(id) => {
            let req = capability_request(
                &stack_id,
                &request_id,
                resource_type,
                &logical_resource_id,
                resource_properties,
            );
            let result = error_text(
                resource.update(context, req, id.clone(), old_resource_properties),
            );
            let ghost i = id@;
            let outcome = ProvisionOutcome::updated(id, result);
            let response = build_response(stack_id, request_id, logical_resource_id, outcome);
            assert(response@ == response_of(s, q, l, update_outcome(i, result)) && (result is Ok
                ==> response.data == result->Ok_0.data));
            (response, response_url)
        },
        Plan::Delete(id) => {
            let req = capability_request(
                &stack_id,
                &request_id,
                resource_type,
                &logical_resource_id,
                resource_properties,
            );
            let result = error_text(resource.delete(context, req, id.as_str()));
            let ghost i = id@;
            let outcome = ProvisionOutcome::deleted(id, result);
            let response = build_response(stack_id, request_id, logical_resource_id, outcome);
            assert(response@ == response_of(s, q, l, delete_outcome(i, result)));
            (response, response_url)
        },
    }
}

/// The response for an event whose resource type nothing handles: a delete
/// under the sentinel still succeeds, anything else fails and names the type.
pub fn unhandled_response(request: model::CloudFormationRequest) -> (r: (
    model::CloudFormationResponse,
    Url,
))
    ensures
        r.1 == request.response_url,
        r.0@ == response_of(
            request.stack_id@,
            request.request_id@,
            request.logical_resource_id@,
            unknown_type_outcome(
                request.request_type,
                opt_view(request.physical_resource_id),
                request.resource_type@,
            ),
        ),
{
    let model::CloudFormationRequest {
        request_type,
        response_url,
        stack_id,
        request_id,
        resource_type,
        logical_resource_id,
        physical_resource_id,
        resource_properties: _,
        old_resource_properties: _,
    } = request;
    let failure = String::from_str(PHYSICAL_RESOURCE_ID_FAILURE);
    let outcome = match physical_resource_id {
        Some(id) => {
            if request_type == model::RequestType::Delete && id == failure {
                ProvisionOutcome::recovered()
            } else {
                let mut reason = String::from_str(REASON_UNKNOWN_TYPE);
                reason.append(resource_type.as_str());
                ProvisionOutcome::rejected(reason, id)
            }
        },
        None => {
            let mut reason = String::from_str(REASON_UNKNOWN_TYPE);
            reason.append(resource_type.as_str());
            ProvisionOutcome::rejected(reason, failure)
        },
    };
    (build_response(stack_id, request_id, logical_resource_id, outcome), response_url)
}

/// Logging is configured by the surrounding program; the library itself
/// installs no logger.
pub fn logger_init() {
}

} // verus!
