//! What the protocol promises, proved over the specification of the
//! dispatcher and the response builder.
use crate::dispatch::{
    answers, create_outcome, delete_outcome, expected_reason, response_of, sentinel, step_of,
    unexpected_reason, update_outcome, Step, REASON_ID_UNEXPECTED,
};
use crate::model::{CloudFormationResponse as Reply, RequestType, Status};
use crate::{without_service_token, CloudFormationResponse, SERVICE_TOKEN_KEY};
use vstd::prelude::*;

verus! {

/// A create of a new resource is handed to the capability, and when the
/// capability succeeds the response succeeds under the identity it returned.
pub proof fn create_success_reports_returned_id(
    s: Seq<char>,
    q: Seq<char>,
    l: Seq<char>,
    res: CloudFormationResponse,
)
    ensures
        step_of(RequestType::Create, None) == Step::Create,
        response_of(s, q, l, create_outcome(Ok(res))).status == Status::Success,
        response_of(s, q, l, create_outcome(Ok(res))).physical_resource_id
            == res.physical_resource_id@,
{
}

/// When the capability fails a create, the response fails under the sentinel
/// identity.
pub proof fn create_failure_reports_sentinel(
    s: Seq<char>,
    q: Seq<char>,
    l: Seq<char>,
    error: String,
)
    ensures
        step_of(RequestType::Create, None) == Step::Create,
        response_of(s, q, l, create_outcome(Err(error))).status == Status::Failed,
        response_of(s, q, l, create_outcome(Err(error))).physical_resource_id == sentinel(),
{
}

/// A delete under the sentinel identity calls no capability and always
/// succeeds, under the sentinel, with no data.
pub proof fn delete_of_sentinel_recovers(
    s: Seq<char>,
    q: Seq<char>,
    l: Seq<char>,
    response: Reply,
)
    requires
        answers(RequestType::Delete, Some(sentinel()), s, q, l, response),
    ensures
        step_of(RequestType::Delete, Some(sentinel())) == Step::Recover,
        response@.status == Status::Success,
        response@.physical_resource_id == sentinel(),
        response@.data == Set::<Seq<char>>::empty(),
{
}

/// A failed update or delete of a resource keeps the resource's identity.
pub proof fn failed_update_or_delete_keeps_id(
    request_type: RequestType,
    id: Seq<char>,
    s: Seq<char>,
    q: Seq<char>,
    l: Seq<char>,
    response: Reply,
)
    requires
        request_type != RequestType::Create,
        id != sentinel(),
        answers(request_type, Some(id), s, q, l, response),
        response@.status == Status::Failed,
    ensures
        response@.physical_resource_id == id,
{
    if request_type == RequestType::Update {
        let res = choose|res: Result<CloudFormationResponse, String>|
            response@ == response_of(s, q, l, #[trigger] update_outcome(id, res)) && (res is Ok
                ==> response.data == res->Ok_0.data);
        assert(res is Err);
    } else {
        let res = choose|res: Result<(), String>|
            response@ == response_of(s, q, l, #[trigger] delete_outcome(id, res));
        assert(res is Err);
    }
}

/// Taking the service token out of a set of property keys, as
/// `capability_request` and `strip_service_token` do, leaves no service token
/// and keeps every other key.
pub proof fn service_token_is_withheld(properties: Set<Seq<char>>)
    ensures
        !without_service_token(properties).contains(SERVICE_TOKEN_KEY@),
        forall|k: Seq<char>|
            k != SERVICE_TOKEN_KEY@ ==> (#[trigger] without_service_token(properties).contains(k)
                <==> properties.contains(k)),
{
}

/// A create that already names a resource fails under that identity, with a
/// reason that ends in it.
pub proof fn create_with_id_is_rejected(
    id: Seq<char>,
    s: Seq<char>,
    q: Seq<char>,
    l: Seq<char>,
    response: Reply,
)
    requires
        answers(RequestType::Create, Some(id), s, q, l, response),
    ensures
        response@.status == Status::Failed,
        response@.physical_resource_id == id,
        response@.reason == Some(unexpected_reason(id)),
        unexpected_reason(id).subrange(
            REASON_ID_UNEXPECTED@.len() as int,
            unexpected_reason(id).len() as int,
        ) == id,
{
    assert(unexpected_reason(id).subrange(
        REASON_ID_UNEXPECTED@.len() as int,
        unexpected_reason(id).len() as int,
    ) =~= id);
}

/// An update or delete that names no resource fails under the sentinel, with
/// the reason that an identity was expected.
pub proof fn missing_id_is_rejected(
    request_type: RequestType,
    s: Seq<char>,
    q: Seq<char>,
    l: Seq<char>,
    response: Reply,
)
    requires
        request_type != RequestType::Create,
        answers(request_type, None, s, q, l, response),
    ensures
        response@.status == Status::Failed,
        response@.physical_resource_id == sentinel(),
        response@.reason == Some(expected_reason()),
{
}

/// Every response echoes the event's stack, request and logical resource ids.
pub proof fn correlation_ids_are_echoed(
    request_type: RequestType,
    id: Option<Seq<char>>,
    s: Seq<char>,
    q: Seq<char>,
    l: Seq<char>,
    response: Reply,
)
    requires
        answers(request_type, id, s, q, l, response),
    ensures
        response@.stack_id == s,
        response@.request_id == q,
        response@.logical_resource_id == l,
{
    match step_of(request_type, id) {
        Step::Create => {
            let res = choose|res: Result<CloudFormationResponse, String>|
                response@ == response_of(s, q, l, #[trigger] create_outcome(res)) && (res is Ok
                ==> response.data == res->Ok_0.data);
        },
        Step::Update { id } => {
            let res = choose|res: Result<CloudFormationResponse, String>|
                response@ == response_of(s, q, l, #[trigger] update_outcome(id, res)) && (res is Ok
                ==> response.data == res->Ok_0.data);
        },
        Step::Delete { id } => {
            let res = choose|res: Result<(), String>|
                response@ == response_of(s, q, l, #[trigger] delete_outcome(id, res));
        },
        _ => {},
    }
}

} // verus!
