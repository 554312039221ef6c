use crate::map::JsonObject;
use url::Url;
use vstd::prelude::*;

verus! {

#[verifier::external_type_specification]
#[verifier::external_body]
pub struct ExUrl(url::Url);

/// The lifecycle step that an event asks for.
#[derive(Clone, Copy, Debug, PartialEq, Eq, Structural)]
pub enum RequestType {
    Create,
    Update,
    Delete,
}

/// Whether the step succeeded.
#[derive(Clone, Copy, Debug, PartialEq, Eq, Structural)]
pub enum Status {
    Success,
    Failed,
}

/// One inbound lifecycle event.
pub struct CloudFormationRequest {
    pub request_type: RequestType,
    /// Where the response is delivered; carried through unread.
    pub response_url: Url,
    pub stack_id: String,
    pub request_id: String,
    pub resource_type: String,
    pub logical_resource_id: String,
    /// Present when the resource exists, or when its creation failed.
    pub physical_resource_id: Option<String>,
    pub resource_properties: JsonObject,
    /// The previous configuration; meaningful for updates only.
    pub old_resource_properties: JsonObject,
}

/// One outbound response.
pub struct CloudFormationResponse {
    pub status: Status,
    /// Present exactly when the status is `Failed`.
    pub reason: Option<String>,
    pub physical_resource_id: String,
    pub stack_id: String,
    pub request_id: String,
    pub logical_resource_id: String,
    pub data: JsonObject,
}

} // verus!

verus! {

/// What a response says, over plain values; `data` is the set of output keys.
pub struct ResponseView {
    pub status: Status,
    pub reason: Option<Seq<char>>,
    pub physical_resource_id: Seq<char>,
    pub stack_id: Seq<char>,
    pub request_id: Seq<char>,
    pub logical_resource_id: Seq<char>,
    pub data: Set<Seq<char>>,
}

/// The text of an optional string.
pub open spec fn opt_view(o: Option<String>) -> Option<Seq<char>> {
    match o {
        Some(s) => Some(s@),
        None => None,
    }
}

impl View for CloudFormationResponse {
    type V = ResponseView;

    open spec fn view(&self) -> ResponseView {
        ResponseView {
            status: self.status,
            reason: opt_view(self.reason),
            physical_resource_id: self.physical_resource_id@,
            stack_id: self.stack_id@,
            request_id: self.request_id@,
            logical_resource_id: self.logical_resource_id@,
            data: self.data@,
        }
    }
}

} // verus!
