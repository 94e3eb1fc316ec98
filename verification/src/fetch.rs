//! The manifest fetcher's decisions. Two documents are fetched one after the
//! other: the index manifest, and then the resource manifest, whose URL the
//! index manifest gives. The caller sends the requests and decodes the
//! bodies; what to request, whether a body may be decoded at all, and what a
//! decoded document is worth is decided here.

use crate::structs::{BasicResponse, ResourceResponse};
use vstd::prelude::*;
use vstd::string::StringExecFns;

verus! {

/// Why the manifests could not be had. Any of these ends the run.
#[derive(Debug, Clone, PartialEq)]
pub enum FetchError {
    /// The connection could not be made, or broke, or timed out.
    TransportError(String),
    /// The server answered with a status outside 200 to 299.
    UnexpectedStatus(u16),
    /// The server did not label the body as JSON. Holds the content type it
    /// declared, if it declared one.
    UnexpectedContentType(Option<String>),
    /// The body is not a manifest, or the index manifest names no CDN host.
    MalformedManifest(String),
}

/// A fetch error as plain text.
pub enum FetchErrorView {
    TransportError(Seq<char>),
    UnexpectedStatus(u16),
    UnexpectedContentType(Option<Seq<char>>),
    MalformedManifest(Seq<char>),
}

/// The content type of an optional header value as plain text.
pub open spec fn text_of(value: Option<String>) -> Option<Seq<char>> {
    match value {
        Some(s) => Some(s@),
        None => None,
    }
}

impl View for FetchError {
    type V = FetchErrorView;

    open spec fn view(&self) -> FetchErrorView {
        match self {
            FetchError::TransportError(cause) => FetchErrorView::TransportError(cause@),
            FetchError::UnexpectedStatus(code) => FetchErrorView::UnexpectedStatus(*code),
            FetchError::UnexpectedContentType(declared) => FetchErrorView::UnexpectedContentType(
                text_of(*declared),
            ),
            FetchError::MalformedManifest(detail) => FetchErrorView::MalformedManifest(detail@),
        }
    }
}

/// The start of a response: its status and the content type it declares.
#[derive(Debug, Clone, PartialEq)]
pub struct ResponseHead {
    pub status: u16,
    /// The value of the content-type header; `None` if the header is absent
    /// or is not text.
    pub content_type: Option<String>,
}

/// The only content type under which a manifest is accepted.
pub open spec fn json_media_type() -> Seq<char> {
    "application/json"@
}

/// What is reported of an index manifest without a CDN host.
pub open spec fn no_cdn_detail() -> Seq<char> {
    "cdnList is empty"@
}

/// What is wrong with the start of a manifest response, if anything: first
/// the status has to be one of 200 to 299, then the content type has to be
/// exactly the JSON media type.
pub open spec fn head_fault(head: &ResponseHead) -> Option<FetchErrorView> {
    if !(200 <= head.status < 300) {
        Some(FetchErrorView::UnexpectedStatus(head.status))
    } else if text_of(head.content_type) != Some(json_media_type()) {
        Some(FetchErrorView::UnexpectedContentType(text_of(head.content_type)))
    } else {
        None
    }
}

/// Decides from the start of a manifest response whether its body may be
/// decoded.
pub fn check_head(head: &ResponseHead) -> (checked: Result<(), FetchError>)
    ensures
        match checked {
            Ok(_) => head_fault(head) is None,
            Err(e) => head_fault(head) == Some(e@),
        },
{
    if head.status < 200 || head.status >= 300 {
        return Err(FetchError::UnexpectedStatus(head.status));
    }
    let json = String::from_str("application/json");
    match &head.content_type {
        Some(declared) => {
            if *declared == json {
                Ok(())
            } else {
                Err(FetchError::UnexpectedContentType(Some(declared.clone())))
            }
        },
        None => Err(FetchError::UnexpectedContentType(None)),
    }
}

/// How far the fetching of the two manifests has come.
#[derive(Debug, Clone, PartialEq)]
pub enum FetchState {
    /// The index manifest was requested.
    IndexRequested,
    /// The index manifest's response may be decoded.
    IndexAccepted,
    /// The resource manifest was requested.
    ResourcesRequested(BasicResponse),
    /// The resource manifest's response may be decoded.
    ResourcesAccepted(BasicResponse),
    /// Both manifests are there.
    Ready(BasicResponse, ResourceResponse),
    /// The run is over: a manifest could not be had.
    Failed(FetchError),
}

/// What the caller observed.
#[derive(Debug, PartialEq)]
pub enum FetchEvent {
    /// The request or the reading of the body failed in transport.
    Unreachable(String),
    /// The response began.
    Head(ResponseHead),
    /// The body was read as an index manifest, or could not be; then with
    /// the decoder's message.
    IndexBody(Result<BasicResponse, String>),
    /// The body was read as a resource manifest, or could not be; then with
    /// the decoder's message.
    ResourcesBody(Result<ResourceResponse, String>),
}

/// What the caller is to do next.
#[derive(Debug, Clone, PartialEq)]
pub enum FetchAction {
    /// Send a GET request to this URL and report how the response begins.
    Get(String),
    /// Decode the body of the response as an index manifest.
    ReadIndex,
    /// Decode the body of the response as a resource manifest.
    ReadResources,
    /// Nothing: the state is `Ready` or `Failed`.
    Stop,
}

/// The state is `Failed` with the error `fault`, and there is nothing to do.
pub open spec fn fails_with(next: (FetchState, FetchAction), fault: FetchErrorView) -> bool {
    &&& next.0 matches FetchState::Failed(e)
    &&& e@ == fault
    &&& next.1 is Stop
}

/// The state `state` awaits the event `event`.
pub open spec fn expects(state: &FetchState, event: &FetchEvent) -> bool {
    match (state, event) {
        (FetchState::IndexRequested, FetchEvent::Unreachable(_)) => true,
        (FetchState::IndexRequested, FetchEvent::Head(_)) => true,
        (FetchState::IndexAccepted, FetchEvent::Unreachable(_)) => true,
        (FetchState::IndexAccepted, FetchEvent::IndexBody(_)) => true,
        (FetchState::ResourcesRequested(_), FetchEvent::Unreachable(_)) => true,
        (FetchState::ResourcesRequested(_), FetchEvent::Head(_)) => true,
        (FetchState::ResourcesAccepted(_), FetchEvent::Unreachable(_)) => true,
        (FetchState::ResourcesAccepted(_), FetchEvent::ResourcesBody(_)) => true,
        _ => false,
    }
}

/// `next` is where `event` leads from `state`.
///
/// A transport failure fails the run with `TransportError`. A response whose
/// start is at fault fails it with that fault, and its body is not asked
/// for; otherwise the body is asked for. A body that could not be decoded
/// fails the run with `MalformedManifest`, and so does an index manifest
/// without a CDN host. A sound index manifest leads to the request for the
/// resource manifest, at the first CDN host's base URL followed by the
/// manifest's relative location; a decoded resource manifest ends the
/// fetching with both documents unchanged. Of an event that the state does
/// not await nothing is said.
pub open spec fn leads_to(state: FetchState, event: FetchEvent, next: (FetchState, FetchAction)) -> bool {
    match (state, event) {
        (_, FetchEvent::Unreachable(cause)) => fails_with(
            next,
            FetchErrorView::TransportError(cause@),
        ),
        (FetchState::IndexRequested, FetchEvent::Head(head)) => match head_fault(&head) {
            Some(fault) => fails_with(next, fault),
            None => next.0 is IndexAccepted && next.1 is ReadIndex,
        },
        (FetchState::IndexAccepted, FetchEvent::IndexBody(Ok(index))) => if index.has_cdn() {
            &&& next.0 == FetchState::ResourcesRequested(index)
            &&& next.1 matches FetchAction::Get(url)
            &&& url@ == index.resources_url()
        } else {
            fails_with(next, FetchErrorView::MalformedManifest(no_cdn_detail()))
        },
        (FetchState::IndexAccepted, FetchEvent::IndexBody(Err(detail))) => fails_with(
            next,
            FetchErrorView::MalformedManifest(detail@),
        ),
        (FetchState::ResourcesRequested(index), FetchEvent::Head(head)) => match head_fault(
            &head,
        ) {
            Some(fault) => fails_with(next, fault),
            None => next.0 == FetchState::ResourcesAccepted(index) && next.1 is ReadResources,
        },
        (
            FetchState::ResourcesAccepted(index),
            FetchEvent::ResourcesBody(Ok(resources)),
        ) => next.0 == FetchState::Ready(index, resources) && next.1 is Stop,
        (FetchState::ResourcesAccepted(_), FetchEvent::ResourcesBody(Err(detail))) => fails_with(
            next,
            FetchErrorView::MalformedManifest(detail@),
        ),
        _ => true,
    }
}

/// An index manifest with at least one CDN host is accepted as it was
/// decoded, every field unchanged, and the resource manifest is requested
/// next.
pub proof fn lemma_sound_index_is_kept(index: BasicResponse, next: (FetchState, FetchAction))
    requires
        index.has_cdn(),
        leads_to(FetchState::IndexAccepted, FetchEvent::IndexBody(Ok(index)), next),
    ensures
        next.0 == FetchState::ResourcesRequested(index),
        next.1 matches FetchAction::Get(url) && url@ == index.default.cdn_list@[0].url@
            + index.default.resources@,
{
}

/// An index manifest without a CDN host fails the run with
/// `MalformedManifest`.
pub proof fn lemma_empty_cdn_list_is_malformed(
    index: BasicResponse,
    next: (FetchState, FetchAction),
)
    requires
        index.default.cdn_list@.len() == 0,
        leads_to(FetchState::IndexAccepted, FetchEvent::IndexBody(Ok(index)), next),
    ensures
        next.0 matches FetchState::Failed(e) && e@ is MalformedManifest,
        next.1 is Stop,
{
}

/// A response that is not labelled with the JSON media type is never
/// decoded: the run fails, the body is not asked for, and where the status
/// was a success the error is `UnexpectedContentType` with the label that
/// was declared.
pub proof fn lemma_unlabelled_body_is_never_decoded(
    state: FetchState,
    head: ResponseHead,
    next: (FetchState, FetchAction),
)
    requires
        state is IndexRequested || state is ResourcesRequested,
        text_of(head.content_type) != Some(json_media_type()),
        leads_to(state, FetchEvent::Head(head), next),
    ensures
        next.0 is Failed,
        next.1 is Stop,
        200 <= head.status < 300 ==> next.0->Failed_0@ == FetchErrorView::UnexpectedContentType(
            text_of(head.content_type),
        ),
{
}

/// Once the fetching has ended, in `Ready` or in `Failed`, no event is
/// awaited any more.
pub proof fn lemma_ended_awaits_nothing(state: FetchState, event: FetchEvent)
    requires
        state is Ready || state is Failed,
    ensures
        !expects(&state, &event),
{
}

/// Whether `state` awaits `event`.
pub fn awaits(state: &FetchState, event: &FetchEvent) -> (yes: bool)
    ensures
        yes == expects(state, event),
{
    match state {
        FetchState::IndexRequested | FetchState::ResourcesRequested(_) => match event {
            FetchEvent::Unreachable(_) => true,
            FetchEvent::Head(_) => true,
            _ => false,
        },
        FetchState::IndexAccepted => match event {
            FetchEvent::Unreachable(_) => true,
            FetchEvent::IndexBody(_) => true,
            _ => false,
        },
        FetchState::ResourcesAccepted(_) => match event {
            FetchEvent::Unreachable(_) => true,
            FetchEvent::ResourcesBody(_) => true,
            _ => false,
        },
        _ => false,
    }
}

/// Begins the fetching: the index manifest is to be requested at `url`.
pub fn start(url: String) -> (first: (FetchState, FetchAction))
    ensures
        first.0 is IndexRequested,
        first.1 == FetchAction::Get(url),
{
    (FetchState::IndexRequested, FetchAction::Get(url))
}

fn failed(error: FetchError) -> (next: (FetchState, FetchAction))
    ensures
        fails_with(next, error@),
{
    (FetchState::Failed(error), FetchAction::Stop)
}

/// Takes the fetching one step further with what the caller observed.
pub fn step(state: FetchState, event: FetchEvent) -> (next: (FetchState, FetchAction))
    requires
        expects(&state, &event),
    ensures
        leads_to(state, event, next),
{
    match event {
        FetchEvent::Unreachable(cause) => failed(FetchError::TransportError(cause)),
        FetchEvent::Head(head) => match check_head(&head) {
            Err(fault) => failed(fault),
            Ok(_) => match state {
                FetchState::IndexRequested => (FetchState::IndexAccepted, FetchAction::ReadIndex),
                FetchState::ResourcesRequested(index) => (
                    FetchState::ResourcesAccepted(index),
                    FetchAction::ReadResources,
                ),
                other => (other, FetchAction::Stop),
            },
        },
        FetchEvent::IndexBody(body) => match body {
            Err(detail) => failed(FetchError::MalformedManifest(detail)),
            Ok(index) => {
                if index.names_cdn() {
                    let url = index.resource_manifest_url();
                    (FetchState::ResourcesRequested(index), FetchAction::Get(url))
                } else {
                    failed(FetchError::MalformedManifest(String::from_str("cdnList is empty")))
                }
            },
        },
        FetchEvent::ResourcesBody(body) => match body {
            Err(detail) => failed(FetchError::MalformedManifest(detail)),
            Ok(resources) => match state {
                FetchState::ResourcesAccepted(index) => (
                    FetchState::Ready(index, resources),
                    FetchAction::Stop,
                ),
                other => (other, FetchAction::Stop),
            },
        },
    }
}

} // verus!
