//! One request for a server certificate, from its arrival to its answer.
//!
//! A request is received, authorized, validated and dispatched, in this
//! order, and ends as succeeded or failed. Each step needs something from
//! outside: the runtime's record of the module's process, the request body,
//! the reference to the edge CA, the certificate service's answer. The
//! caller fetches it and reports it as an event; what follows from it is
//! decided here.

use vstd::prelude::*;
use crate::alias::CertificateAlias;
use crate::auth::{authorize, authorized, ProcessLookup};
use crate::cert::{
    requested_name, validate, validated, CertificateSpec, ServerCertificateRequest,
};
use crate::dispatch::{
    conclude, concluded, issuance_of, prepare_issuance, CertificateResponse, EdgeCaRef,
    EdgeCaView, IssuanceRequest, IssuanceRequestView, ServiceOutcome,
};
use crate::response::{error_response, response_to, ErrorResponse, RequestError};
use crate::route::{
    capture_views, match_path, match_pattern, server_certificate_pattern,
    server_certificate_route, Capture, CapturedView,
};
use crate::percent::percent_decoded;
use crate::route::{match_segments, SegmentView};
use crate::text::{same_chars, split, to_chars};

verus! {

/// The status that answers a request that succeeded.
pub const STATUS_OK: u16 = 200;

/// Who calls, and as what, in plain values.
pub struct CallerContextView {
    pub module_id: Seq<char>,
    pub generation_id: Seq<char>,
    pub process_id: i32,
}

/// Who calls, and as what: the module and the generation that the path of
/// the request names, and the process that the transport saw.
#[derive(Debug)]
pub struct CallerContext {
    pub module_id: String,
    pub generation_id: String,
    pub process_id: i32,
}

impl View for CallerContext {
    type V = CallerContextView;

    open spec fn view(&self) -> CallerContextView {
        CallerContextView {
            module_id: self.module_id@,
            generation_id: self.generation_id@,
            process_id: self.process_id,
        }
    }
}

/// The value of the first capture at or after index `from` that has the
/// given name.
pub open spec fn capture_from(captures: Seq<CapturedView>, name: Seq<char>, from: int) -> Option<
    Seq<char>,
>
    decreases captures.len() - from,
{
    if from < 0 || from >= captures.len() {
        None
    } else if captures[from].name == name {
        Some(captures[from].value)
    } else {
        capture_from(captures, name, from + 1)
    }
}

/// The value of the capture of the given name.
pub open spec fn capture_named(captures: Seq<CapturedView>, name: Seq<char>) -> Option<Seq<char>> {
    capture_from(captures, name, 0)
}

/// The value of the capture of the given name.
pub fn find_capture<'a>(captures: &'a [Capture], name: &str) -> (r: Option<&'a str>)
    ensures
        match capture_named(capture_views(captures@), name@) {
            Some(value) => r matches Some(found) && found@ == value,
            None => r is None,
        },
{
    let wanted = to_chars(name);
    let ghost all = capture_views(captures@);
    let mut i: usize = 0;
    while i < captures.len()
        invariant
            i <= captures.len(),
            wanted@ == name@,
            all == capture_views(captures@),
            capture_named(all, name@) == capture_from(all, name@, i as int),
        decreases captures.len() - i,
    {
        let held = to_chars(captures[i].name.as_str());
        assert(all[i as int] == captures@[i as int]@);
        if same_chars(held.as_slice(), wanted.as_slice()) {
            return Some(captures[i].value.as_str());
        }
        i += 1;
    }
    None
}

/// The caller of a request with the given captures and process identity.
///
/// A request to which the transport attached no process identity has no
/// caller that could be checked: it is unauthenticated, whatever else it
/// holds.
pub open spec fn context_of(captures: Seq<CapturedView>, process_id: Option<i32>) -> Result<
    CallerContextView,
    RequestError,
> {
    match process_id {
        None => Err(RequestError::Unauthenticated),
        Some(process_id) => match (
            capture_named(captures, "moduleId"@),
            capture_named(captures, "genId"@),
        ) {
            (Some(module_id), Some(generation_id)) => Ok(
                CallerContextView { module_id, generation_id, process_id },
            ),
            _ => Err(RequestError::MissingParameter),
        },
    }
}

impl CallerContext {
    /// The caller of a request with the given captures and process
    /// identity.
    pub fn from_captures(captures: &[Capture], process_id: Option<i32>) -> (r: Result<
        CallerContext,
        RequestError,
    >)
        ensures
            match context_of(capture_views(captures@), process_id) {
                Ok(expected) => r matches Ok(context) && context@ == expected,
                Err(reason) => r matches Err(e) && e == reason,
            },
    {
        let process_id = match process_id {
            Some(process_id) => process_id,
            None => {
                return Err(RequestError::Unauthenticated);
            },
        };
        let module_id = find_capture(captures, "moduleId");
        let generation_id = find_capture(captures, "genId");
        match (module_id, generation_id) {
            (Some(module_id), Some(generation_id)) => Ok(
                CallerContext {
                    module_id: module_id.to_owned(),
                    generation_id: generation_id.to_owned(),
                    process_id,
                },
            ),
            _ => Err(RequestError::MissingParameter),
        }
    }

    /// The caller of the request for `path`, where `path` is that of the
    /// server certificate route; nothing where it is another path.
    pub fn from_uri(path: &str, process_id: Option<i32>) -> (r: Option<
        Result<CallerContext, RequestError>,
    >)
        ensures
            match match_path(server_certificate_pattern(), path@) {
                None => r is None,
                Some(captures) => match context_of(captures, process_id) {
                    Ok(expected) => r matches Some(Ok(context)) && context@ == expected,
                    Err(reason) => r matches Some(Err(e)) && e == reason,
                },
            },
    {
        let pattern = server_certificate_route();
        match match_pattern(&pattern, path) {
            None => None,
            Some(captures) => Some(CallerContext::from_captures(captures.as_slice(), process_id)),
        }
    }
}

/// On the server certificate route the caller is named by the path: the
/// module is what the second segment decodes to, the generation what the
/// fourth decodes to, and no parameter can be missing. Whether the request
/// is authenticated rests on the transport alone.
pub proof fn lemma_certificate_route_names_caller(path: Seq<char>, process_id: Option<i32>)
    requires
        match_path(server_certificate_pattern(), path) is Some,
    ensures
        ({
            let captures = match_path(server_certificate_pattern(), path)->Some_0;
            let parts = split(path, '/');
            &&& parts.len() == 7
            &&& percent_decoded(parts[2]) matches Some(module_id)
            &&& percent_decoded(parts[4]) matches Some(generation_id)
            &&& context_of(captures, process_id) == match process_id {
                None => Err::<CallerContextView, RequestError>(RequestError::Unauthenticated),
                Some(process_id) => Ok(CallerContextView { module_id, generation_id, process_id }),
            }
        }),
{
    reveal_strlit("moduleId");
    reveal_strlit("genId");
    assert("moduleId"@ != "genId"@) by {
        assert("moduleId"@.len() != "genId"@.len());
    }
    let p6 = server_certificate_pattern();
    let parts = split(path, '/');
    let r6 = parts.skip(1);
    let p5 = p6.drop_last();
    let r5 = r6.drop_last();
    let p4 = p5.drop_last();
    let r4 = r5.drop_last();
    let p3 = p4.drop_last();
    let r3 = r4.drop_last();
    let p2 = p3.drop_last();
    let r2 = r3.drop_last();
    let p1 = p2.drop_last();
    let r1 = r2.drop_last();
    let p0 = p1.drop_last();
    let r0 = r1.drop_last();
    assert(p0.len() == 0);
    assert(match_segments(p0, r0) == Some(Seq::<CapturedView>::empty()));
    assert(p1.last() == SegmentView::Literal("modules"@));
    assert(p2.last() == SegmentView::Capture("moduleId"@));
    assert(p3.last() == SegmentView::Literal("genid"@));
    assert(p4.last() == SegmentView::Capture("genId"@));
    assert(p5.last() == SegmentView::Literal("certificate"@));
    assert(p6.last() == SegmentView::Literal("server"@));
    assert(r2.last() == parts[2]);
    assert(r4.last() == parts[4]);
    let c1 = match_segments(p1, r1);
    let c2 = match_segments(p2, r2);
    let c3 = match_segments(p3, r3);
    let c4 = match_segments(p4, r4);
    let c5 = match_segments(p5, r5);
    let c6 = match_segments(p6, r6);
    assert(c6 is Some);
    assert(c5 is Some);
    assert(c4 is Some);
    assert(c3 is Some);
    assert(c2 is Some);
    assert(c1 is Some);
    assert(c1 == Some(Seq::<CapturedView>::empty()));
    let module_id = percent_decoded(parts[2])->Some_0;
    let generation_id = percent_decoded(parts[4])->Some_0;
    let first = CapturedView { name: "moduleId"@, value: module_id };
    let second = CapturedView { name: "genId"@, value: generation_id };
    assert(c2 == Some(Seq::<CapturedView>::empty().push(first)));
    assert(c3 == c2);
    assert(c4 == Some(Seq::<CapturedView>::empty().push(first).push(second)));
    assert(c5 == c4);
    assert(c6 == c4);
    let captures = c6->Some_0;
    assert(captures[0] == first);
    assert(captures[1] == second);
    assert(capture_from(captures, "genId"@, 1) == Some(generation_id));
    assert(capture_named(captures, "genId"@) == Some(generation_id));
    assert(capture_named(captures, "moduleId"@) == Some(module_id));
}

/// How far a request has come.
#[derive(Debug)]
pub enum RequestState {
    /// The caller is known; whether it may act as the module is not.
    Received(CallerContext),
    /// The caller may act as the module; the body has not been looked at.
    Authorized(CallerContext),
    /// The certificate to issue is described; nothing has been asked of
    /// the certificate service.
    Validated(CertificateSpec),
    /// The certificate service has been asked for the certificate of this
    /// alias.
    Dispatched(CertificateAlias),
    /// The request has been answered with a certificate.
    Succeeded,
    /// The request has been answered with an error, or the transport has
    /// closed it.
    Failed(RequestError),
}

/// What the caller reports from outside.
#[derive(Debug)]
pub enum Event {
    /// The runtime's answer to the question which process runs the module.
    ProcessResolved(ProcessLookup),
    /// The body of the request, if it has one.
    BodyRead(Option<ServerCertificateRequest>),
    /// The reference to the edge CA.
    SignerLoaded(EdgeCaRef),
    /// The answer of the certificate service.
    ServiceAnswered(ServiceOutcome),
    /// The transport closed the request.
    Cancelled,
}

/// What the caller is to do next.
#[derive(Debug)]
pub enum Action {
    /// Ask the runtime which process runs the module of this name.
    ResolveProcess(String),
    /// Read the body of the request.
    ReadBody,
    /// Fetch the reference to the edge CA.
    LoadSigner,
    /// Ask the certificate service for this certificate.
    Issue(IssuanceRequest),
    /// Answer the request with this certificate and status 200.
    Respond(CertificateResponse),
    /// Answer the request with this error.
    Reject(ErrorResponse),
    /// Nothing: the request is over.
    Nothing,
}

impl RequestState {
    /// The number of steps that the request has behind it.
    pub open spec fn stage(self) -> nat {
        match self {
            RequestState::Received(_) => 0,
            RequestState::Authorized(_) => 1,
            RequestState::Validated(_) => 2,
            RequestState::Dispatched(_) => 3,
            RequestState::Succeeded => 4,
            RequestState::Failed(_) => 4,
        }
    }

    /// The request is over.
    pub open spec fn terminal(self) -> bool {
        self is Succeeded || self is Failed
    }

    /// Whether the request is over.
    pub fn is_terminal(&self) -> (r: bool)
        ensures
            r == self.terminal(),
    {
        match self {
            RequestState::Succeeded => true,
            RequestState::Failed(_) => true,
            _ => false,
        }
    }
}

/// The request fails with `error` and is answered with the response to it.
pub open spec fn rejected(next: RequestState, action: Action, error: RequestError) -> bool {
    &&& next == RequestState::Failed(error)
    &&& action matches Action::Reject(response) && response@ == response_to(error)
}

/// What the arrival of a request leads to: the runtime is asked for the
/// module's process, unless the request fails at once.
pub open spec fn arrival(
    captures: Seq<CapturedView>,
    process_id: Option<i32>,
    next: RequestState,
    action: Action,
) -> bool {
    match context_of(captures, process_id) {
        Ok(expected) => {
            &&& next matches RequestState::Received(context) && context@ == expected
            &&& action matches Action::ResolveProcess(module_id) && module_id@
                == expected.module_id
        },
        Err(reason) => rejected(next, action, reason),
    }
}

/// What `event` leads to in state `state`: the state that follows and the
/// action to take.
///
/// Each state waits for one kind of event, and an event of another kind
/// fails the request. A request that the transport closed fails without an
/// answer. A request that is over stays as it is, and what is reported of
/// it is dropped.
pub open spec fn transition(
    state: RequestState,
    event: Event,
    next: RequestState,
    action: Action,
) -> bool {
    if state.terminal() {
        next == state && action is Nothing
    } else if event is Cancelled {
        next == RequestState::Failed(RequestError::Cancelled) && action is Nothing
    } else {
        progress(state, event, next, action)
    }
}

/// What an event other than a cancellation leads to in a request that is
/// not over.
pub open spec fn progress(
    state: RequestState,
    event: Event,
    next: RequestState,
    action: Action,
) -> bool {
    match state {
        RequestState::Received(context) => match event {
            Event::ProcessResolved(lookup) => match authorized(lookup, context.process_id) {
                Ok(_) => next == RequestState::Authorized(context) && action is ReadBody,
                Err(reason) => rejected(next, action, RequestError::Auth(reason)),
            },
            _ => rejected(next, action, RequestError::Internal),
        },
        RequestState::Authorized(context) => match event {
            Event::BodyRead(body) => match validated(
                context.module_id@,
                context.generation_id@,
                requested_name(body),
            ) {
                Ok(expected) => {
                    &&& next matches RequestState::Validated(spec) && spec@ == expected
                    &&& action is LoadSigner
                },
                Err(reason) => rejected(next, action, RequestError::Validation(reason)),
            },
            _ => rejected(next, action, RequestError::Internal),
        },
        RequestState::Validated(spec) => match event {
            Event::SignerLoaded(signer) => {
                &&& next matches RequestState::Dispatched(alias) && alias@ == spec.alias@
                &&& action matches Action::Issue(request) && request@ == issuance_of(
                    spec@,
                    signer@,
                )
            },
            _ => rejected(next, action, RequestError::Internal),
        },
        RequestState::Dispatched(_) => match event {
            Event::ServiceAnswered(outcome) => match concluded(outcome) {
                Ok(material) => {
                    &&& next is Succeeded
                    &&& action matches Action::Respond(response) && response@ == material
                },
                Err(reason) => rejected(next, action, RequestError::Issuance(reason)),
            },
            _ => rejected(next, action, RequestError::Internal),
        },
        RequestState::Succeeded => next is Succeeded && action is Nothing,
        RequestState::Failed(error) => next == RequestState::Failed(error) && action is Nothing,
    }
}

/// Fails a request.
fn reject(error: RequestError) -> (r: (RequestState, Action))
    ensures
        rejected(r.0, r.1, error),
{
    (RequestState::Failed(error), Action::Reject(error_response(error)))
}

/// Takes in a request that the router sent to the server certificate
/// route. The body is not looked at.
pub fn receive(captures: &[Capture], process_id: Option<i32>) -> (r: (RequestState, Action))
    ensures
        arrival(capture_views(captures@), process_id, r.0, r.1),
{
    match CallerContext::from_captures(captures, process_id) {
        Ok(context) => {
            let module_id = context.module_id.clone();
            (RequestState::Received(context), Action::ResolveProcess(module_id))
        },
        Err(reason) => reject(reason),
    }
}

/// Takes a request one step further.
pub fn step(state: RequestState, event: Event) -> (r: (RequestState, Action))
    ensures
        transition(state, event, r.0, r.1),
{
    if state.is_terminal() {
        return (state, Action::Nothing);
    }
    if let Event::Cancelled = event {
        return (RequestState::Failed(RequestError::Cancelled), Action::Nothing);
    }
    match state {
        RequestState::Received(context) => match event {
            Event::ProcessResolved(lookup) => match authorize(lookup, context.process_id) {
                Ok(_) => (RequestState::Authorized(context), Action::ReadBody),
                Err(reason) => reject(RequestError::Auth(reason)),
            },
            _ => reject(RequestError::Internal),
        },
        RequestState::Authorized(context) => match event {
            Event::BodyRead(body) => match validate(
                context.module_id.as_str(),
                context.generation_id.as_str(),
                body,
            ) {
                Ok(spec) => (RequestState::Validated(spec), Action::LoadSigner),
                Err(reason) => reject(RequestError::Validation(reason)),
            },
            _ => reject(RequestError::Internal),
        },
        RequestState::Validated(spec) => match event {
            Event::SignerLoaded(signer) => {
                let alias = spec.alias.clone();
                (RequestState::Dispatched(alias), Action::Issue(prepare_issuance(spec, signer)))
            },
            _ => reject(RequestError::Internal),
        },
        RequestState::Dispatched(_) => match event {
            Event::ServiceAnswered(outcome) => match conclude(outcome) {
                Ok(response) => (RequestState::Succeeded, Action::Respond(response)),
                Err(reason) => reject(RequestError::Issuance(reason)),
            },
            _ => reject(RequestError::Internal),
        },
        RequestState::Succeeded => (RequestState::Succeeded, Action::Nothing),
        RequestState::Failed(error) => (RequestState::Failed(error), Action::Nothing),
    }
}

/// A request only moves forward: every step takes it to a later stage,
/// until it is over, and then it stays as it is. So a request is over after
/// four steps at most, and is never taken up again.
pub proof fn lemma_steps_move_forward(
    state: RequestState,
    event: Event,
    next: RequestState,
    action: Action,
)
    requires
        transition(state, event, next, action),
    ensures
        !state.terminal() ==> next.stage() > state.stage(),
        !state.terminal() ==> next.stage() == state.stage() + 1 || next is Failed,
        state.terminal() ==> next == state && action is Nothing,
        next.stage() <= 4,
        next.stage() == 4 <==> next.terminal(),
{
}

/// Once the transport has closed a request, nothing is done on its behalf
/// any more: whatever is reported of it afterwards, an answer of the
/// certificate service too, is dropped.
pub proof fn lemma_cancelled_request_acts_on_nothing(
    state: RequestState,
    event: Event,
    cancelled: RequestState,
    dropped: Action,
    later: Event,
    next: RequestState,
    action: Action,
)
    requires
        event is Cancelled,
        transition(state, event, cancelled, dropped),
        transition(cancelled, later, next, action),
    ensures
        dropped is Nothing,
        action is Nothing,
        next == cancelled,
        next.terminal(),
{
}

/// Authorization comes before validation, and validation before anything
/// is asked of the certificate service: the body is asked for only once
/// the runtime has the calling process on record for the module, a
/// certificate is described only from the body of an authorized request,
/// and the service is asked only for a certificate that has been
/// described.
pub proof fn lemma_order_of_steps(
    state: RequestState,
    event: Event,
    next: RequestState,
    action: Action,
)
    requires
        transition(state, event, next, action),
    ensures
        action is ReadBody ==> (state matches RequestState::Received(context) && event
            == Event::ProcessResolved(ProcessLookup::Running(context.process_id))),
        next is Authorized ==> action is ReadBody,
        next is Validated ==> state is Authorized && event is BodyRead,
        action is Issue ==> state is Validated,
        next is Dispatched ==> action is Issue,
        action is Respond ==> state is Dispatched && next is Succeeded,
{
}

/// A request without process identity is turned down when it arrives,
/// whatever its path captured: its body is never asked for.
pub proof fn lemma_unauthenticated_is_rejected_on_arrival(
    captures: Seq<CapturedView>,
    next: RequestState,
    action: Action,
)
    requires
        arrival(captures, None, next, action),
    ensures
        next == RequestState::Failed(RequestError::Unauthenticated),
        (action matches Action::Reject(response) && response@ == response_to(
            RequestError::Unauthenticated,
        )),
{
}

/// What the handler makes of a request, in plain values.
pub open spec fn handled(
    signer: EdgeCaView,
    module_id: Option<Seq<char>>,
    generation_id: Option<Seq<char>>,
    common_name: Option<Seq<char>>,
) -> Result<IssuanceRequestView, RequestError> {
    match (module_id, generation_id) {
        (Some(module_id), Some(generation_id)) => match validated(
            module_id,
            generation_id,
            common_name,
        ) {
            Ok(spec) => Ok(issuance_of(spec, signer)),
            Err(reason) => Err(RequestError::Validation(reason)),
        },
        _ => Err(RequestError::MissingParameter),
    }
}

/// The text that a string slice holds, where there is one.
pub open spec fn option_str(s: Option<&str>) -> Option<Seq<char>> {
    match s {
        Some(s) => Some(s@),
        None => None,
    }
}

/// The handler of server certificate requests: it knows the edge CA that
/// signs.
#[derive(Debug)]
pub struct ServerCertHandler {
    pub edge_ca: EdgeCaRef,
}

impl ServerCertHandler {
    /// The handler whose certificates `edge_ca` signs.
    pub fn new(edge_ca: EdgeCaRef) -> (handler: Self)
        ensures
            handler.edge_ca == edge_ca,
    {
        ServerCertHandler { edge_ca }
    }

    /// Makes of a request, already authorized, what is to be asked of the
    /// certificate service. `name` and `genid` are the parameters that the
    /// route captured.
    pub fn handle(
        &self,
        name: Option<&str>,
        genid: Option<&str>,
        body: Option<ServerCertificateRequest>,
    ) -> (r: Result<IssuanceRequest, RequestError>)
        ensures
            match handled(self.edge_ca@, option_str(name), option_str(genid), requested_name(body)) {
                Ok(expected) => r matches Ok(request) && request@ == expected,
                Err(reason) => r matches Err(e) && e == reason,
            },
    {
        let (module_id, generation_id) = match (name, genid) {
            (Some(module_id), Some(generation_id)) => (module_id, generation_id),
            _ => {
                return Err(RequestError::MissingParameter);
            },
        };
        match validate(module_id, generation_id, body) {
            Ok(spec) => Ok(prepare_issuance(spec, self.edge_ca.clone())),
            Err(reason) => Err(RequestError::Validation(reason)),
        }
    }
}

} // verus!
