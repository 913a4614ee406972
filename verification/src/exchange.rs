//! One logical call as a sequence of steps. The caller sends what a step
//! asks for and hands the reply to the next step; the steps decide when to
//! log in again and when the call is over. A reply that reports an expired
//! session triggers one login and one repetition of the request, never more.

use crate::client::{SynoDS, SynoDSView, SynoError, SynoErrorView, SESSION_EXPIRED_CODE};
use crate::entities::{AuthData, SynologyResponse};
use crate::request::{Request, RequestView};
use crate::text::{push_decimal, spec_decimal};
use vstd::prelude::*;

verus! {

/// How far a call has come.
#[derive(Debug, Clone, Copy, PartialEq, Eq, Structural)]
pub enum Stage {
    /// Nothing was sent yet.
    Start,
    /// The request was sent once.
    AwaitingReply,
    /// The session had expired and a login was sent.
    AwaitingLogin,
    /// The request was sent again after the login.
    AwaitingRetry,
    /// The call is over.
    Done,
}

impl Stage {
    /// The position of a stage in the order in which a call passes them.
    pub open spec fn rank(self) -> nat {
        match self {
            Stage::Start => 0,
            Stage::AwaitingReply => 1,
            Stage::AwaitingLogin => 2,
            Stage::AwaitingRetry => 3,
            Stage::Done => 4,
        }
    }
}

/// The state of one call between its steps.
#[derive(Debug)]
pub struct Call {
    stage: Stage,
}

impl View for Call {
    type V = Stage;

    closed spec fn view(&self) -> Stage {
        self.stage
    }
}

impl Call {
    /// A call of which nothing was sent yet.
    pub fn new() -> (call: Call)
        ensures
            call@ == Stage::Start,
    {
        Call { stage: Stage::Start }
    }

    /// How far the call has come.
    pub fn stage(&self) -> (stage: Stage)
        ensures
            stage == self@,
    {
        self.stage
    }

    pub(crate) fn set_stage(&mut self, stage: Stage)
        ensures
            final(self)@ == stage,
    {
        self.stage = stage;
    }
}

/// What came back for one request.
#[derive(Debug)]
pub enum Reply<D> {
    /// A successful HTTP status and a body that decoded to an envelope.
    Envelope(SynologyResponse<D>),
    /// An unsuccessful HTTP status, with its reason phrase where it has one.
    Status { code: u16, reason: Option<String> },
    /// A successful HTTP status and a body that did not decode.
    Malformed(String),
    /// No reply: the request failed or timed out.
    Unreachable(String),
}

/// What a step is told.
#[derive(Debug)]
pub enum Event<D> {
    /// The call begins.
    Start,
    /// The reply to the request of the call.
    Reply(Reply<D>),
    /// The reply to a login.
    Login(Reply<AuthData>),
}

/// What a step asks of the caller.
#[derive(Debug)]
pub enum Action<T> {
    /// Send this request and answer with `Event::Reply`.
    Send(Request),
    /// Send this login and answer with `Event::Login`.
    Login(Request),
    /// The call is over, with this result.
    Done(Result<T, SynoError>),
}

/// An `Action` as plain values.
pub enum ActionView<T> {
    Send(RequestView),
    Login(RequestView),
    Done(Result<T, SynoErrorView>),
}

impl<T> View for Action<T> {
    type V = ActionView<T>;

    open spec fn view(&self) -> ActionView<T> {
        match *self {
            Action::Send(request) => ActionView::Send(request@),
            Action::Login(request) => ActionView::Login(request@),
            Action::Done(Ok(value)) => ActionView::Done(Ok(value)),
            Action::Done(Err(error)) => ActionView::Done(Err(error@)),
        }
    }
}

/// What the exchange decides in one step, before the action at hand gives
/// it its request and reads its result.
#[derive(Debug)]
pub enum Step<D> {
    /// Send the request of the call, with the session as it is now.
    Transmit,
    /// Send this login.
    Login(Request),
    /// This envelope is the answer to the call.
    Deliver(SynologyResponse<D>),
    /// The call failed.
    Fail(SynoError),
}

/// A `Step` as plain values.
pub enum StepView<D> {
    Transmit,
    Login(RequestView),
    Deliver(SynologyResponse<D>),
    Fail(SynoErrorView),
}

impl<D> View for Step<D> {
    type V = StepView<D>;

    open spec fn view(&self) -> StepView<D> {
        match *self {
            Step::Transmit => StepView::Transmit,
            Step::Login(request) => StepView::Login(request@),
            Step::Deliver(response) => StepView::Deliver(response),
            Step::Fail(error) => StepView::Fail(error@),
        }
    }
}

/// The client, the stage and the decision after one step of the exchange.
pub struct Advance<D> {
    pub client: SynoDSView,
    pub stage: Stage,
    pub step: StepView<D>,
}

/// The client, the stage and the action after one step of a call.
pub struct Outcome<T> {
    pub client: SynoDSView,
    pub stage: Stage,
    pub action: ActionView<T>,
}

/// Whether an envelope reports that the session has expired.
pub open spec fn spec_session_expired<D>(response: SynologyResponse<D>) -> bool {
    !response.success && response.error is Some && response.error->0.code == SESSION_EXPIRED_CODE
}

/// The text for an unsuccessful HTTP status.
pub open spec fn spec_status_message(code: u16, reason: Option<String>) -> Seq<char> {
    "HTTP request failed with status: "@ + spec_decimal(code as nat) + " ("@ + (match reason {
        Some(reason) => reason@,
        None => "Unknown"@,
    }) + ")"@
}

/// The error that a reply without an envelope stands for; none for an
/// envelope.
pub open spec fn spec_reply_error<D>(reply: Reply<D>) -> Option<SynoErrorView> {
    match reply {
        Reply::Envelope(_) => None,
        Reply::Status { code, reason } => Some(
            SynoErrorView::Api { code: code as i32, message: spec_status_message(code, reason) },
        ),
        Reply::Malformed(detail) => Some(SynoErrorView::InvalidResponse(detail@)),
        Reply::Unreachable(detail) => Some(SynoErrorView::Network(detail@)),
    }
}

/// The upstream error code of an envelope, where it has one.
pub open spec fn spec_error_code<D>(response: SynologyResponse<D>) -> Option<i32> {
    match response.error {
        Some(error) => Some(error.code),
        None => None,
    }
}

/// What a login reply means: the issued session identifier, or why there
/// is none. An envelope that reports failure is a rejected login; one that
/// reports success without data, or with an empty identifier, is malformed.
pub open spec fn spec_login(reply: Reply<AuthData>) -> Result<Seq<char>, SynoErrorView> {
    match reply {
        Reply::Envelope(response) => if !response.success {
            Err(
                SynoErrorView::Auth {
                    code: spec_error_code(response),
                    message: "Failed to authenticate"@,
                },
            )
        } else if response.data is None {
            Err(SynoErrorView::InvalidResponse("No data received"@))
        } else if response.data->0.sid@.len() == 0 {
            Err(SynoErrorView::InvalidResponse("No session ID received"@))
        } else {
            Ok(response.data->0.sid@)
        },
        _ => Err(spec_reply_error(reply)->0),
    }
}

/// The error for an event that does not belong to the stage of the call.
pub open spec fn spec_unexpected() -> SynoErrorView {
    SynoErrorView::InvalidInput("Unexpected event for the stage of the call"@)
}

/// One step of the exchange.
///
/// - At the start, the request is sent.
/// - The first reply ends the call, unless it is an envelope that reports
///   an expired session: then a login is sent.
/// - A login that issues a session identifier stores it, and the request
///   is sent again; any other login reply ends the call with its error and
///   leaves the session as it was.
/// - The reply to the repeated request ends the call, whatever it reports.
/// - An event that the stage does not wait for ends the call.
pub open spec fn spec_advance<D>(client: SynoDSView, stage: Stage, event: Event<D>) -> Advance<D> {
    match event {
        Event::Start => if stage == Stage::Start {
            Advance { client, stage: Stage::AwaitingReply, step: StepView::Transmit }
        } else {
            Advance { client, stage: Stage::Done, step: StepView::Fail(spec_unexpected()) }
        },
        Event::Reply(reply) => if stage == Stage::AwaitingReply || stage == Stage::AwaitingRetry {
            match reply {
                Reply::Envelope(response) => if stage == Stage::AwaitingReply
                    && spec_session_expired(response) {
                    Advance {
                        client,
                        stage: Stage::AwaitingLogin,
                        step: StepView::Login(client.spec_login_request()),
                    }
                } else {
                    Advance { client, stage: Stage::Done, step: StepView::Deliver(response) }
                },
                _ => Advance {
                    client,
                    stage: Stage::Done,
                    step: StepView::Fail(spec_reply_error(reply)->0),
                },
            }
        } else {
            Advance { client, stage: Stage::Done, step: StepView::Fail(spec_unexpected()) }
        },
        Event::Login(reply) => if stage == Stage::AwaitingLogin {
            match spec_login(reply) {
                Ok(sid) => Advance {
                    client: client.with_sid(sid),
                    stage: Stage::AwaitingRetry,
                    step: StepView::Transmit,
                },
                Err(error) => Advance { client, stage: Stage::Done, step: StepView::Fail(error) },
            }
        } else {
            Advance { client, stage: Stage::Done, step: StepView::Fail(spec_unexpected()) }
        },
    }
}

/// One step of a login on its own: at the start the login is sent; its
/// reply ends the call, and stores the session identifier if one was
/// issued.
pub open spec fn spec_authorize(client: SynoDSView, stage: Stage, event: Event<AuthData>) -> Outcome<
    (),
> {
    match event {
        Event::Start => if stage == Stage::Start {
            Outcome {
                client,
                stage: Stage::AwaitingLogin,
                action: ActionView::Login(client.spec_login_request()),
            }
        } else {
            Outcome { client, stage: Stage::Done, action: ActionView::Done(Err(spec_unexpected())) }
        },
        Event::Login(reply) => if stage == Stage::AwaitingLogin {
            match spec_login(reply) {
                Ok(sid) => Outcome {
                    client: client.with_sid(sid),
                    stage: Stage::Done,
                    action: ActionView::Done(Ok(())),
                },
                Err(error) => Outcome {
                    client,
                    stage: Stage::Done,
                    action: ActionView::Done(Err(error)),
                },
            }
        } else {
            Outcome { client, stage: Stage::Done, action: ActionView::Done(Err(spec_unexpected())) }
        },
        Event::Reply(_) => Outcome {
            client,
            stage: Stage::Done,
            action: ActionView::Done(Err(spec_unexpected())),
        },
    }
}

/// The number of logins that the exchange asks for when it is given these
/// events in turn.
pub open spec fn spec_logins<D>(client: SynoDSView, stage: Stage, events: Seq<Event<D>>) -> nat
    decreases events.len(),
{
    if events.len() == 0 {
        0
    } else {
        let advance = spec_advance(client, stage, events[0]);
        let rest = spec_logins(advance.client, advance.stage, events.drop_first());
        if advance.step is Login {
            rest + 1
        } else {
            rest
        }
    }
}

/// The number of times that the exchange asks for the request of the call
/// to be sent when it is given these events in turn.
pub open spec fn spec_transmissions<D>(
    client: SynoDSView,
    stage: Stage,
    events: Seq<Event<D>>,
) -> nat
    decreases events.len(),
{
    if events.len() == 0 {
        0
    } else {
        let advance = spec_advance(client, stage, events[0]);
        let rest = spec_transmissions(advance.client, advance.stage, events.drop_first());
        if advance.step is Transmit {
            rest + 1
        } else {
            rest
        }
    }
}

/// Every step moves a call forward: to a later stage, or it is over and
/// stays over. A call therefore takes at most four steps before it is over.
pub proof fn lemma_stage_advances<D>(client: SynoDSView, stage: Stage, event: Event<D>)
    ensures
        stage != Stage::Done ==> spec_advance(client, stage, event).stage.rank() > stage.rank(),
        stage == Stage::Done ==> spec_advance(client, stage, event).stage == Stage::Done,
{
}

/// A step changes nothing of the client but the session identifier, and
/// that only where a login issued one. So a valid configuration stays
/// valid, and a session that is held is replaced but never dropped.
pub proof fn lemma_only_login_changes_session<D>(
    client: SynoDSView,
    stage: Stage,
    event: Event<D>,
)
    ensures
        spec_advance(client, stage, event).client == client.with_sid(
            spec_advance(client, stage, event).client.sid,
        ),
        client.wf() ==> spec_advance(client, stage, event).client.wf(),
        client.authorized() ==> spec_advance(client, stage, event).client.authorized(),
        spec_advance(client, stage, event).client != client ==> {
            &&& stage == Stage::AwaitingLogin
            &&& event is Login
            &&& spec_login(event->Login_0) == Ok::<Seq<char>, SynoErrorView>(
                spec_advance(client, stage, event).client.sid,
            )
        },
{
}

/// A login is asked for exactly where the first reply to the request is an
/// envelope that reports an expired session; the login carries the
/// credentials of the client.
pub proof fn lemma_login_only_on_expiry<D>(client: SynoDSView, stage: Stage, event: Event<D>)
    ensures
        spec_advance(client, stage, event).step is Login <==> {
            &&& stage == Stage::AwaitingReply
            &&& event matches Event::Reply(Reply::Envelope(response))
            &&& spec_session_expired(response)
        },
        spec_advance(client, stage, event).step is Login ==> spec_advance(
            client,
            stage,
            event,
        ).step == StepView::<D>::Login(client.spec_login_request()),
{
}

/// The reply to the repeated request ends the call: an envelope is
/// delivered as it is, also where it reports an expired session again.
pub proof fn lemma_retry_reply_is_final<D>(client: SynoDSView, response: SynologyResponse<D>)
    ensures
        spec_advance(client, Stage::AwaitingRetry, Event::Reply(Reply::Envelope(response)))
            == (Advance { client, stage: Stage::Done, step: StepView::Deliver(response) }),
{
}

/// A login that issues no session identifier ends the call with the
/// login's error and leaves the client as it was; the error of a login
/// that the service rejected is an authentication error with the upstream
/// code.
pub proof fn lemma_failed_login_ends_call<D>(client: SynoDSView, reply: Reply<AuthData>)
    requires
        spec_login(reply) is Err,
    ensures
        spec_advance::<D>(client, Stage::AwaitingLogin, Event::Login(reply)) == (Advance::<D> {
            client,
            stage: Stage::Done,
            step: StepView::Fail(spec_login(reply)->Err_0),
        }),
        reply is Envelope && !reply->Envelope_0.success ==> spec_login(reply) == Err::<
            Seq<char>,
            SynoErrorView,
        >(
            SynoErrorView::Auth {
                code: spec_error_code(reply->Envelope_0),
                message: "Failed to authenticate"@,
            },
        ),
{
}

/// A login that issues a session identifier stores it, and the request is
/// sent again.
pub proof fn lemma_login_stores_session<D>(client: SynoDSView, reply: Reply<AuthData>)
    requires
        spec_login(reply) is Ok,
    ensures
        spec_advance::<D>(client, Stage::AwaitingLogin, Event::Login(reply)) == (Advance::<D> {
            client: client.with_sid(spec_login(reply)->Ok_0),
            stage: Stage::AwaitingRetry,
            step: StepView::Transmit,
        }),
        spec_login(reply)->Ok_0.len() > 0,
{
}

/// A login on its own ends in success exactly where the reply issued a
/// session identifier, and then that identifier, which is not empty, is
/// the one held; in every other case the client is as it was.
pub proof fn lemma_authorize_outcomes(client: SynoDSView, reply: Reply<AuthData>)
    ensures
        spec_login(reply) is Ok ==> spec_authorize(
            client,
            Stage::AwaitingLogin,
            Event::Login(reply),
        ) == (Outcome::<()> {
            client: client.with_sid(spec_login(reply)->Ok_0),
            stage: Stage::Done,
            action: ActionView::Done(Ok(())),
        }) && client.with_sid(spec_login(reply)->Ok_0).authorized(),
        spec_login(reply) is Err ==> spec_authorize(
            client,
            Stage::AwaitingLogin,
            Event::Login(reply),
        ) == (Outcome::<()> {
            client,
            stage: Stage::Done,
            action: ActionView::Done(Err(spec_login(reply)->Err_0)),
        }),
{
}

/// Whatever events a call is given, from whatever stage, the exchange asks
/// for at most one login and sends the request at most twice: once at the
/// start and once after a login.
pub proof fn lemma_one_login_one_retry<D>(client: SynoDSView, stage: Stage, events: Seq<Event<D>>)
    ensures
        spec_logins(client, stage, events) <= 1,
        stage.rank() >= Stage::AwaitingLogin.rank() ==> spec_logins(client, stage, events) == 0,
        spec_transmissions(client, stage, events) <= 2,
        stage != Stage::Start ==> spec_transmissions(client, stage, events) <= 1,
        stage.rank() >= Stage::AwaitingRetry.rank() ==> spec_transmissions(client, stage, events)
            == 0,
    decreases events.len(),
{
    if events.len() > 0 {
        let advance = spec_advance(client, stage, events[0]);
        lemma_one_login_one_retry(advance.client, advance.stage, events.drop_first());
    }
}

/// Whether an envelope reports that the session has expired.
pub fn session_expired<D>(response: &SynologyResponse<D>) -> (expired: bool)
    ensures
        expired == spec_session_expired(*response),
{
    if response.success {
        false
    } else {
        match &response.error {
            Some(error) => error.code == SESSION_EXPIRED_CODE,
            None => false,
        }
    }
}

/// The upstream error code of an envelope, where it has one.
pub fn error_code<D>(response: &SynologyResponse<D>) -> (code: Option<i32>)
    ensures
        code == spec_error_code(*response),
{
    match &response.error {
        Some(error) => Some(error.code),
        None => None,
    }
}

fn unexpected() -> (error: SynoError)
    ensures
        error@ == spec_unexpected(),
{
    SynoError::InvalidInput(String::from_str("Unexpected event for the stage of the call"))
}

/// Opens a reply: its envelope, or the error that a reply without an
/// envelope stands for.
pub fn envelope_of<D>(reply: Reply<D>) -> (r: Result<SynologyResponse<D>, SynoError>)
    ensures
        match r {
            Ok(response) => reply == Reply::Envelope(response),
            Err(error) => spec_reply_error(reply) == Some(error@),
        },
{
    match reply {
        Reply::Envelope(response) => Ok(response),
        Reply::Status { code, reason } => {
            let mut message = String::from_str("HTTP request failed with status: ");
            push_decimal(&mut message, code as u64);
            message.append(" (");
            match &reason {
                Some(reason) => message.append(reason.as_str()),
                None => message.append("Unknown"),
            }
            message.append(")");
            Err(SynoError::Api { code: code as i32, message })
        },
        Reply::Malformed(detail) => Err(SynoError::InvalidResponse(detail)),
        Reply::Unreachable(detail) => Err(SynoError::Network(detail)),
    }
}

/// What a login reply means: the issued session identifier, or why there
/// is none.
pub fn login_outcome(reply: Reply<AuthData>) -> (r: Result<String, SynoError>)
    ensures
        match r {
            Ok(sid) => spec_login(reply) == Ok::<Seq<char>, SynoErrorView>(sid@),
            Err(error) => spec_login(reply) == Err::<Seq<char>, SynoErrorView>(error@),
        },
{
    let response = match envelope_of(reply) {
        Ok(response) => response,
        Err(error) => {
            return Err(error);
        },
    };
    if !response.success {
        return Err(
            SynoError::Auth {
                code: error_code(&response),
                message: String::from_str("Failed to authenticate"),
            },
        );
    }
    match response.data {
        None => Err(SynoError::InvalidResponse(String::from_str("No data received"))),
        Some(data) => {
            if data.sid.as_str().is_empty() {
                Err(SynoError::InvalidResponse(String::from_str("No session ID received")))
            } else {
                Ok(data.sid)
            }
        },
    }
}

impl SynoDS {
    /// One step of the exchange: takes the event, moves the call to its
    /// next stage, stores a newly issued session identifier, and says what
    /// to do next.
    pub fn advance<D>(&mut self, call: &mut Call, event: Event<D>) -> (step: Step<D>)
        ensures
            (Advance { client: final(self)@, stage: final(call)@, step: step@ }) == spec_advance(
                old(self)@,
                old(call)@,
                event,
            ),
    {
        let stage = call.stage();
        call.set_stage(Stage::Done);
        match event {
            Event::Start => match stage {
                Stage::Start => {
                    call.set_stage(Stage::AwaitingReply);
                    Step::Transmit
                },
                _ => Step::Fail(unexpected()),
            },
            Event::Reply(reply) => match stage {
                Stage::AwaitingReply | Stage::AwaitingRetry => match envelope_of(reply) {
                    Ok(response) => {
                        let first = match stage {
                            Stage::AwaitingReply => true,
                            _ => false,
                        };
                        if first && session_expired(&response) {
                            call.set_stage(Stage::AwaitingLogin);
                            Step::Login(self.login_request())
                        } else {
                            Step::Deliver(response)
                        }
                    },
                    Err(error) => Step::Fail(error),
                },
                _ => Step::Fail(unexpected()),
            },
            Event::Login(reply) => match stage {
                Stage::AwaitingLogin => match login_outcome(reply) {
                    Ok(sid) => {
                        self.set_session(sid);
                        call.set_stage(Stage::AwaitingRetry);
                        Step::Transmit
                    },
                    Err(error) => Step::Fail(error),
                },
                _ => Step::Fail(unexpected()),
            },
        }
    }

    /// One step of a login on its own. At the start it asks for the login
    /// to be sent; given the reply it ends the call. A session identifier
    /// that was issued replaces the one held; any other reply leaves the
    /// session as it was.
    pub fn authorize(&mut self, call: &mut Call, event: Event<AuthData>) -> (action: Action<()>)
        ensures
            (Outcome { client: final(self)@, stage: final(call)@, action: action@ })
                == spec_authorize(old(self)@, old(call)@, event),
    {
        let stage = call.stage();
        call.set_stage(Stage::Done);
        match event {
            Event::Start => match stage {
                Stage::Start => {
                    call.set_stage(Stage::AwaitingLogin);
                    Action::Login(self.login_request())
                },
                _ => Action::Done(Err(unexpected())),
            },
            Event::Login(reply) => match stage {
                Stage::AwaitingLogin => match login_outcome(reply) {
                    Ok(sid) => {
                        self.set_session(sid);
                        Action::Done(Ok(()))
                    },
                    Err(error) => Action::Done(Err(error)),
                },
                _ => Action::Done(Err(unexpected())),
            },
            Event::Reply(_) => Action::Done(Err(unexpected())),
        }
    }
}

} // verus!
