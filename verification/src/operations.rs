//! The upstream actions. Each is one step function: it checks its
//! arguments, lets the exchange decide, builds the request where one is to
//! be sent, and reads the envelope where one is delivered.

use crate::client::{spec_result, SynoDS, SynoDSView, SynoError, SynoErrorView};
use crate::entities::{
    SynologyResponse, TaskCompleted, TaskCreated, TaskInfo, TaskOperation, TaskStatus, Tasks,
};
use crate::exchange::{
    spec_advance, Action, ActionView, Advance, Call, Event, Outcome, Reply, Stage, Step, StepView,
};
use crate::request::{
    clear_fields, complete_fields, create_fields, delete_fields, get_fields, list_fields,
    spec_clear_fields, spec_complete_fields, spec_create_fields, spec_delete_fields,
    spec_get_fields, spec_list_fields, spec_task_action_fields, spec_torrent_part,
    spec_upload_fields, task_action_fields, torrent_part, upload_fields, RequestView,
};
use crate::text::{labelled, spec_starts_with, spec_views, starts_with};
use vstd::prelude::*;

verus! {

/// The error of an envelope that reports failure: the upstream code with
/// the action's message where the envelope has an error object, else the
/// action's fallback.
pub open spec fn spec_failure<D>(
    response: SynologyResponse<D>,
    message: Seq<char>,
    fallback: SynoErrorView,
) -> SynoErrorView {
    match response.error {
        Some(error) => SynoErrorView::Api { code: error.code, message },
        None => fallback,
    }
}

/// What an envelope means for an action that returns data: the data of a
/// successful envelope; an error where success comes without data; the
/// failure otherwise.
pub open spec fn spec_expect_data<D>(
    response: SynologyResponse<D>,
    message: Seq<char>,
    fallback: SynoErrorView,
) -> Result<D, SynoErrorView> {
    if response.success {
        match response.data {
            Some(data) => Ok(data),
            None => Err(SynoErrorView::InvalidResponse("No data received"@)),
        }
    } else {
        Err(spec_failure(response, message, fallback))
    }
}

/// What an envelope means for an action that returns nothing: success, or
/// the failure.
pub open spec fn spec_expect_success<D>(
    response: SynologyResponse<D>,
    message: Seq<char>,
    fallback: SynoErrorView,
) -> Result<(), SynoErrorView> {
    if response.success {
        Ok(())
    } else {
        Err(spec_failure(response, message, fallback))
    }
}

/// The error of an envelope that reports failure.
pub fn failure<D>(response: &SynologyResponse<D>, message: &str, fallback: SynoError) -> (error:
    SynoError)
    ensures
        error@ == spec_failure(*response, message@, fallback@),
{
    match &response.error {
        Some(error) => SynoError::Api { code: error.code, message: String::from_str(message) },
        None => fallback,
    }
}

/// What an envelope means for an action that returns data.
pub fn expect_data<D>(response: SynologyResponse<D>, message: &str, fallback: SynoError) -> (r:
    Result<D, SynoError>)
    ensures
        spec_result(r) == spec_expect_data(response, message@, fallback@),
{
    if response.success {
        match response.data {
            Some(data) => Ok(data),
            None => Err(SynoError::InvalidResponse(String::from_str("No data received"))),
        }
    } else {
        Err(failure(&response, message, fallback))
    }
}

/// What an envelope means for an action that returns nothing.
pub fn expect_success<D>(response: SynologyResponse<D>, message: &str, fallback: SynoError) -> (r:
    Result<(), SynoError>)
    ensures
        spec_result(r) == spec_expect_success(response, message@, fallback@),
{
    if response.success {
        Ok(())
    } else {
        Err(failure(&response, message, fallback))
    }
}

/// The outcome of a step whose arguments were refused: the call is over,
/// nothing is sent, the client is as it was.
pub open spec fn spec_refused<T>(client: SynoDSView, error: SynoErrorView) -> Outcome<T> {
    Outcome { client, stage: Stage::Done, action: ActionView::Done(Err(error)) }
}

/// The outcome of a step whose arguments were accepted: what the exchange
/// decided, with the action's request where one is to be sent and the
/// action's reading of the envelope where one is delivered.
pub open spec fn spec_outcome<D, T>(
    advance: Advance<D>,
    request: RequestView,
    reading: spec_fn(SynologyResponse<D>) -> Result<T, SynoErrorView>,
) -> Outcome<T> {
    Outcome {
        client: advance.client,
        stage: advance.stage,
        action: match advance.step {
            StepView::Transmit => ActionView::Send(request),
            StepView::Login(login) => ActionView::Login(login),
            StepView::Deliver(response) => ActionView::Done(reading(response)),
            StepView::Fail(error) => ActionView::Done(Err(error)),
        },
    }
}

/// The complaint about an empty task identifier.
pub open spec fn spec_empty_id() -> SynoErrorView {
    SynoErrorView::InvalidInput("Task ID cannot be empty"@)
}

/// The complaint about a call that needs a session where none is held.
pub open spec fn spec_no_session() -> SynoErrorView {
    SynoErrorView::Auth {
        code: None,
        message: "No session ID available. Make sure to call authorize() first"@,
    }
}

/// Whether a link names a scheme that a task can be created from.
pub open spec fn spec_has_task_scheme(uri: Seq<char>) -> bool {
    spec_starts_with(uri, "http://"@) || spec_starts_with(uri, "https://"@) || spec_starts_with(
        uri,
        "magnet:"@,
    )
}

/// The complaint of `get_task` about its identifiers, if any: about an
/// empty list first, then about an empty identifier.
pub open spec fn spec_get_task_refusal(ids: Seq<Seq<char>>) -> Option<SynoErrorView> {
    if ids.len() == 0 {
        Some(SynoErrorView::InvalidInput("Task IDs cannot be empty"@))
    } else if exists|i: int| 0 <= i < ids.len() && (#[trigger] ids[i]).len() == 0 {
        Some(spec_empty_id())
    } else {
        None
    }
}

/// The complaint of `create_task` about its arguments and the session, if
/// any, in the order link, destination, scheme, session.
pub open spec fn spec_create_task_refusal(
    client: SynoDSView,
    uri: Seq<char>,
    destination: Seq<char>,
) -> Option<SynoErrorView> {
    if uri.len() == 0 {
        Some(SynoErrorView::InvalidInput("URI cannot be empty"@))
    } else if destination.len() == 0 {
        Some(SynoErrorView::InvalidInput("Destination path cannot be empty"@))
    } else if !spec_has_task_scheme(uri) {
        Some(
            SynoErrorView::InvalidInput(
                "URI must start with http://, https://, or magnet:, got: "@ + uri,
            ),
        )
    } else if !client.authorized() {
        Some(spec_no_session())
    } else {
        None
    }
}

/// The complaint of `create_task_from_file` about its arguments and the
/// session, if any, in the order content, file name, destination, session.
pub open spec fn spec_create_task_from_file_refusal(
    client: SynoDSView,
    file_data: Seq<u8>,
    file_name: Seq<char>,
    destination: Seq<char>,
) -> Option<SynoErrorView> {
    if file_data.len() == 0 {
        Some(SynoErrorView::InvalidInput("File data cannot be empty"@))
    } else if file_name.len() == 0 {
        Some(SynoErrorView::InvalidInput("File name cannot be empty"@))
    } else if destination.len() == 0 {
        Some(SynoErrorView::InvalidInput("Destination path cannot be empty"@))
    } else if !client.authorized() {
        Some(spec_no_session())
    } else {
        None
    }
}

/// One step of `get_tasks`.
pub open spec fn spec_get_tasks(client: SynoDSView, stage: Stage, event: Event<Tasks>) -> Outcome<
    Tasks,
> {
    let advance = spec_advance(client, stage, event);
    spec_outcome(
        advance,
        advance.client.spec_form_request(spec_list_fields()),
        |response: SynologyResponse<Tasks>|
            spec_expect_data(
                response,
                "Failed to get tasks"@,
                SynoErrorView::InvalidResponse("Failed to get tasks"@),
            ),
    )
}

/// One step of `get_task`.
pub open spec fn spec_get_task(
    client: SynoDSView,
    ids: Seq<Seq<char>>,
    stage: Stage,
    event: Event<TaskInfo>,
) -> Outcome<TaskInfo> {
    match spec_get_task_refusal(ids) {
        Some(error) => spec_refused(client, error),
        None => {
            let advance = spec_advance(client, stage, event);
            spec_outcome(
                advance,
                advance.client.spec_form_request(spec_get_fields(ids)),
                |response: SynologyResponse<TaskInfo>|
                    spec_expect_data(
                        response,
                        "Failed to get task"@,
                        SynoErrorView::InvalidResponse("Failed to get task, unknown error"@),
                    ),
            )
        },
    }
}

/// One step of `create_task`.
pub open spec fn spec_create_task(
    client: SynoDSView,
    uri: Seq<char>,
    destination: Seq<char>,
    stage: Stage,
    event: Event<TaskCreated>,
) -> Outcome<()> {
    match spec_create_task_refusal(client, uri, destination) {
        Some(error) => spec_refused(client, error),
        None => {
            let advance = spec_advance(client, stage, event);
            spec_outcome(
                advance,
                advance.client.spec_form_request(spec_create_fields(uri, destination)),
                |response: SynologyResponse<TaskCreated>|
                    spec_expect_success(
                        response,
                        "Failed to create task"@,
                        SynoErrorView::InvalidResponse("Failed to create task"@),
                    ),
            )
        },
    }
}

/// One step of `create_task_from_file`.
pub open spec fn spec_create_task_from_file(
    client: SynoDSView,
    file_data: Seq<u8>,
    file_name: Seq<char>,
    destination: Seq<char>,
    stage: Stage,
    event: Event<TaskCreated>,
) -> Outcome<()> {
    match spec_create_task_from_file_refusal(client, file_data, file_name, destination) {
        Some(error) => spec_refused(client, error),
        None => {
            let advance = spec_advance(client, stage, event);
            spec_outcome(
                advance,
                advance.client.spec_upload_request(
                    spec_upload_fields(destination),
                    spec_torrent_part(file_name, file_data),
                ),
                |response: SynologyResponse<TaskCreated>|
                    spec_expect_success(
                        response,
                        "Failed to create task"@,
                        SynoErrorView::InvalidResponse("Failed to create task, unknown error"@),
                    ),
            )
        },
    }
}

/// One step of `pause`.
pub open spec fn spec_pause(client: SynoDSView, id: Seq<char>, stage: Stage, event: Event<()>) -> Outcome<
    (),
> {
    if id.len() == 0 {
        spec_refused(client, spec_empty_id())
    } else {
        let advance = spec_advance(client, stage, event);
        spec_outcome(
            advance,
            advance.client.spec_form_request(spec_task_action_fields("pause"@, id)),
            |response: SynologyResponse<()>|
                spec_expect_success(
                    response,
                    "Failed to pause task"@,
                    SynoErrorView::InvalidResponse("Failed to pause task, unknown error"@),
                ),
        )
    }
}

/// One step of `resume`.
pub open spec fn spec_resume(
    client: SynoDSView,
    id: Seq<char>,
    stage: Stage,
    event: Event<TaskOperation>,
) -> Outcome<TaskOperation> {
    if id.len() == 0 {
        spec_refused(client, spec_empty_id())
    } else {
        let advance = spec_advance(client, stage, event);
        spec_outcome(
            advance,
            advance.client.spec_form_request(spec_task_action_fields("resume"@, id)),
            |response: SynologyResponse<TaskOperation>|
                spec_expect_data(
                    response,
                    "Failed to resume download task id: "@ + id,
                    SynoErrorView::TaskModification("Failed to resume download task id: "@ + id),
                ),
        )
    }
}

/// One step of `complete`.
pub open spec fn spec_complete(
    client: SynoDSView,
    id: Seq<char>,
    stage: Stage,
    event: Event<TaskCompleted>,
) -> Outcome<TaskCompleted> {
    if id.len() == 0 {
        spec_refused(client, spec_empty_id())
    } else {
        let advance = spec_advance(client, stage, event);
        spec_outcome(
            advance,
            advance.client.spec_form_request(spec_complete_fields(id)),
            |response: SynologyResponse<TaskCompleted>|
                spec_expect_data(
                    response,
                    "Failed to complete download task id: "@ + id,
                    SynoErrorView::TaskModification(
                        "Failed to complete download task id: "@ + id,
                    ),
                ),
        )
    }
}

/// One step of `delete_task`.
pub open spec fn spec_delete_task(
    client: SynoDSView,
    id: Seq<char>,
    force_complete: bool,
    stage: Stage,
    event: Event<TaskOperation>,
) -> Outcome<TaskOperation> {
    if id.len() == 0 {
        spec_refused(client, spec_empty_id())
    } else {
        let advance = spec_advance(client, stage, event);
        spec_outcome(
            advance,
            advance.client.spec_form_request(spec_delete_fields(id, force_complete)),
            |response: SynologyResponse<TaskOperation>|
                spec_expect_data(
                    response,
                    "Failed to delete download task id: "@ + id,
                    SynoErrorView::TaskModification("Failed to delete download task id: "@ + id),
                ),
        )
    }
}

/// What `clear_completed` reads from a delivered envelope.
pub open spec fn spec_clear_completed_reading(response: SynologyResponse<()>) -> Result<
    (),
    SynoErrorView,
> {
    spec_expect_success(
        response,
        "Failed to clear completed tasks"@,
        SynoErrorView::TaskModification("Failed to clear completed tasks"@),
    )
}

/// One step of `clear_completed`.
pub open spec fn spec_clear_completed(client: SynoDSView, stage: Stage, event: Event<()>) -> Outcome<
    (),
> {
    let advance = spec_advance(client, stage, event);
    spec_outcome(
        advance,
        advance.client.spec_form_request(spec_clear_fields(TaskStatus::Finished.spec_code())),
        |response: SynologyResponse<()>| spec_clear_completed_reading(response),
    )
}

/// An envelope that reports success and holds data reads as that data,
/// whatever else it holds: wrapping data in a successful envelope and
/// reading the envelope gives the data back.
pub proof fn lemma_successful_envelope_reads_as_its_data<D>(
    response: SynologyResponse<D>,
    data: D,
    message: Seq<char>,
    fallback: SynoErrorView,
)
    requires
        response.success,
        response.data == Some(data),
    ensures
        spec_expect_data(response, message, fallback) == Ok::<D, SynoErrorView>(data),
{
}

/// An envelope that reports failure with an error object reads as an API
/// error with the upstream code, for every action; so an envelope that
/// reports an expired session, once delivered, reads as the API error with
/// the code for an expired session.
pub proof fn lemma_failed_envelope_reads_as_api_error<D>(
    response: SynologyResponse<D>,
    message: Seq<char>,
    fallback: SynoErrorView,
)
    requires
        !response.success,
        response.error is Some,
    ensures
        spec_expect_data(response, message, fallback) == Err::<D, SynoErrorView>(
            SynoErrorView::Api { code: response.error->0.code, message },
        ),
        spec_expect_success(response, message, fallback) == Err::<(), SynoErrorView>(
            SynoErrorView::Api { code: response.error->0.code, message },
        ),
{
}

/// A step of an action asks for exactly what the exchange decides: a
/// request where the exchange transmits, a login where it logs in, and the
/// end of the call otherwise. Client and stage are those of the exchange.
pub proof fn lemma_actions_follow_exchange<D, T>(
    advance: Advance<D>,
    request: RequestView,
    reading: spec_fn(SynologyResponse<D>) -> Result<T, SynoErrorView>,
)
    ensures
        spec_outcome(advance, request, reading).client == advance.client,
        spec_outcome(advance, request, reading).stage == advance.stage,
        spec_outcome(advance, request, reading).action is Send <==> advance.step is Transmit,
        spec_outcome(advance, request, reading).action is Login <==> advance.step is Login,
        spec_outcome(advance, request, reading).action is Done <==> advance.step is Deliver
            || advance.step is Fail,
{
}

/// Clearing the finished tasks ends, for every envelope without an error
/// object, in success or in a task-modification error; where the service
/// has nothing to clear and says so without a code, that is what the caller
/// sees.
pub proof fn lemma_clear_completed_outcomes(client: SynoDSView, stage: Stage, response: SynologyResponse<()>)
    requires
        stage == Stage::AwaitingReply || stage == Stage::AwaitingRetry,
        response.error is None,
    ensures
        spec_clear_completed(client, stage, Event::Reply(Reply::Envelope(response))).stage
            == Stage::Done,
        spec_clear_completed(client, stage, Event::Reply(Reply::Envelope(response))).client
            == client,
        response.success ==> spec_clear_completed(
            client,
            stage,
            Event::Reply(Reply::Envelope(response)),
        ).action == ActionView::Done(Ok::<(), SynoErrorView>(())),
        !response.success ==> spec_clear_completed(
            client,
            stage,
            Event::Reply(Reply::Envelope(response)),
        ).action == ActionView::Done(
            Err::<(), SynoErrorView>(
                SynoErrorView::TaskModification("Failed to clear completed tasks"@),
            ),
        ),
{
}

/// A link that begins with none of the accepted schemes is refused at
/// every step: the call is over with an invalid-input error, nothing is
/// sent, and the client is as it was.
pub proof fn lemma_create_task_refuses_other_schemes(
    client: SynoDSView,
    uri: Seq<char>,
    destination: Seq<char>,
    stage: Stage,
    event: Event<TaskCreated>,
)
    requires
        !spec_has_task_scheme(uri),
    ensures
        spec_create_task(client, uri, destination, stage, event).stage == Stage::Done,
        spec_create_task(client, uri, destination, stage, event).client == client,
        spec_create_task(client, uri, destination, stage, event).action is Done,
        spec_create_task(client, uri, destination, stage, event).action->Done_0 is Err,
        spec_create_task(client, uri, destination, stage, event).action->Done_0->Err_0
            is InvalidInput,
{
}

fn invalid_input(message: &str) -> (error: SynoError)
    ensures
        error@ == SynoErrorView::InvalidInput(message@),
{
    SynoError::InvalidInput(String::from_str(message))
}

fn invalid_response(message: &str) -> (error: SynoError)
    ensures
        error@ == SynoErrorView::InvalidResponse(message@),
{
    SynoError::InvalidResponse(String::from_str(message))
}

fn no_session() -> (error: SynoError)
    ensures
        error@ == spec_no_session(),
{
    SynoError::Auth {
        code: None,
        message: String::from_str("No session ID available. Make sure to call authorize() first"),
    }
}

fn refuse<T>(call: &mut Call, error: SynoError) -> (action: Action<T>)
    ensures
        final(call)@ == Stage::Done,
        action@ == ActionView::<T>::Done(Err(error@)),
{
    call.set_stage(Stage::Done);
    Action::Done(Err(error))
}

/// Whether a link names a scheme that a task can be created from.
pub fn has_task_scheme(uri: &str) -> (b: bool)
    ensures
        b == spec_has_task_scheme(uri@),
{
    starts_with(uri, "http://") || starts_with(uri, "https://") || starts_with(uri, "magnet:")
}

fn has_empty_id(ids: &Vec<String>) -> (b: bool)
    ensures
        b == exists|i: int|
            0 <= i < spec_views(ids@).len() && (#[trigger] spec_views(ids@)[i]).len() == 0,
{
    let mut i: usize = 0;
    while i < ids.len()
        invariant
            i <= ids.len(),
            forall|j: int| 0 <= j < i ==> (#[trigger] spec_views(ids@)[j]).len() != 0,
        decreases ids.len() - i,
    {
        if ids[i].as_str().is_empty() {
            assert(spec_views(ids@)[i as int].len() == 0);
            return true;
        }
        i += 1;
    }
    false
}

impl SynoDS {
    /// One step of listing all tasks, with transfer and detail data.
    /// The call delivers the task list of a successful envelope.
    pub fn get_tasks(&mut self, call: &mut Call, event: Event<Tasks>) -> (action: Action<Tasks>)
        ensures
            (Outcome { client: final(self)@, stage: final(call)@, action: action@ })
                == spec_get_tasks(old(self)@, old(call)@, event),
    {
        match self.advance(call, event) {
            Step::Transmit => Action::Send(self.form_request(list_fields())),
            Step::Login(login) => Action::Login(login),
            Step::Deliver(response) => Action::Done(
                expect_data(
                    response,
                    "Failed to get tasks",
                    invalid_response("Failed to get tasks"),
                ),
            ),
            Step::Fail(error) => Action::Done(Err(error)),
        }
    }

    /// One step of looking tasks up by their identifiers. An empty list
    /// and an empty identifier are refused before anything is sent.
    pub fn get_task(&mut self, ids: &Vec<String>, call: &mut Call, event: Event<TaskInfo>) -> (action:
        Action<TaskInfo>)
        ensures
            (Outcome { client: final(self)@, stage: final(call)@, action: action@ })
                == spec_get_task(old(self)@, spec_views(ids@), old(call)@, event),
    {
        if ids.len() == 0 {
            return refuse(call, invalid_input("Task IDs cannot be empty"));
        }
        if has_empty_id(ids) {
            return refuse(call, invalid_input("Task ID cannot be empty"));
        }
        match self.advance(call, event) {
            Step::Transmit => Action::Send(self.form_request(get_fields(ids))),
            Step::Login(login) => Action::Login(login),
            Step::Deliver(response) => Action::Done(
                expect_data(
                    response,
                    "Failed to get task",
                    invalid_response("Failed to get task, unknown error"),
                ),
            ),
            Step::Fail(error) => Action::Done(Err(error)),
        }
    }

    /// One step of creating a task from a link. Refused before anything is
    /// sent: an empty link, an empty destination, a link that begins with
    /// none of `http://`, `https://` and `magnet:`, and a client without a
    /// session.
    pub fn create_task(
        &mut self,
        uri: &str,
        destination: &str,
        call: &mut Call,
        event: Event<TaskCreated>,
    ) -> (action: Action<()>)
        ensures
            (Outcome { client: final(self)@, stage: final(call)@, action: action@ })
                == spec_create_task(old(self)@, uri@, destination@, old(call)@, event),
    {
        if uri.is_empty() {
            return refuse(call, invalid_input("URI cannot be empty"));
        }
        if destination.is_empty() {
            return refuse(call, invalid_input("Destination path cannot be empty"));
        }
        if !has_task_scheme(uri) {
            let message = labelled("URI must start with http://, https://, or magnet:, got: ", uri);
            return refuse(call, SynoError::InvalidInput(message));
        }
        if !self.is_authorized() {
            return refuse(call, no_session());
        }
        match self.advance(call, event) {
            Step::Transmit => Action::Send(self.form_request(create_fields(uri, destination))),
            Step::Login(login) => Action::Login(login),
            Step::Deliver(response) => Action::Done(
                expect_success(
                    response,
                    "Failed to create task",
                    invalid_response("Failed to create task"),
                ),
            ),
            Step::Fail(error) => Action::Done(Err(error)),
        }
    }

    /// One step of creating a task from the content of a torrent file.
    /// Refused before anything is sent: empty content, an empty file name,
    /// an empty destination, and a client without a session. The request
    /// is assembled anew each time it is sent.
    pub fn create_task_from_file(
        &mut self,
        file_data: &[u8],
        file_name: &str,
        destination: &str,
        call: &mut Call,
        event: Event<TaskCreated>,
    ) -> (action: Action<()>)
        ensures
            (Outcome { client: final(self)@, stage: final(call)@, action: action@ })
                == spec_create_task_from_file(
                old(self)@,
                file_data@,
                file_name@,
                destination@,
                old(call)@,
                event,
            ),
    {
        if file_data.len() == 0 {
            return refuse(call, invalid_input("File data cannot be empty"));
        }
        if file_name.is_empty() {
            return refuse(call, invalid_input("File name cannot be empty"));
        }
        if destination.is_empty() {
            return refuse(call, invalid_input("Destination path cannot be empty"));
        }
        if !self.is_authorized() {
            return refuse(call, no_session());
        }
        match self.advance(call, event) {
            Step::Transmit => Action::Send(
                self.upload_request(upload_fields(destination), torrent_part(file_name, file_data)),
            ),
            Step::Login(login) => Action::Login(login),
            Step::Deliver(response) => Action::Done(
                expect_success(
                    response,
                    "Failed to create task",
                    invalid_response("Failed to create task, unknown error"),
                ),
            ),
            Step::Fail(error) => Action::Done(Err(error)),
        }
    }

    /// One step of pausing a task. An empty identifier is refused before
    /// anything is sent.
    pub fn pause(&mut self, id: &str, call: &mut Call, event: Event<()>) -> (action: Action<()>)
        ensures
            (Outcome { client: final(self)@, stage: final(call)@, action: action@ }) == spec_pause(
                old(self)@,
                id@,
                old(call)@,
                event,
            ),
    {
        if id.is_empty() {
            return refuse(call, invalid_input("Task ID cannot be empty"));
        }
        match self.advance(call, event) {
            Step::Transmit => Action::Send(self.form_request(task_action_fields("pause", id))),
            Step::Login(login) => Action::Login(login),
            Step::Deliver(response) => Action::Done(
                expect_success(
                    response,
                    "Failed to pause task",
                    invalid_response("Failed to pause task, unknown error"),
                ),
            ),
            Step::Fail(error) => Action::Done(Err(error)),
        }
    }

    /// One step of resuming a task. An empty identifier is refused before
    /// anything is sent. The call delivers the list of tasks that the
    /// service failed on.
    pub fn resume(&mut self, id: &str, call: &mut Call, event: Event<TaskOperation>) -> (action:
        Action<TaskOperation>)
        ensures
            (Outcome { client: final(self)@, stage: final(call)@, action: action@ })
                == spec_resume(old(self)@, id@, old(call)@, event),
    {
        if id.is_empty() {
            return refuse(call, invalid_input("Task ID cannot be empty"));
        }
        match self.advance(call, event) {
            Step::Transmit => Action::Send(self.form_request(task_action_fields("resume", id))),
            Step::Login(login) => Action::Login(login),
            Step::Deliver(response) => {
                let message = labelled("Failed to resume download task id: ", id);
                let fallback = SynoError::TaskModification(message.clone());
                Action::Done(expect_data(response, message.as_str(), fallback))
            },
            Step::Fail(error) => Action::Done(Err(error)),
        }
    }

    /// One step of completing a task. An empty identifier is refused
    /// before anything is sent.
    pub fn complete(&mut self, id: &str, call: &mut Call, event: Event<TaskCompleted>) -> (action:
        Action<TaskCompleted>)
        ensures
            (Outcome { client: final(self)@, stage: final(call)@, action: action@ })
                == spec_complete(old(self)@, id@, old(call)@, event),
    {
        if id.is_empty() {
            return refuse(call, invalid_input("Task ID cannot be empty"));
        }
        match self.advance(call, event) {
            Step::Transmit => Action::Send(self.form_request(complete_fields(id))),
            Step::Login(login) => Action::Login(login),
            Step::Deliver(response) => {
                let message = labelled("Failed to complete download task id: ", id);
                let fallback = SynoError::TaskModification(message.clone());
                Action::Done(expect_data(response, message.as_str(), fallback))
            },
            Step::Fail(error) => Action::Done(Err(error)),
        }
    }

    /// One step of deleting a task; with `force_complete` the request says
    /// so. An empty identifier is refused before anything is sent. The
    /// call delivers the list of tasks that the service failed on.
    pub fn delete_task(
        &mut self,
        id: &str,
        force_complete: bool,
        call: &mut Call,
        event: Event<TaskOperation>,
    ) -> (action: Action<TaskOperation>)
        ensures
            (Outcome { client: final(self)@, stage: final(call)@, action: action@ })
                == spec_delete_task(old(self)@, id@, force_complete, old(call)@, event),
    {
        if id.is_empty() {
            return refuse(call, invalid_input("Task ID cannot be empty"));
        }
        match self.advance(call, event) {
            Step::Transmit => Action::Send(self.form_request(delete_fields(id, force_complete))),
            Step::Login(login) => Action::Login(login),
            Step::Deliver(response) => {
                let message = labelled("Failed to delete download task id: ", id);
                let fallback = SynoError::TaskModification(message.clone());
                Action::Done(expect_data(response, message.as_str(), fallback))
            },
            Step::Fail(error) => Action::Done(Err(error)),
        }
    }

    /// One step of deleting every finished task.
    pub fn clear_completed(&mut self, call: &mut Call, event: Event<()>) -> (action: Action<()>)
        ensures
            (Outcome { client: final(self)@, stage: final(call)@, action: action@ })
                == spec_clear_completed(old(self)@, old(call)@, event),
    {
        match self.advance(call, event) {
            Step::Transmit => Action::Send(
                self.form_request(clear_fields(TaskStatus::Finished.code())),
            ),
            Step::Login(login) => Action::Login(login),
            Step::Deliver(response) => Action::Done(
                expect_success(
                    response,
                    "Failed to clear completed tasks",
                    SynoError::TaskModification(String::from_str("Failed to clear completed tasks")),
                ),
            ),
            Step::Fail(error) => Action::Done(Err(error)),
        }
    }
}

} // verus!
