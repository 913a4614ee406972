use syno_download_station::client::{SynoDS, SynoError};
use syno_download_station::entities::{
    AuthData, SynoError as UpstreamError, SynologyResponse, Task, TaskStatus, Tasks,
};
use syno_download_station::exchange::{Action, Call, Event, Reply, Stage, Step};
use syno_download_station::operations::{expect_data, expect_success};
use syno_download_station::request::Request;

fn client_with_session(sid: &str) -> SynoDS {
    let mut client = SynoDS::new(
        "http://nas.local:5000/".to_string(),
        "test".to_string(),
        "test123".to_string(),
        3000,
    )
    .unwrap();
    let mut call = Call::new();
    client.authorize(&mut call, Event::Start);
    match client.authorize(&mut call, Event::Login(issued(sid))) {
        Action::Done(Ok(())) => {}
        other => panic!("login failed: {:?}", other),
    }
    client
}

fn auth_data(sid: &str) -> AuthData {
    AuthData {
        account: "test".to_string(),
        device_id: String::new(),
        ik_message: String::new(),
        is_portal_port: false,
        sid: sid.to_string(),
        synotoken: String::new(),
    }
}

fn issued(sid: &str) -> Reply<AuthData> {
    Reply::Envelope(SynologyResponse { success: true, data: Some(auth_data(sid)), error: None })
}

fn rejected<D>(code: i32) -> Reply<D> {
    Reply::Envelope(SynologyResponse {
        success: false,
        data: None,
        error: Some(UpstreamError { code, errors: None }),
    })
}

fn listed(ids: &[&str]) -> Reply<Tasks> {
    let task = ids
        .iter()
        .map(|id| Task {
            id: id.to_string(),
            username: "admin".to_string(),
            task_type: "bt".to_string(),
            title: format!("title of {id}"),
            size: 1,
            status: TaskStatus::Finished,
            status_extra: None,
            additional: None,
        })
        .collect::<Vec<_>>();
    Reply::Envelope(SynologyResponse {
        success: true,
        data: Some(Tasks { offset: 0, total: ids.len() as i32, task }),
        error: None,
    })
}

fn is_login(request: &Request) -> bool {
    request.has_field("api", "SYNO.API.Auth")
        && request.has_field("method", "login")
        && request.has_field("account", "test")
        && request.has_field("passwd", "test123")
        && request.has_field("format", "sid")
        && request.fields.iter().all(|(key, _)| key != "_sid")
}

/// Runs `get_tasks` against scripted replies and counts what was sent.
struct Run {
    requests: Vec<Request>,
    logins: Vec<Request>,
    result: Result<Tasks, SynoError>,
}

fn run_get_tasks(
    client: &mut SynoDS,
    mut replies: Vec<Reply<Tasks>>,
    mut login_replies: Vec<Reply<AuthData>>,
) -> Run {
    replies.reverse();
    login_replies.reverse();
    let mut requests = Vec::new();
    let mut logins = Vec::new();
    let mut call = Call::new();
    let mut event = Event::Start;
    for _ in 0..10 {
        match client.get_tasks(&mut call, event) {
            Action::Send(request) => {
                requests.push(request);
                event = Event::Reply(replies.pop().expect("one request too many"));
            }
            Action::Login(request) => {
                logins.push(request);
                event = Event::Login(login_replies.pop().expect("one login too many"));
            }
            Action::Done(result) => {
                assert_eq!(Stage::Done, call.stage());
                assert!(replies.is_empty());
                assert!(login_replies.is_empty());
                return Run { requests, logins, result };
            }
        }
    }
    panic!("the call did not end");
}

#[test]
fn expired_session_logs_in_once_and_retries_once() {
    let mut client = client_with_session("old");
    let run =
        run_get_tasks(&mut client, vec![rejected(119), listed(&["a", "b"])], vec![issued("new")]);

    assert_eq!(1, run.logins.len());
    assert!(is_login(&run.logins[0]));
    assert_eq!(2, run.requests.len());
    assert!(run.requests[0].has_field("_sid", "old"));
    assert!(run.requests[1].has_field("_sid", "new"));
    assert!(!run.requests[1].has_field("_sid", "old"));
    assert_eq!(
        run.requests[0].fields[..4].to_vec(),
        run.requests[1].fields[..4].to_vec()
    );
    let tasks = run.result.unwrap();
    assert_eq!(2, tasks.total);
    assert_eq!("a", tasks.task[0].id);
    assert_eq!("b", tasks.task[1].id);

    // The new session stays for the next call.
    let next = run_get_tasks(&mut client, vec![listed(&[])], vec![]);
    assert!(next.requests[0].has_field("_sid", "new"));
}

#[test]
fn second_expiry_is_returned_as_it_is() {
    let mut client = client_with_session("old");
    let run = run_get_tasks(&mut client, vec![rejected(119), rejected(119)], vec![issued("new")]);

    assert_eq!(1, run.logins.len());
    assert_eq!(2, run.requests.len());
    match run.result {
        Err(SynoError::Api { code, message }) => {
            assert_eq!(119, code);
            assert_eq!("Failed to get tasks", message);
        }
        other => panic!("expected the API error, got {:?}", other),
    }
}

#[test]
fn failed_login_ends_the_call_with_the_login_error() {
    let mut client = client_with_session("old");
    let run = run_get_tasks(&mut client, vec![rejected(119)], vec![rejected(400)]);

    assert_eq!(1, run.logins.len());
    assert_eq!(1, run.requests.len());
    match run.result {
        Err(SynoError::Auth { code, message }) => {
            assert_eq!(Some(400), code);
            assert_eq!("Failed to authenticate", message);
        }
        other => panic!("expected the login error, got {:?}", other),
    }
    // The session that was held is still held.
    let next = run_get_tasks(&mut client, vec![listed(&[])], vec![]);
    assert!(next.requests[0].has_field("_sid", "old"));
}

#[test]
fn other_error_codes_trigger_no_login() {
    let mut client = client_with_session("old");
    for code in [0, 100, 118, 120, -119, 403] {
        let run = run_get_tasks(&mut client, vec![rejected(code)], vec![]);
        assert_eq!(0, run.logins.len());
        assert_eq!(1, run.requests.len());
        assert!(matches!(run.result, Err(SynoError::Api { code: c, .. }) if c == code));
    }
}

#[test]
fn expiry_code_in_a_successful_envelope_triggers_no_login() {
    let mut client = client_with_session("old");
    let reply = Reply::Envelope(SynologyResponse {
        success: true,
        data: Some(Tasks { offset: 0, task: vec![], total: 0 }),
        error: Some(UpstreamError { code: 119, errors: None }),
    });
    let run = run_get_tasks(&mut client, vec![reply], vec![]);
    assert_eq!(0, run.logins.len());
    assert!(run.result.is_ok());
}

#[test]
fn upload_is_rebuilt_with_the_new_session() {
    let mut client = client_with_session("old");
    let data = [1u8, 2, 3];
    let mut call = Call::new();
    let first = match client.create_task_from_file(&data, "a.torrent", "/d", &mut call, Event::Start)
    {
        Action::Send(request) => request,
        other => panic!("expected a request, got {:?}", other),
    };
    assert_eq!("http://nas.local:5000/webapi/entry.cgi?_sid=old", first.url);
    let login = match client.create_task_from_file(
        &data,
        "a.torrent",
        "/d",
        &mut call,
        Event::Reply(rejected(119)),
    ) {
        Action::Login(request) => request,
        other => panic!("expected a login, got {:?}", other),
    };
    assert!(is_login(&login));
    assert_eq!("http://nas.local:5000/webapi/entry.cgi", login.url);
    let second = match client.create_task_from_file(
        &data,
        "a.torrent",
        "/d",
        &mut call,
        Event::Login(issued("new")),
    ) {
        Action::Send(request) => request,
        other => panic!("expected a request, got {:?}", other),
    };
    assert_eq!("http://nas.local:5000/webapi/entry.cgi?_sid=new", second.url);
    assert_eq!(first.fields, second.fields);
    assert_eq!(data.to_vec(), second.file.as_ref().unwrap().data);
    assert_eq!(Stage::AwaitingRetry, call.stage());
}

#[test]
fn login_replies() {
    let outcome = |reply: Reply<AuthData>| {
        let mut client = client_with_session("old");
        let mut call = Call::new();
        client.authorize(&mut call, Event::Start);
        let result = match client.authorize(&mut call, Event::Login(reply)) {
            Action::Done(result) => result,
            other => panic!("expected the end of the call, got {:?}", other),
        };
        let mut probe = Call::new();
        let kept = match client.get_tasks(&mut probe, Event::Start) {
            Action::Send(request) => request.has_field("_sid", "old"),
            other => panic!("expected a request, got {:?}", other),
        };
        (result, kept)
    };

    let (result, kept) = outcome(issued("456"));
    assert!(result.is_ok());
    assert!(!kept);

    let (result, kept) = outcome(rejected(400));
    assert!(matches!(result, Err(SynoError::Auth { code: Some(400), .. })));
    assert!(kept);

    let (result, kept) =
        outcome(Reply::Envelope(SynologyResponse { success: false, data: None, error: None }));
    assert!(matches!(result, Err(SynoError::Auth { code: None, .. })));
    assert!(kept);

    let (result, kept) =
        outcome(Reply::Envelope(SynologyResponse { success: true, data: None, error: None }));
    assert_eq!(
        "JSON serialization/deserialization error: No data received",
        result.unwrap_err().message()
    );
    assert!(kept);

    let (result, kept) = outcome(issued(""));
    assert_eq!(
        "JSON serialization/deserialization error: No session ID received",
        result.unwrap_err().message()
    );
    assert!(kept);

    let (result, kept) = outcome(Reply::Unreachable("connection refused".to_string()));
    assert_eq!("Network request error: connection refused", result.unwrap_err().message());
    assert!(kept);
}

#[test]
fn replies_without_an_envelope_end_the_call() {
    let mut client = client_with_session("old");
    let run = run_get_tasks(
        &mut client,
        vec![Reply::Status { code: 502, reason: Some("Bad Gateway".to_string()) }],
        vec![],
    );
    match run.result {
        Err(SynoError::Api { code, message }) => {
            assert_eq!(502, code);
            assert_eq!("HTTP request failed with status: 502 (Bad Gateway)", message);
        }
        other => panic!("expected the API error, got {:?}", other),
    }

    let run = run_get_tasks(&mut client, vec![Reply::Status { code: 599, reason: None }], vec![]);
    assert_eq!(
        "Synology API error: code=599, message=HTTP request failed with status: 599 (Unknown)",
        run.result.unwrap_err().message()
    );

    let run =
        run_get_tasks(&mut client, vec![Reply::Malformed("expected value".to_string())], vec![]);
    assert!(matches!(run.result, Err(SynoError::InvalidResponse(m)) if m == "expected value"));

    let run = run_get_tasks(&mut client, vec![Reply::Unreachable("timed out".to_string())], vec![]);
    assert!(matches!(run.result, Err(SynoError::Network(m)) if m == "timed out"));

    let run = run_get_tasks(
        &mut client,
        vec![rejected(119), Reply::Unreachable("timed out".to_string())],
        vec![issued("new")],
    );
    assert_eq!(2, run.requests.len());
    assert!(matches!(run.result, Err(SynoError::Network(_))));
}

#[test]
fn events_out_of_turn_end_the_call() {
    let text = "Invalid input parameter: Unexpected event for the stage of the call";
    let mut client = client_with_session("old");

    let mut call = Call::new();
    match client.advance(&mut call, Event::<Tasks>::Reply(listed(&[]))) {
        Step::Fail(error) => assert_eq!(text, error.message()),
        other => panic!("expected a failure, got {:?}", other),
    }
    assert_eq!(Stage::Done, call.stage());

    let mut call = Call::new();
    assert!(matches!(client.advance(&mut call, Event::<Tasks>::Start), Step::Transmit));
    assert_eq!(Stage::AwaitingReply, call.stage());
    assert!(matches!(client.advance(&mut call, Event::<Tasks>::Start), Step::Fail(_)));
    assert_eq!(Stage::Done, call.stage());

    let mut call = Call::new();
    client.advance(&mut call, Event::<Tasks>::Start);
    assert!(matches!(client.advance(&mut call, Event::<Tasks>::Login(issued("x"))), Step::Fail(_)));
    assert_eq!(Stage::Done, call.stage());
    assert!(matches!(client.advance(&mut call, Event::<Tasks>::Start), Step::Fail(_)));
    assert_eq!(Stage::Done, call.stage());

    // A finished login takes no further reply, and a login takes no call reply.
    let mut call = Call::new();
    client.authorize(&mut call, Event::Start);
    match client.authorize(&mut call, Event::Reply(issued("x"))) {
        Action::Done(Err(error)) => assert_eq!(text, error.message()),
        other => panic!("expected a failure, got {:?}", other),
    }
    match client.authorize(&mut call, Event::Login(issued("x"))) {
        Action::Done(Err(error)) => assert_eq!(text, error.message()),
        other => panic!("expected a failure, got {:?}", other),
    }
}

#[test]
fn successful_envelope_reads_as_its_data() {
    let envelope = SynologyResponse { success: true, data: Some(41u32), error: None };
    let fallback = SynoError::InvalidResponse("unknown error".to_string());
    assert_eq!(41, expect_data(envelope, "failed", fallback).unwrap());

    let envelope = SynologyResponse {
        success: true,
        data: Some("payload".to_string()),
        error: Some(UpstreamError { code: 119, errors: None }),
    };
    let fallback = SynoError::InvalidResponse("unknown error".to_string());
    assert_eq!("payload", expect_data(envelope, "failed", fallback).unwrap());

    let envelope: SynologyResponse<u32> = SynologyResponse { success: true, data: None, error: None };
    let fallback = SynoError::InvalidResponse("unknown error".to_string());
    assert!(expect_success(envelope, "failed", fallback).is_ok());
}
