//! The client: its configuration and session identifier, the requests it
//! addresses to the service, and the errors it reports.

use crate::request::{
    login_fields, push_field, spec_api_path, spec_fields, spec_login_fields, spec_sid_key,
    FilePart, FilePartView, Request, RequestView,
};
use crate::text::{
    labelled, lemma_trim_end, push_signed_decimal, spec_signed_decimal, spec_starts_with, spec_trim_end,
    starts_with, trim_end,
};
use vstd::prelude::*;

verus! {

/// The error code by which the upstream service says that the session
/// identifier is no longer valid.
pub const SESSION_EXPIRED_CODE: i32 = 119;

/// The request timeout of a client built without one, in milliseconds.
pub const DEFAULT_TIMEOUT_MS: u64 = 3000;

/// What can go wrong in the client.
#[allow(inconsistent_fields)]
#[derive(Debug)]
pub enum SynoError {
    /// The login was rejected, or a call needs a session that is not there.
    Auth { code: Option<i32>, message: String },
    /// The upstream service rejected a call; `code` is its error code, or
    /// the HTTP status where the rejection came without an envelope.
    Api { code: i32, message: String },
    /// The request did not reach the service or timed out.
    Network(String),
    /// An address could not be read. Kept for callers; no function here
    /// reports it.
    UrlParse(String),
    /// A value was missing from the environment. Kept for callers that take
    /// their configuration from there; no function here reports it.
    Environment(String),
    /// The reply did not have the expected shape.
    InvalidResponse(String),
    /// An argument was refused before anything was sent.
    InvalidInput(String),
    /// A task could not be created. Kept for callers; no function here
    /// reports it.
    TaskCreation(String),
    /// The service failed to change a task and gave no error code.
    TaskModification(String),
    /// The client was configured with a missing or malformed value.
    Configuration(String),
}

/// A `SynoError` as plain values.
#[allow(inconsistent_fields)]
pub enum SynoErrorView {
    Auth { code: Option<i32>, message: Seq<char> },
    Api { code: i32, message: Seq<char> },
    Network(Seq<char>),
    UrlParse(Seq<char>),
    Environment(Seq<char>),
    InvalidResponse(Seq<char>),
    InvalidInput(Seq<char>),
    TaskCreation(Seq<char>),
    TaskModification(Seq<char>),
    Configuration(Seq<char>),
}

impl View for SynoError {
    type V = SynoErrorView;

    open spec fn view(&self) -> SynoErrorView {
        match *self {
            SynoError::Auth { code, message } => SynoErrorView::Auth { code, message: message@ },
            SynoError::Api { code, message } => SynoErrorView::Api { code, message: message@ },
            SynoError::Network(m) => SynoErrorView::Network(m@),
            SynoError::UrlParse(m) => SynoErrorView::UrlParse(m@),
            SynoError::Environment(m) => SynoErrorView::Environment(m@),
            SynoError::InvalidResponse(m) => SynoErrorView::InvalidResponse(m@),
            SynoError::InvalidInput(m) => SynoErrorView::InvalidInput(m@),
            SynoError::TaskCreation(m) => SynoErrorView::TaskCreation(m@),
            SynoError::TaskModification(m) => SynoErrorView::TaskModification(m@),
            SynoError::Configuration(m) => SynoErrorView::Configuration(m@),
        }
    }
}

impl SynoErrorView {
    /// The one-line text of an error.
    pub open spec fn spec_message(self) -> Seq<char> {
        match self {
            SynoErrorView::Auth { code, message } => "Authentication error: "@ + message,
            SynoErrorView::Api { code, message } => "Synology API error: code="@
                + spec_signed_decimal(code as int) + ", message="@ + message,
            SynoErrorView::Network(m) => "Network request error: "@ + m,
            SynoErrorView::UrlParse(m) => "URL parsing error: "@ + m,
            SynoErrorView::Environment(m) => "Environment variable error: "@ + m,
            SynoErrorView::InvalidResponse(m) => "JSON serialization/deserialization error: "@ + m,
            SynoErrorView::InvalidInput(m) => "Invalid input parameter: "@ + m,
            SynoErrorView::TaskCreation(m) => "Task creation failed: "@ + m,
            SynoErrorView::TaskModification(m) => "Task modification failed: "@ + m,
            SynoErrorView::Configuration(m) => "Configuration error: "@ + m,
        }
    }
}

impl SynoError {
    /// The one-line text of the error.
    pub fn message(&self) -> (s: String)
        ensures
            s@ == self@.spec_message(),
    {
        match self {
            SynoError::Auth { code, message } => labelled(
                "Authentication error: ",
                message.as_str(),
            ),
            SynoError::Api { code, message } => {
                let mut s = String::from_str("Synology API error: code=");
                push_signed_decimal(&mut s, *code as i64);
                s.append(", message=");
                s.append(message.as_str());
                s
            },
            SynoError::Network(m) => labelled("Network request error: ", m.as_str()),
            SynoError::UrlParse(m) => labelled("URL parsing error: ", m.as_str()),
            SynoError::Environment(m) => labelled("Environment variable error: ", m.as_str()),
            SynoError::InvalidResponse(m) => labelled(
                "JSON serialization/deserialization error: ",
                m.as_str(),
            ),
            SynoError::InvalidInput(m) => labelled("Invalid input parameter: ", m.as_str()),
            SynoError::TaskCreation(m) => labelled("Task creation failed: ", m.as_str()),
            SynoError::TaskModification(m) => labelled("Task modification failed: ", m.as_str()),
            SynoError::Configuration(m) => labelled("Configuration error: ", m.as_str()),
        }
    }
}

/// A result with its error as plain values.
pub open spec fn spec_result<T>(r: Result<T, SynoError>) -> Result<T, SynoErrorView> {
    match r {
        Ok(v) => Ok(v),
        Err(e) => Err(e@),
    }
}

/// Whether a base URL names one of the two accepted schemes.
pub open spec fn spec_has_http_scheme(url: Seq<char>) -> bool {
    spec_starts_with(url, "http://"@) || spec_starts_with(url, "https://"@)
}

/// What construction answers to its arguments: the first complaint, in the
/// order user name, password, URL, URL scheme; or none.
pub open spec fn spec_configuration_error(
    url: Seq<char>,
    username: Seq<char>,
    password: Seq<char>,
) -> Option<SynoErrorView> {
    if username.len() == 0 {
        Some(SynoErrorView::Configuration("Username cannot be empty"@))
    } else if password.len() == 0 {
        Some(SynoErrorView::Configuration("Password cannot be empty"@))
    } else if url.len() == 0 {
        Some(SynoErrorView::Configuration("Host URL cannot be empty"@))
    } else if !spec_has_http_scheme(url) {
        Some(
            SynoErrorView::Configuration(
                "Host URL must start with http:// or https://, got: "@ + url,
            ),
        )
    } else {
        None
    }
}

/// The client: where the service is, who logs in, how long a request may
/// take, and the current session identifier (empty before the first login).
#[derive(Debug)]
pub struct SynoDS {
    url: String,
    username: String,
    password: String,
    timeout_ms: u64,
    sid: String,
}

/// A `SynoDS` as plain values.
pub struct SynoDSView {
    pub url: Seq<char>,
    pub username: Seq<char>,
    pub password: Seq<char>,
    pub timeout_ms: u64,
    pub sid: Seq<char>,
}

impl SynoDSView {
    /// The same client with another session identifier.
    pub open spec fn with_sid(self, sid: Seq<char>) -> SynoDSView {
        SynoDSView { sid, ..self }
    }

    /// Whether the configuration is valid: user name and password are not
    /// empty, and the base URL is not empty and does not end in a slash.
    pub open spec fn wf(self) -> bool {
        &&& self.username.len() > 0
        &&& self.password.len() > 0
        &&& self.url.len() > 0
        &&& self.url.last() != '/'
    }

    /// Whether a session identifier is held.
    pub open spec fn authorized(self) -> bool {
        self.sid.len() > 0
    }

    /// The address that every request goes to.
    pub open spec fn spec_endpoint(self) -> Seq<char> {
        self.url + spec_api_path()
    }

    /// The login request.
    pub open spec fn spec_login_request(self) -> RequestView {
        RequestView {
            url: self.spec_endpoint(),
            fields: spec_login_fields(self.username, self.password),
            file: None,
        }
    }

    /// A form request: the given fields, then the session identifier where
    /// one is held.
    pub open spec fn spec_form_request(self, fields: Seq<(Seq<char>, Seq<char>)>) -> RequestView {
        RequestView {
            url: self.spec_endpoint(),
            fields: if self.authorized() {
                fields.push((spec_sid_key(), self.sid))
            } else {
                fields
            },
            file: None,
        }
    }

    /// An upload request: the session identifier in the address, the given
    /// fields and the file part in the body.
    pub open spec fn spec_upload_request(
        self,
        fields: Seq<(Seq<char>, Seq<char>)>,
        part: FilePartView,
    ) -> RequestView {
        RequestView {
            url: self.spec_endpoint() + "?"@ + spec_sid_key() + "="@ + self.sid,
            fields,
            file: Some(part),
        }
    }
}

impl View for SynoDS {
    type V = SynoDSView;

    closed spec fn view(&self) -> SynoDSView {
        SynoDSView {
            url: self.url@,
            username: self.username@,
            password: self.password@,
            timeout_ms: self.timeout_ms,
            sid: self.sid@,
        }
    }
}

impl SynoDS {
    /// A client for the service at `url`. The URL loses the slashes at its
    /// end; no session is held yet. Refused are an empty user name, an empty
    /// password, an empty URL and a URL that starts with neither `http://`
    /// nor `https://`.
    pub fn new(url: String, username: String, password: String, timeout_ms: u64) -> (r: Result<
        SynoDS,
        SynoError,
    >)
        ensures
            r is Err <==> username@.len() == 0 || password@.len() == 0 || url@.len() == 0
                || !spec_has_http_scheme(url@),
            r is Err ==> r->Err_0 is Configuration,
            match r {
                Ok(client) => {
                    &&& client@ == SynoDSView {
                        url: spec_trim_end(url@, '/'),
                        username: username@,
                        password: password@,
                        timeout_ms,
                        sid: Seq::empty(),
                    }
                    &&& client@.wf()
                },
                Err(e) => spec_configuration_error(url@, username@, password@) == Some(e@),
            },
    {
        if username.as_str().is_empty() {
            return Err(SynoError::Configuration(String::from_str("Username cannot be empty")));
        }
        if password.as_str().is_empty() {
            return Err(SynoError::Configuration(String::from_str("Password cannot be empty")));
        }
        if url.as_str().is_empty() {
            return Err(SynoError::Configuration(String::from_str("Host URL cannot be empty")));
        }
        if !starts_with(url.as_str(), "http://") && !starts_with(url.as_str(), "https://") {
            return Err(
                SynoError::Configuration(
                    labelled("Host URL must start with http:// or https://, got: ", url.as_str()),
                ),
            );
        }
        let trimmed = trim_end(url.as_str(), '/');
        proof {
            reveal_strlit("http://");
            reveal_strlit("https://");
            lemma_trim_end(url@, '/');
            if spec_starts_with(url@, "http://"@) {
                assert(url@[0] == url@.subrange(0, 7)[0]);
            } else {
                assert(url@[0] == url@.subrange(0, 8)[0]);
            }
        }
        Ok(SynoDS { url: trimmed, username, password, timeout_ms, sid: String::new() })
    }

    /// A builder with nothing set.
    pub fn builder() -> (b: SynoDSBuilder)
        ensures
            b@ == SynoDSBuilderView::empty(),
    {
        SynoDSBuilder::default()
    }

    /// Whether a session identifier is held.
    pub fn is_authorized(&self) -> (b: bool)
        ensures
            b == self@.authorized(),
    {
        !self.sid.as_str().is_empty()
    }

    /// The session identifier that is held; empty before the first login.
    pub fn session_id(&self) -> (sid: &str)
        ensures
            sid@ == self@.sid,
    {
        self.sid.as_str()
    }

    /// The time that one request may take, in milliseconds.
    pub fn timeout_ms(&self) -> (t: u64)
        ensures
            t == self@.timeout_ms,
    {
        self.timeout_ms
    }

    /// Replaces the session identifier; nothing else changes.
    pub(crate) fn set_session(&mut self, sid: String)
        ensures
            final(self)@ == old(self)@.with_sid(sid@),
    {
        self.sid = sid;
    }

    /// The address that every request goes to.
    pub fn endpoint(&self) -> (url: String)
        ensures
            url@ == self@.spec_endpoint(),
    {
        let mut url = self.url.clone();
        url.append("/webapi/entry.cgi");
        url
    }

    /// The login request: the credentials as form fields, and no session
    /// identifier.
    pub fn login_request(&self) -> (request: Request)
        ensures
            request@ == self@.spec_login_request(),
    {
        Request {
            url: self.endpoint(),
            fields: login_fields(self.username.as_str(), self.password.as_str()),
            file: None,
        }
    }

    /// A form request with the given fields, followed by the session
    /// identifier where one is held.
    pub fn form_request(&self, fields: Vec<(String, String)>) -> (request: Request)
        ensures
            request@ == self@.spec_form_request(spec_fields(fields@)),
    {
        let mut fields = fields;
        if !self.sid.as_str().is_empty() {
            push_field(&mut fields, "_sid", self.sid.as_str());
        }
        Request { url: self.endpoint(), fields, file: None }
    }

    /// An upload request with the given text fields and file part. The
    /// session identifier travels in the address, not among the fields.
    pub fn upload_request(&self, fields: Vec<(String, String)>, part: FilePart) -> (request:
        Request)
        ensures
            request@ == self@.spec_upload_request(spec_fields(fields@), part@),
    {
        let mut url = self.endpoint();
        url.append("?");
        url.append("_sid");
        url.append("=");
        url.append(self.sid.as_str());
        Request { url, fields, file: Some(part) }
    }
}

/// Collects the values that a client is made of.
#[derive(Debug)]
pub struct SynoDSBuilder {
    url: Option<String>,
    username: Option<String>,
    password: Option<String>,
    timeout: Option<u64>,
}

/// A `SynoDSBuilder` as plain values.
pub struct SynoDSBuilderView {
    pub url: Option<Seq<char>>,
    pub username: Option<Seq<char>>,
    pub password: Option<Seq<char>>,
    pub timeout: Option<u64>,
}

impl SynoDSBuilderView {
    /// The builder with nothing set.
    pub open spec fn empty() -> SynoDSBuilderView {
        SynoDSBuilderView { url: None, username: None, password: None, timeout: None }
    }

    /// What `build` answers: the first missing value, in the order URL,
    /// user name, password; else what construction answers.
    pub open spec fn spec_build_error(self) -> Option<SynoErrorView> {
        if self.url is None {
            Some(SynoErrorView::Configuration("Host URL is required"@))
        } else if self.username is None {
            Some(SynoErrorView::Configuration("Username is required"@))
        } else if self.password is None {
            Some(SynoErrorView::Configuration("Password is required"@))
        } else {
            spec_configuration_error(self.url->0, self.username->0, self.password->0)
        }
    }

    /// The timeout that `build` uses.
    pub open spec fn spec_timeout(self) -> u64 {
        match self.timeout {
            Some(t) => t,
            None => DEFAULT_TIMEOUT_MS,
        }
    }
}

/// An optional string as plain values.
pub open spec fn spec_optional_text(s: Option<String>) -> Option<Seq<char>> {
    match s {
        Some(s) => Some(s@),
        None => None,
    }
}

impl View for SynoDSBuilder {
    type V = SynoDSBuilderView;

    closed spec fn view(&self) -> SynoDSBuilderView {
        SynoDSBuilderView {
            url: spec_optional_text(self.url),
            username: spec_optional_text(self.username),
            password: spec_optional_text(self.password),
            timeout: self.timeout,
        }
    }
}

impl Default for SynoDSBuilder {
    fn default() -> (b: SynoDSBuilder)
        ensures
            b@ == SynoDSBuilderView::empty(),
    {
        SynoDSBuilder { url: None, username: None, password: None, timeout: None }
    }
}

impl SynoDSBuilder {
    /// Sets the base URL.
    pub fn url(self, url: String) -> (b: SynoDSBuilder)
        ensures
            b@ == (SynoDSBuilderView { url: Some(url@), ..self@ }),
    {
        SynoDSBuilder { url: Some(url), ..self }
    }

    /// Sets the user name.
    pub fn username(self, username: String) -> (b: SynoDSBuilder)
        ensures
            b@ == (SynoDSBuilderView { username: Some(username@), ..self@ }),
    {
        SynoDSBuilder { username: Some(username), ..self }
    }

    /// Sets the password.
    pub fn password(self, password: String) -> (b: SynoDSBuilder)
        ensures
            b@ == (SynoDSBuilderView { password: Some(password@), ..self@ }),
    {
        SynoDSBuilder { password: Some(password), ..self }
    }

    /// Sets the request timeout in milliseconds.
    pub fn timeout(self, timeout_millis: u64) -> (b: SynoDSBuilder)
        ensures
            b@ == (SynoDSBuilderView { timeout: Some(timeout_millis), ..self@ }),
    {
        SynoDSBuilder { timeout: Some(timeout_millis), ..self }
    }

    /// Makes the client. A missing URL, user name or password is refused,
    /// and so is whatever `SynoDS::new` refuses; a missing timeout is three
    /// seconds.
    pub fn build(self) -> (r: Result<SynoDS, SynoError>)
        ensures
            r is Err <==> self@.spec_build_error() is Some,
            r is Err ==> r->Err_0 is Configuration,
            match r {
                Ok(client) => {
                    &&& client@ == SynoDSView {
                        url: spec_trim_end(self@.url->0, '/'),
                        username: self@.username->0,
                        password: self@.password->0,
                        timeout_ms: self@.spec_timeout(),
                        sid: Seq::empty(),
                    }
                    &&& client@.wf()
                },
                Err(e) => self@.spec_build_error() == Some(e@),
            },
    {
        let url = match self.url {
            Some(url) => url,
            None => {
                return Err(SynoError::Configuration(String::from_str("Host URL is required")));
            },
        };
        let username = match self.username {
            Some(username) => username,
            None => {
                return Err(SynoError::Configuration(String::from_str("Username is required")));
            },
        };
        let password = match self.password {
            Some(password) => password,
            None => {
                return Err(SynoError::Configuration(String::from_str("Password is required")));
            },
        };
        let timeout = match self.timeout {
            Some(t) => t,
            None => DEFAULT_TIMEOUT_MS,
        };
        SynoDS::new(url, username, password, timeout)
    }
}

} // verus!
