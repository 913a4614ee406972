//! What goes on the wire: a request as a target address, a list of
//! fields and, for an upload, a file part; and the field list of each
//! upstream action.

use crate::text::{decimal, join, spec_decimal, spec_join, spec_views};
use vstd::prelude::*;

verus! {

/// The path of the single upstream entry point.
pub open spec fn spec_api_path() -> Seq<char> {
    "/webapi/entry.cgi"@
}

/// The name of the field, or of the URL query parameter, that carries the
/// session identifier.
pub open spec fn spec_sid_key() -> Seq<char> {
    "_sid"@
}

/// The binary part of an upload.
#[derive(Debug)]
pub struct FilePart {
    /// The name of the part in the form.
    pub name: String,
    pub file_name: String,
    /// The MIME type of the content.
    pub mime: String,
    pub data: Vec<u8>,
}

/// A `FilePart` as plain values.
pub struct FilePartView {
    pub name: Seq<char>,
    pub file_name: Seq<char>,
    pub mime: Seq<char>,
    pub data: Seq<u8>,
}

impl View for FilePart {
    type V = FilePartView;

    open spec fn view(&self) -> FilePartView {
        FilePartView {
            name: self.name@,
            file_name: self.file_name@,
            mime: self.mime@,
            data: self.data@,
        }
    }
}

/// One POST request. Without a file the fields travel as
/// `application/x-www-form-urlencoded`; with one, fields and file travel as
/// `multipart/form-data`.
#[derive(Debug)]
pub struct Request {
    pub url: String,
    pub fields: Vec<(String, String)>,
    pub file: Option<FilePart>,
}

/// A `Request` as plain values.
pub struct RequestView {
    pub url: Seq<char>,
    pub fields: Seq<(Seq<char>, Seq<char>)>,
    pub file: Option<FilePartView>,
}

/// The fields of a request as pairs of texts.
pub open spec fn spec_fields(fields: Seq<(String, String)>) -> Seq<(Seq<char>, Seq<char>)> {
    fields.map_values(|f: (String, String)| (f.0@, f.1@))
}

impl View for Request {
    type V = RequestView;

    open spec fn view(&self) -> RequestView {
        RequestView {
            url: self.url@,
            fields: spec_fields(self.fields@),
            file: match self.file {
                Some(part) => Some(part@),
                None => None,
            },
        }
    }
}

/// Whether a request has a field with this name and this value.
pub open spec fn spec_has_field(request: RequestView, key: Seq<char>, value: Seq<char>) -> bool {
    request.fields.contains((key, value))
}

impl Request {
    /// Whether the request has a field with this name and this value.
    pub fn has_field(&self, key: &str, value: &str) -> (b: bool)
        ensures
            b == spec_has_field(self@, key@, value@),
    {
        let mut i: usize = 0;
        while i < self.fields.len()
            invariant
                i <= self.fields.len(),
                forall|j: int| 0 <= j < i ==> spec_fields(self.fields@)[j] != (key@, value@),
            decreases self.fields.len() - i,
        {
            if str_eq(self.fields[i].0.as_str(), key) && str_eq(self.fields[i].1.as_str(), value) {
                assert(spec_fields(self.fields@)[i as int] == (key@, value@));
                return true;
            }
            i += 1;
        }
        false
    }
}

/// Whether two texts are the same.
pub fn str_eq(a: &str, b: &str) -> (same: bool)
    ensures
        same == (a@ == b@),
{
    let n = a.unicode_len();
    if b.unicode_len() != n {
        return false;
    }
    let mut i: usize = 0;
    while i < n
        invariant
            i <= n,
            n == a@.len(),
            n == b@.len(),
            forall|j: int| 0 <= j < i ==> a@[j] == b@[j],
        decreases n - i,
    {
        if a.get_char(i) != b.get_char(i) {
            return false;
        }
        i += 1;
    }
    assert(a@ =~= b@);
    true
}

/// Appends one field.
pub fn push_field(fields: &mut Vec<(String, String)>, key: &str, value: &str)
    ensures
        spec_fields(final(fields)@) == spec_fields(old(fields)@).push((key@, value@)),
{
    fields.push((String::from_str(key), String::from_str(value)));
    assert(spec_fields(fields@) =~= spec_fields(old(fields)@).push((key@, value@)));
}

/// The two fields that begin every task request.
pub open spec fn spec_task_fields(method: Seq<char>) -> Seq<(Seq<char>, Seq<char>)> {
    seq![("api"@, "SYNO.DownloadStation2.Task"@), ("version"@, "2"@), ("method"@, method)]
}

fn task_fields(method: &str) -> (fields: Vec<(String, String)>)
    ensures
        spec_fields(fields@) == spec_task_fields(method@),
{
    let mut fields: Vec<(String, String)> = Vec::new();
    assert(spec_fields(fields@) =~= Seq::empty());
    push_field(&mut fields, "api", "SYNO.DownloadStation2.Task");
    push_field(&mut fields, "version", "2");
    push_field(&mut fields, "method", method);
    fields
}

/// The fields of a login.
pub open spec fn spec_login_fields(username: Seq<char>, password: Seq<char>) -> Seq<
    (Seq<char>, Seq<char>),
> {
    seq![
        ("api"@, "SYNO.API.Auth"@),
        ("version"@, "7"@),
        ("method"@, "login"@),
        ("account"@, username),
        ("passwd"@, password),
        ("format"@, "sid"@),
    ]
}

/// The fields of a login.
pub fn login_fields(username: &str, password: &str) -> (fields: Vec<(String, String)>)
    ensures
        spec_fields(fields@) == spec_login_fields(username@, password@),
{
    let mut fields: Vec<(String, String)> = Vec::new();
    assert(spec_fields(fields@) =~= Seq::empty());
    push_field(&mut fields, "api", "SYNO.API.Auth");
    push_field(&mut fields, "version", "7");
    push_field(&mut fields, "method", "login");
    push_field(&mut fields, "account", username);
    push_field(&mut fields, "passwd", password);
    push_field(&mut fields, "format", "sid");
    fields
}

/// The fields that list all tasks.
pub open spec fn spec_list_fields() -> Seq<(Seq<char>, Seq<char>)> {
    spec_task_fields("list"@).push(("additional"@, "[\"transfer\",\"detail\"]"@))
}

/// The fields that list all tasks.
pub fn list_fields() -> (fields: Vec<(String, String)>)
    ensures
        spec_fields(fields@) == spec_list_fields(),
{
    let mut fields = task_fields("list");
    push_field(&mut fields, "additional", "[\"transfer\",\"detail\"]");
    fields
}

/// The fields that look tasks up by their identifiers.
pub open spec fn spec_get_fields(ids: Seq<Seq<char>>) -> Seq<(Seq<char>, Seq<char>)> {
    spec_task_fields("get"@).push(("id"@, spec_join(ids, ","@))).push(
        ("additional"@, "[\"transfer\",\"detail\"]"@),
    )
}

/// The fields that look tasks up by their identifiers.
pub fn get_fields(ids: &Vec<String>) -> (fields: Vec<(String, String)>)
    ensures
        spec_fields(fields@) == spec_get_fields(spec_views(ids@)),
{
    let joined = join(ids, ",");
    let mut fields = task_fields("get");
    push_field(&mut fields, "id", joined.as_str());
    push_field(&mut fields, "additional", "[\"transfer\",\"detail\"]");
    fields
}

/// The fields that create a task from a link.
pub open spec fn spec_create_fields(uri: Seq<char>, destination: Seq<char>) -> Seq<
    (Seq<char>, Seq<char>),
> {
    spec_task_fields("create"@).push(("type"@, "\"url\""@)).push(
        ("destination"@, destination),
    ).push(("url"@, uri)).push(("create_list"@, "false"@))
}

/// The fields that create a task from a link.
pub fn create_fields(uri: &str, destination: &str) -> (fields: Vec<(String, String)>)
    ensures
        spec_fields(fields@) == spec_create_fields(uri@, destination@),
{
    let mut fields = task_fields("create");
    push_field(&mut fields, "type", "\"url\"");
    push_field(&mut fields, "destination", destination);
    push_field(&mut fields, "url", uri);
    push_field(&mut fields, "create_list", "false");
    fields
}

/// The text fields that create a task from an uploaded file. The
/// destination travels in double quotes.
pub open spec fn spec_upload_fields(destination: Seq<char>) -> Seq<(Seq<char>, Seq<char>)> {
    spec_task_fields("create"@).push(("type"@, "\"file\""@)).push(
        ("file"@, "[\"torrent\"]"@),
    ).push(("destination"@, "\""@ + destination + "\""@)).push(("create_list"@, "false"@))
}

/// The text fields that create a task from an uploaded file.
pub fn upload_fields(destination: &str) -> (fields: Vec<(String, String)>)
    ensures
        spec_fields(fields@) == spec_upload_fields(destination@),
{
    let mut quoted = String::from_str("\"");
    quoted.append(destination);
    quoted.append("\"");
    let mut fields = task_fields("create");
    push_field(&mut fields, "type", "\"file\"");
    push_field(&mut fields, "file", "[\"torrent\"]");
    push_field(&mut fields, "destination", quoted.as_str());
    push_field(&mut fields, "create_list", "false");
    fields
}

/// The file part of an upload: named `torrent`, of type
/// `application/x-bittorrent`.
pub open spec fn spec_torrent_part(file_name: Seq<char>, data: Seq<u8>) -> FilePartView {
    FilePartView { name: "torrent"@, file_name, mime: "application/x-bittorrent"@, data }
}

/// The file part of an upload.
pub fn torrent_part(file_name: &str, data: &[u8]) -> (part: FilePart)
    ensures
        part@ == spec_torrent_part(file_name@, data@),
{
    FilePart {
        name: String::from_str("torrent"),
        file_name: String::from_str(file_name),
        mime: String::from_str("application/x-bittorrent"),
        data: vstd::slice::slice_to_vec(data),
    }
}

/// The fields of an action on one task: pause, resume or delete.
pub open spec fn spec_task_action_fields(method: Seq<char>, id: Seq<char>) -> Seq<
    (Seq<char>, Seq<char>),
> {
    spec_task_fields(method).push(("id"@, id))
}

/// The fields of an action on one task.
pub fn task_action_fields(method: &str, id: &str) -> (fields: Vec<(String, String)>)
    ensures
        spec_fields(fields@) == spec_task_action_fields(method@, id@),
{
    let mut fields = task_fields(method);
    push_field(&mut fields, "id", id);
    fields
}

/// The fields that delete a task; `force_complete` is present only where
/// it is asked for.
pub open spec fn spec_delete_fields(id: Seq<char>, force_complete: bool) -> Seq<
    (Seq<char>, Seq<char>),
> {
    if force_complete {
        spec_task_action_fields("delete"@, id).push(("force_complete"@, "true"@))
    } else {
        spec_task_action_fields("delete"@, id)
    }
}

/// The fields that delete a task.
pub fn delete_fields(id: &str, force_complete: bool) -> (fields: Vec<(String, String)>)
    ensures
        spec_fields(fields@) == spec_delete_fields(id@, force_complete),
{
    let mut fields = task_action_fields("delete", id);
    if force_complete {
        push_field(&mut fields, "force_complete", "true");
    }
    fields
}

/// The fields that complete a task; they address an interface of their own.
pub open spec fn spec_complete_fields(id: Seq<char>) -> Seq<(Seq<char>, Seq<char>)> {
    seq![
        ("api"@, "SYNO.DownloadStation2.Task.Complete"@),
        ("version"@, "1"@),
        ("method"@, "start"@),
        ("id"@, id),
    ]
}

/// The fields that complete a task.
pub fn complete_fields(id: &str) -> (fields: Vec<(String, String)>)
    ensures
        spec_fields(fields@) == spec_complete_fields(id@),
{
    let mut fields: Vec<(String, String)> = Vec::new();
    assert(spec_fields(fields@) =~= Seq::empty());
    push_field(&mut fields, "api", "SYNO.DownloadStation2.Task.Complete");
    push_field(&mut fields, "version", "1");
    push_field(&mut fields, "method", "start");
    push_field(&mut fields, "id", id);
    fields
}

/// The fields that delete every task with the given status code.
pub open spec fn spec_clear_fields(status: u8) -> Seq<(Seq<char>, Seq<char>)> {
    spec_task_fields("delete_condition"@).push(("status"@, spec_decimal(status as nat)))
}

/// The fields that delete every task with the given status code.
pub fn clear_fields(status: u8) -> (fields: Vec<(String, String)>)
    ensures
        spec_fields(fields@) == spec_clear_fields(status),
{
    let code = decimal(status as u64);
    let mut fields = task_fields("delete_condition");
    push_field(&mut fields, "status", code.as_str());
    fields
}

} // verus!
