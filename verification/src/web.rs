//! What the web interface answers.

use vstd::prelude::*;
use vstd::string::StringExecFns;

use crate::pages::{error, error_text};
use crate::unique::{uuid_text, Uuid};

verus! {

/// Why a request fails.
#[derive(Clone, Copy, Debug, PartialEq, Eq, Structural)]
pub enum WebError {
    Database,
    NotFound,
    Unauthorized,
}

/// What an error says.
pub open spec fn web_error_text(error: WebError) -> Seq<char> {
    match error {
        WebError::Database => "database query failed"@,
        WebError::NotFound => "resource not found"@,
        WebError::Unauthorized => "administrator identity is required"@,
    }
}

/// The HTTP status of an error.
pub open spec fn web_error_status(error: WebError) -> u16 {
    match error {
        WebError::Database => 500,
        WebError::NotFound => 404,
        WebError::Unauthorized => 401,
    }
}

impl WebError {
    pub fn to_string(self) -> (result: String)
        ensures
            result@ == web_error_text(self),
    {
        match self {
            WebError::Database => "database query failed".to_owned(),
            WebError::NotFound => "resource not found".to_owned(),
            WebError::Unauthorized => "administrator identity is required".to_owned(),
        }
    }

    pub fn status(self) -> (result: u16)
        ensures
            result == web_error_status(self),
    {
        match self {
            WebError::Database => 500,
            WebError::NotFound => 404,
            WebError::Unauthorized => 401,
        }
    }

    /// The status and the page of an error.
    pub fn into_response(self) -> (result: (u16, String))
        ensures
            result.0 == web_error_status(self),
            result.1@ == error_text(web_error_status(self), web_error_text(self)),
    {
        let status: u16 = self.status();
        (status, error(status, self.to_string().as_str()))
    }
}

/// Who acts as an administrator: the value of the actor header, which must not be empty. Without
/// administration there is nothing to act on.
pub fn administrator_actor<'a>(administration: bool, header: Option<&'a str>) -> (result: Result<
    &'a str,
    WebError,
>)
    ensures
        if !administration {
            result == Err::<&str, _>(WebError::NotFound)
        } else {
            match header {
                Some(actor) => if actor@.len() > 0 {
                    result == Ok::<_, WebError>(actor)
                } else {
                    result == Err::<&str, _>(WebError::Unauthorized)
                },
                None => result == Err::<&str, _>(WebError::Unauthorized),
            }
        },
{
    if !administration {
        return Err(WebError::NotFound);
    }
    match header {
        Some(actor) => if actor.unicode_len() > 0 {
            Ok(actor)
        } else {
            Err(WebError::Unauthorized)
        },
        None => Err(WebError::Unauthorized),
    }
}

/// Where an administrator is sent after an act on a task that changed something.
pub fn task_redirect(task_id: Uuid, changed: bool) -> (result: Result<String, WebError>)
    ensures
        if changed {
            result is Ok && result->Ok_0@ == "/tasks/"@ + uuid_text(task_id.value)
        } else {
            result == Err::<String, _>(WebError::NotFound)
        },
{
    if !changed {
        return Err(WebError::NotFound);
    }
    let mut location = "/tasks/".to_owned();
    location.append(task_id.to_text().as_str());
    Ok(location)
}

/// Where an administrator is sent after an act on a schedule that changed something.
pub fn schedule_redirect(schedule_id: Uuid, changed: bool) -> (result: Result<String, WebError>)
    ensures
        if changed {
            result is Ok && result->Ok_0@ == "/schedules/"@ + uuid_text(schedule_id.value)
        } else {
            result == Err::<String, _>(WebError::NotFound)
        },
{
    if !changed {
        return Err(WebError::NotFound);
    }
    let mut location = "/schedules/".to_owned();
    location.append(schedule_id.to_text().as_str());
    Ok(location)
}

/// The header that names an administrator, unless another is configured.
pub fn default_actor_header() -> (result: &'static str)
    ensures
        result@ == "x-pgtask-actor"@,
{
    "x-pgtask-actor"
}

/// What goes wrong inside is a server's error, and what a request asks wrongly is the request's.
pub proof fn errors_have_their_status(error: WebError)
    ensures
        web_error_status(error) == 500 <==> error == WebError::Database,
        web_error_status(error) == 404 <==> error == WebError::NotFound,
        web_error_status(error) == 401 <==> error == WebError::Unauthorized,
        error == WebError::Database ==> web_error_text(error) == "database query failed"@,
        error == WebError::NotFound ==> web_error_text(error) == "resource not found"@,
        error == WebError::Unauthorized ==> web_error_text(error)
            == "administrator identity is required"@,
{
}

} // verus!
