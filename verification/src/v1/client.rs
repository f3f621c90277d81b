//! A client for interacting with a task execution service.
//!
//! The client itself holds the validated configuration and builds the URL,
//! query string and body of each request; a transport drives the requests
//! it describes and hands the outcomes back to the retry engine in
//! [`retry`].

use vstd::prelude::*;
use vstd::view::View as _;
use crate::v1::client::retry::Fault;
use crate::v1::json::spec_parse;
use crate::v1::types::requests::{GetTaskParams, ListTasksParams, View, MAX_PAGE_SIZE};
use crate::v1::types::responses::service::service_info_decodable;
use crate::v1::types::responses::service_info::info_matches;
use crate::v1::types::responses::{
    created_task_decodable, created_task_matches, list_tasks_decodable, list_tasks_matches,
    task_response_decodable, task_response_matches, CreatedTask, ListTasks, ServiceInfo,
    TaskResponse,
};

pub mod builder;
pub mod options;
pub mod pagination;
pub mod retry;
pub mod tasks;

pub use builder::Builder;

verus! {

/// An error within the client.
///
/// Exhausting the retry schedule surfaces the last transient failure
/// unchanged in kind, marked only as exhausted. Encoding query parameters
/// and request bodies cannot fail here — the query-string and JSON
/// encoders are total — so no error kind stands for them.
#[derive(Clone, Debug, PartialEq, Eq)]
pub enum Error {
    /// An invalid request was made; no network attempt is owed for it.
    InvalidRequest(String),

    /// The transport failed: a connection failure, a lost body, or a
    /// response status that reports a failure. `exhausted` says whether a
    /// transient failure used up the whole retry schedule, as opposed to a
    /// failure that is never retried.
    Transport {
        /// The underlying fault.
        fault: Fault,
        /// Whether the retry schedule was exhausted.
        exhausted: bool,
    },

    /// Successfully received bytes could not be parsed into the expected
    /// shape.
    Decode,
}

/// The description of a transport failure: the fault, prefixed with a
/// note when the retry schedule was exhausted reaching it.
pub open spec fn spec_fault_text(fault: Fault, exhausted: bool) -> Seq<char> {
    (if exhausted {
        "retries exhausted: "@
    } else {
        Seq::<char>::empty()
    }) + (match fault {
        Fault::Connection => "connection failed"@,
        Fault::BodyLost { status } => "response body lost (status "@ + crate::v1::json::spec_u64_str(
            status as int,
        ) + ")"@,
        Fault::Status { status } => "unexpected status "@ + crate::v1::json::spec_u64_str(
            status as int,
        ),
    })
}

impl Error {
    /// The error, described for a reader.
    pub fn message(&self) -> (r: String)
        ensures
            *self matches Error::InvalidRequest(m) ==> r@ == m@,
            *self matches Error::Transport { fault, exhausted } ==> r@ == spec_fault_text(
                fault,
                exhausted,
            ),
            *self is Decode ==> r@ == "failed to decode the response body"@,
    {
        match self {
            Error::InvalidRequest(m) => m.clone(),
            Error::Transport { fault, exhausted } => {
                let mut out: Vec<char> = Vec::new();
                if *exhausted {
                    crate::v1::json::push_chars(&mut out, "retries exhausted: ");
                }
                match fault {
                    Fault::Connection => {
                        crate::v1::json::push_chars(&mut out, "connection failed");
                    },
                    Fault::BodyLost { status } => {
                        crate::v1::json::push_chars(&mut out, "response body lost (status ");
                        let num = crate::v1::json::u64_to_string(*status as u64);
                        crate::v1::json::push_chars(&mut out, num.as_str());
                        crate::v1::json::push_chars(&mut out, ")");
                    },
                    Fault::Status { status } => {
                        crate::v1::json::push_chars(&mut out, "unexpected status ");
                        let num = crate::v1::json::u64_to_string(*status as u64);
                        crate::v1::json::push_chars(&mut out, num.as_str());
                    },
                }
                proof {
                    assert(out@ =~= spec_fault_text(*fault, *exhausted));
                }
                crate::v1::json::chars_to_string(&out)
            },
            Error::Decode => String::from_str("failed to decode the response body"),
        }
    }
}

/// A client for interacting with a service.
#[derive(Clone, Debug)]
pub struct Client {
    /// The base URL. Its path ends with `/`, so endpoint paths append to
    /// it.
    pub url: String,

    /// The default headers for each request, as name/value pairs.
    pub headers: Vec<(String, String)>,

    /// The connect timeout, in milliseconds.
    pub connect_timeout: u64,

    /// The read timeout, in milliseconds.
    pub read_timeout: u64,
}

impl Client {
    /// Gets an empty builder for a [`Client`].
    pub fn builder() -> (r: Builder)
        ensures
            r.url is None,
            r.headers@.len() == 0,
            r.connect_timeout is None,
            r.read_timeout is None,
    {
        Builder { url: None, headers: Vec::new(), connect_timeout: None, read_timeout: None }
    }

    /// The URL of the service-info endpoint.
    ///
    /// Endpoint paths are internally constructed, never user path
    /// fragments, so appending them to the base URL always yields the
    /// intended request URL.
    pub fn service_info_url(&self) -> (r: String)
        ensures
            r@ == self.url@ + "service-info"@,
    {
        let mut out: Vec<char> = Vec::new();
        crate::v1::json::push_chars(&mut out, self.url.as_str());
        crate::v1::json::push_chars(&mut out, "service-info");
        crate::v1::json::chars_to_string(&out)
    }

    /// The URL of the create-task endpoint.
    pub fn create_task_url(&self) -> (r: String)
        ensures
            r@ == self.url@ + "tasks"@,
    {
        let mut out: Vec<char> = Vec::new();
        crate::v1::json::push_chars(&mut out, self.url.as_str());
        crate::v1::json::push_chars(&mut out, "tasks");
        crate::v1::json::chars_to_string(&out)
    }

    /// The URL of the list-tasks endpoint for the given parameters.
    ///
    /// Validation happens here, before any network attempt: a page size at
    /// or above [`MAX_PAGE_SIZE`] is an invalid request, and exactly then
    /// the result is an error. With parameters present the query string is
    /// appended after `?`, even when it is empty.
    pub fn list_tasks_url(&self, params: Option<&ListTasksParams>) -> (r: Result<String, Error>)
        ensures
            r is Err <==> (match params {
                Some(p) => p.page_size matches Some(n) && n >= MAX_PAGE_SIZE,
                None => false,
            }),
            r matches Err(e) ==> e matches Error::InvalidRequest(m) && m@
                == "page size must be less than 2048"@,
            r matches Ok(u) ==> u@ == (match params {
                Some(p) => self.url@ + "tasks?"@ + p.spec_query(),
                None => self.url@ + "tasks"@,
            }),
    {
        if let Some(p) = params {
            let oversized = match p.page_size {
                Some(n) => n >= MAX_PAGE_SIZE,
                None => false,
            };
            if oversized {
                return Err(
                    Error::InvalidRequest(String::from_str("page size must be less than 2048")),
                );
            }
            let query = p.query_string();
            let mut out: Vec<char> = Vec::new();
            crate::v1::json::push_chars(&mut out, self.url.as_str());
            crate::v1::json::push_chars(&mut out, "tasks?");
            crate::v1::json::push_chars(&mut out, query.as_str());
            Ok(crate::v1::json::chars_to_string(&out))
        } else {
            let mut out: Vec<char> = Vec::new();
            crate::v1::json::push_chars(&mut out, self.url.as_str());
            crate::v1::json::push_chars(&mut out, "tasks");
            Ok(crate::v1::json::chars_to_string(&out))
        }
    }

    /// The URL of the get-task endpoint for the given task and parameters.
    ///
    /// The task id is internally assumed joinable: it is appended to the
    /// path as given.
    pub fn get_task_url(&self, id: &str, params: Option<&GetTaskParams>) -> (r: String)
        ensures
            r@ == (match params {
                Some(p) => self.url@ + "tasks/"@ + id@ + "?"@ + p.spec_query(),
                None => self.url@ + "tasks/"@ + id@,
            }),
    {
        let mut out: Vec<char> = Vec::new();
        crate::v1::json::push_chars(&mut out, self.url.as_str());
        crate::v1::json::push_chars(&mut out, "tasks/");
        crate::v1::json::push_chars(&mut out, id);
        if let Some(p) = params {
            let query = p.query_string();
            crate::v1::json::push_chars(&mut out, "?");
            crate::v1::json::push_chars(&mut out, query.as_str());
        }
        crate::v1::json::chars_to_string(&out)
    }

    /// The URL of the cancel-task endpoint for the given task.
    pub fn cancel_task_url(&self, id: &str) -> (r: String)
        ensures
            r@ == self.url@ + "tasks/"@ + id@ + ":cancel"@,
    {
        let mut out: Vec<char> = Vec::new();
        crate::v1::json::push_chars(&mut out, self.url.as_str());
        crate::v1::json::push_chars(&mut out, "tasks/");
        crate::v1::json::push_chars(&mut out, id);
        crate::v1::json::push_chars(&mut out, ":cancel");
        crate::v1::json::chars_to_string(&out)
    }
}


/// Decodes the body of a get-task response for the requested view, wrapping
/// the result with the tag the view asks for. The payload is never
/// inspected to choose the shape.
pub fn resolve_task(view: View, body: &str) -> (r: Result<TaskResponse, Error>)
    ensures
        r is Ok <==> (spec_parse(body@) matches Some(jv) && task_response_decodable(view, jv)),
        r matches Ok(tr) ==> task_response_matches(view, tr, spec_parse(body@)->Some_0),
        r matches Err(e) ==> e == Error::Decode,
{
    match crate::v1::json::parse_json(body) {
        None => Err(Error::Decode),
        Some(j) => match TaskResponse::from_json(view, &j) {
            Some(tr) => Ok(tr),
            None => Err(Error::Decode),
        },
    }
}

/// Decodes the body of a list-tasks response for the requested view,
/// wrapping each task with the tag the view asks for.
pub fn resolve_list_tasks(view: View, body: &str) -> (r: Result<ListTasks<TaskResponse>, Error>)
    ensures
        r is Ok <==> (spec_parse(body@) matches Some(jv) && list_tasks_decodable(view, jv)),
        r matches Ok(page) ==> list_tasks_matches(view, page, spec_parse(body@)->Some_0),
        r matches Err(e) ==> e == Error::Decode,
{
    match crate::v1::json::parse_json(body) {
        None => Err(Error::Decode),
        Some(j) => match ListTasks::<TaskResponse>::from_json(view, &j) {
            Some(page) => Ok(page),
            None => Err(Error::Decode),
        },
    }
}

/// Decodes the body of a create-task response.
pub fn resolve_created_task(body: &str) -> (r: Result<CreatedTask, Error>)
    ensures
        r is Ok <==> (spec_parse(body@) matches Some(jv) && created_task_decodable(jv)),
        r matches Ok(t) ==> created_task_matches(t, spec_parse(body@)->Some_0),
        r matches Err(e) ==> e == Error::Decode,
{
    match crate::v1::json::parse_json(body) {
        None => Err(Error::Decode),
        Some(j) => match CreatedTask::from_json(&j) {
            Some(t) => Ok(t),
            None => Err(Error::Decode),
        },
    }
}

/// Decodes the body of a service-info response: success exactly when the
/// body parses and the document decodes, which includes the `url` crate
/// accepting the organization and documentation URLs.
pub fn resolve_service_info(body: &str) -> (r: Result<ServiceInfo, Error>)
    ensures
        r is Ok <==> (spec_parse(body@) matches Some(jv) && service_info_decodable(jv)),
        r matches Ok(si) ==> info_matches(si, spec_parse(body@)->Some_0),
        r matches Err(e) ==> e == Error::Decode,
{
    match crate::v1::json::parse_json(body) {
        None => Err(Error::Decode),
        Some(j) => match ServiceInfo::from_json(&j) {
            Some(si) => Ok(si),
            None => Err(Error::Decode),
        },
    }
}

} // verus!
