//! The calls to the engine, without the transport.
//!
//! Each operation comes in two halves. The first says what is to be sent:
//! where to, and with which body. The second takes what came back and says
//! what the operation amounts to. Sending is the caller's part.

use vstd::prelude::*;
use vstd::string::StringExecFns;
use crate::client::config::Config;
use crate::error::{unit_view, Error, ErrorView};
use crate::service::json::{json_parse, json_text, Json, JsonView};
use crate::service::model::{
    CompleteRequest, CompleteRequestView, FetchAndLockRequest, Task, TaskView,
};
use crate::service::variables::{VariableEntries, VariableMap};
use crate::service::wire::{
    complete_document, opt_json, request_document, task_views, tasks_from_json, tasks_of,
};

verus! {

/// A `POST` with a JSON body that the caller is to send.
#[derive(Debug, PartialEq, Eq)]
pub struct HttpRequest {
    /// The full address: the endpoint's root followed by the path.
    pub url: String,
    /// The text of the body.
    pub body: String,
}

/// What became of a request.
#[derive(Debug, PartialEq, Eq)]
pub enum HttpReply {
    /// The request could not be sent, or no answer came.
    Failed,
    /// The engine answered.
    Answered { status: u16, body: String },
}

/// The engine answered, with a status from 200 to 299.
pub open spec fn succeeded(reply: HttpReply) -> bool {
    reply matches HttpReply::Answered { status, .. } && 200 <= status < 300
}

/// The path under which the completion of a task is reported.
pub open spec fn complete_path(task_id: Seq<char>) -> Seq<char> {
    "/external-task/"@ + task_id + "/complete"@
}

/// The path under which tasks are leased.
pub open spec fn fetch_and_lock_path() -> Seq<char> {
    "/external-task/fetchAndLock"@
}

/// The variables that a report carries for a map that a handler gave or
/// left out: the map, or none.
pub open spec fn given_or_empty(variables: Option<VariableMap>) -> VariableEntries {
    match variables {
        Some(map) => map@,
        None => Seq::empty(),
    }
}

/// What the body of an answered lease request amounts to: its tasks where it
/// is an array of tasks, a failure where it is not, or is no document.
pub open spec fn read_lease(body: Option<JsonView>) -> Result<Seq<TaskView>, ErrorView> {
    match body {
        Some(doc) => match tasks_of(doc) {
            Some(tasks) => Ok(tasks),
            None => Err(ErrorView::BackendRequestError("cannot deserialize json"@)),
        },
        None => Err(ErrorView::BackendRequestError("cannot deserialize json"@)),
    }
}

/// What a lease request amounts to, given what became of it.
pub open spec fn lease_outcome(reply: HttpReply) -> Result<Seq<TaskView>, ErrorView> {
    if succeeded(reply) {
        read_lease(json_parse(reply->body@))
    } else {
        Err(ErrorView::BackendRequestError("request failed"@))
    }
}

/// What a completion report amounts to, given what became of it.
pub open spec fn complete_result(reply: HttpReply) -> Result<(), ErrorView> {
    if succeeded(reply) {
        Ok(())
    } else {
        Err(ErrorView::BackendRequestError("request failed"@))
    }
}

/// The value of the outcome of a lease request.
pub open spec fn lease_view(outcome: Result<Vec<Task>, Error>) -> Result<Seq<TaskView>, ErrorView> {
    match outcome {
        Ok(tasks) => Ok(task_views(tasks@)),
        Err(e) => Err(e@),
    }
}

/// The mathematical value of an [`EngineService`].
pub ghost struct EngineServiceView {
    pub base_url: Seq<char>,
    pub worker_id: Seq<char>,
}

/// The gateway to the engine's task queue, for one endpoint and one worker.
pub struct EngineService {
    base_url: String,
    worker_id: String,
}

impl View for EngineService {
    type V = EngineServiceView;

    closed spec fn view(&self) -> EngineServiceView {
        EngineServiceView { base_url: self.base_url@, worker_id: self.worker_id@ }
    }
}

fn request_failed() -> (error: Error)
    ensures
        error@ == ErrorView::BackendRequestError("request failed"@),
{
    Error::BackendRequestError("request failed".to_string())
}

fn answer_not_understood() -> (error: Error)
    ensures
        error@ == ErrorView::BackendRequestError("cannot deserialize json"@),
{
    Error::BackendRequestError("cannot deserialize json".to_string())
}

fn is_success(reply: &HttpReply) -> (success: bool)
    ensures
        success == succeeded(*reply),
{
    match reply {
        HttpReply::Answered { status, .. } => 200 <= *status && *status < 300,
        HttpReply::Failed => false,
    }
}

impl EngineService {
    /// A gateway to the endpoint of `config`, for the worker of `config`.
    pub fn new(config: &Config) -> (service: Self)
        ensures
            service@ == (EngineServiceView {
                base_url: config@.base_url,
                worker_id: config@.worker_id,
            }),
    {
        EngineService {
            base_url: config.base_url().to_string(),
            worker_id: config.worker_id().to_string(),
        }
    }

    fn post(&self, path: &str, body: &Json) -> (request: HttpRequest)
        ensures
            request.url@ == self@.base_url + path@,
            request.body@ == json_text(body@),
    {
        let mut url = self.base_url.clone();
        url.append(path);
        HttpRequest { url, body: body.to_text() }
    }

    /// The report for this worker with the variables that a handler gave.
    /// A map that is left out is reported as the empty map.
    pub fn complete_request(
        &self,
        variables: Option<VariableMap>,
        local_variables: Option<VariableMap>,
    ) -> (request: CompleteRequest)
        ensures
            request@ == (CompleteRequestView {
                worker_id: self@.worker_id,
                variables: given_or_empty(variables),
                local_variables: given_or_empty(local_variables),
            }),
    {
        let mut request = CompleteRequest {
            worker_id: self.worker_id.clone(),
            variables: VariableMap::new(),
            local_variables: VariableMap::new(),
        };
        if let Some(variables) = variables {
            request.variables = variables;
        }
        if let Some(local_variables) = local_variables {
            request.local_variables = local_variables;
        }
        request
    }

    /// The request that reports `task` as completed, with the variables for
    /// the process and for the executing scope. One task, one request.
    pub fn complete(
        &self,
        task: &Task,
        variables: Option<VariableMap>,
        local_variables: Option<VariableMap>,
    ) -> (request: HttpRequest)
        ensures
            request.url@ == self@.base_url + complete_path(task.id@),
            request.body@ == json_text(
                complete_document(
                    CompleteRequestView {
                        worker_id: self@.worker_id,
                        variables: given_or_empty(variables),
                        local_variables: given_or_empty(local_variables),
                    },
                ),
            ),
    {
        let mut path = String::from_str("/external-task/");
        path.append(task.id.as_str());
        path.append("/complete");
        let report = self.complete_request(variables, local_variables);
        let body = report.to_json();
        self.post(path.as_str(), &body)
    }

    /// What a completion report amounts to: done where the engine answered
    /// with success, failed otherwise. The body of the answer is not read.
    pub fn complete_outcome(reply: &HttpReply) -> (outcome: Result<(), Error>)
        ensures
            unit_view(outcome) == complete_result(*reply),
    {
        if is_success(reply) {
            Ok(())
        } else {
            Err(request_failed())
        }
    }

    /// The request that leases tasks: one request for all topics at once.
    pub fn fetch_and_lock(&self, request: &FetchAndLockRequest) -> (call: HttpRequest)
        ensures
            call.url@ == self@.base_url + fetch_and_lock_path(),
            call.body@ == json_text(request_document(request@)),
    {
        let body = request.to_json();
        self.post("/external-task/fetchAndLock", &body)
    }

    /// The tasks that an answered lease request carries, given the answer's
    /// body as a document, or none where the body could not be read.
    pub fn leased(body: Option<Json>) -> (outcome: Result<Vec<Task>, Error>)
        ensures
            lease_view(outcome) == read_lease(opt_json(body)),
    {
        match body {
            Some(doc) => match tasks_from_json(&doc) {
                Some(tasks) => Ok(tasks),
                None => Err(answer_not_understood()),
            },
            None => Err(answer_not_understood()),
        }
    }

    /// What a lease request amounts to: the tasks of the answer, in the
    /// engine's order, where the engine answered with success and with an
    /// array of tasks; a failure otherwise. Nothing is tried again.
    pub fn fetch_and_lock_outcome(reply: &HttpReply) -> (outcome: Result<Vec<Task>, Error>)
        ensures
            lease_view(outcome) == lease_outcome(*reply),
    {
        match reply {
            HttpReply::Answered { status, body } => {
                if 200 <= *status && *status < 300 {
                    EngineService::leased(Json::parse(body.as_str()))
                } else {
                    Err(request_failed())
                }
            },
            HttpReply::Failed => Err(request_failed()),
        }
    }
}

} // verus!
