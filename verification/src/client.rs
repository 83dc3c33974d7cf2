//! The client's side of the control plane: its address, the addresses of its
//! operations, the reports of calls that failed, and the rule that the service is
//! started once in a run.

use crate::service::{operation_path, operation_path_of, Operation, StatusResponse};
use crate::text::{decimal, u64_to_string};
use vstd::prelude::*;
use vstd::string::*;

verus! {

/// The time that a call of the control plane may take, in seconds.
pub const CALL_TIMEOUT_SECONDS: u64 = 60;

/// Where the control plane listens on the loopback interface, and since when.
#[derive(Clone, Copy, Debug, PartialEq, Eq)]
pub struct ServiceInfo {
    pub port: u16,
    pub started_at: u64,
}

/// The control plane's status together with the address it was asked at.
#[derive(Clone, Debug, PartialEq, Eq)]
pub struct ServiceSnapshot {
    pub base_url: String,
    pub status: StatusResponse,
}

/// The one control plane of an application run, once it has been started.
#[derive(Clone, Debug, PartialEq, Eq)]
pub struct ServiceManager {
    pub service: Option<ServiceInfo>,
}

/// The address of a control plane that listens at `port`.
pub open spec fn base_url_of(port: u16) -> Seq<char> {
    "http://127.0.0.1:"@ + decimal(port as nat)
}

/// The address at which an operation of the control plane is called.
pub open spec fn endpoint_of(base_url: Seq<char>, operation: Operation) -> Seq<char> {
    base_url + operation_path_of(operation)
}

/// The report of a call that did not reach the service.
pub open spec fn unreachable_text(url: Seq<char>) -> Seq<char> {
    "Failed to call "@ + url
}

/// The report of an answer with a status that is no success. `error` is the
/// message of the body where the body is an error answer; `body` is the body as
/// text. An error answer is quoted by its message; any other body is quoted as it
/// is, unless it is empty.
pub open spec fn failure_text(status: Seq<char>, body: Seq<char>, error: Option<Seq<char>>) -> Seq<
    char,
> {
    match error {
        Some(message) => "Embedded service error ("@ + status + "): "@ + message,
        None => if body.len() == 0 {
            "Embedded service responded with status "@ + status
        } else {
            "Embedded service responded with status "@ + status + ": "@ + body
        },
    }
}

impl ServiceInfo {
    /// The address of the control plane.
    pub fn base_url(&self) -> (url: String)
        ensures
            url@ == base_url_of(self.port),
    {
        let mut url = String::from_str("http://127.0.0.1:");
        url.append(u64_to_string(self.port as u64).as_str());
        url
    }

    /// The status that the control plane answered with, together with the address
    /// at which it was asked.
    pub fn snapshot(&self, status: StatusResponse) -> (snapshot: ServiceSnapshot)
        ensures
            snapshot.base_url@ == base_url_of(self.port),
            snapshot.status == status,
    {
        ServiceSnapshot { base_url: self.base_url(), status }
    }
}

/// Builds the address at which `operation` is called.
pub fn endpoint(base_url: &str, operation: Operation) -> (url: String)
    ensures
        url@ == endpoint_of(base_url@, operation),
{
    let mut url = String::from_str(base_url);
    url.append(operation_path(operation));
    url
}

/// Reports a call to `url` that did not reach the service.
pub fn unreachable_message(url: &str) -> (message: String)
    ensures
        message@ == unreachable_text(url@),
{
    let mut message = String::from_str("Failed to call ");
    message.append(url);
    message
}

/// Reports an answer whose status is no success.
pub fn failure_message(status: &str, body: &str, error: Option<&str>) -> (message: String)
    ensures
        message@ == failure_text(
            status@,
            body@,
            match error {
                Some(text) => Some(text@),
                None => None,
            },
        ),
{
    match error {
        Some(text) => {
            let mut message = String::from_str("Embedded service error (");
            message.append(status);
            message.append("): ");
            message.append(text);
            message
        },
        None => {
            let mut message = String::from_str("Embedded service responded with status ");
            message.append(status);
            if body.unicode_len() > 0 {
                message.append(": ");
                message.append(body);
            }
            message
        },
    }
}

impl ServiceManager {
    /// The manager after a control plane that was started is offered to it: the
    /// first one offered is kept for good.
    pub open spec fn offered(self, started: ServiceInfo) -> ServiceManager {
        match self.service {
            Some(_) => self,
            None => ServiceManager { service: Some(started) },
        }
    }

    /// A manager that has not started a control plane yet.
    pub fn new() -> (manager: ServiceManager)
        ensures
            manager.service is None,
    {
        ServiceManager { service: None }
    }

    /// The control plane of this run, if it has been started.
    pub fn current_info(&self) -> (info: Option<ServiceInfo>)
        ensures
            info == self.service,
    {
        self.service
    }

    /// Makes sure that there is one control plane. `started` is one that the caller
    /// has just started, finding none; it is kept unless another was kept in the
    /// meantime, and the one that is kept is answered.
    pub fn ensure_service(&mut self, started: ServiceInfo) -> (kept: ServiceInfo)
        ensures
            *final(self) == old(self).offered(started),
            final(self).service == Some(kept),
    {
        match self.service {
            Some(existing) => existing,
            None => {
                self.service = Some(started);
                started
            },
        }
    }
}

/// The control plane is started once in a run: whatever is offered after the
/// first, the manager keeps the first.
pub proof fn lemma_service_started_once(
    manager: ServiceManager,
    first: ServiceInfo,
    later: ServiceInfo,
)
    ensures
        manager.offered(first).service is Some,
        manager.offered(first).offered(later) == manager.offered(first),
        manager.service is None ==> manager.offered(first).offered(later).service == Some(first),
{
}

} // verus!
