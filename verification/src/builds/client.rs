//! The client of the builder: how it is set up and how its calls end.

use vstd::prelude::*;
use crate::builds::endpoint::{check_endpoint, endpoint_fault};
use crate::config::Config;
use crate::text;

verus! {

/// Why a call of the builder failed.
#[derive(Debug)]
pub enum BuildGrpcClientError {
    InvalidEndpoint { endpoint: String, source: String },
    Timeout { operation: &'static str, timeout_ms: u64 },
    GrpcStatus { operation: &'static str, status: String },
}

/// The error in words.
pub open spec fn client_error_text(error: BuildGrpcClientError) -> Seq<char> {
    match error {
        BuildGrpcClientError::InvalidEndpoint { endpoint, source } => "invalid BUILD_SERVICE_GRPC_ENDPOINT `"@
            + endpoint@ + "`: "@ + source@,
        BuildGrpcClientError::Timeout { operation, timeout_ms } => operation@
            + " timed out after "@ + text::decimal(timeout_ms as nat) + " ms"@,
        BuildGrpcClientError::GrpcStatus { operation, status } => operation@ + " failed: "@
            + status@,
    }
}

impl BuildGrpcClientError {
    pub fn message(&self) -> (r: String)
        ensures
            r@ == client_error_text(*self),
    {
        match self {
            BuildGrpcClientError::InvalidEndpoint { endpoint, source } => {
                let mut r: String = text::join3(
                    "invalid BUILD_SERVICE_GRPC_ENDPOINT `",
                    endpoint.as_str(),
                    "`: ",
                );
                r.append(source.as_str());
                r
            },
            BuildGrpcClientError::Timeout { operation, timeout_ms } => {
                let mut r: String = text::join2(operation, " timed out after ");
                text::push_decimal(&mut r, *timeout_ms as u128);
                r.append(" ms");
                r
            },
            BuildGrpcClientError::GrpcStatus { operation, status } => text::join3(
                operation,
                " failed: ",
                status.as_str(),
            ),
        }
    }
}

/// How a call ended.
#[derive(Debug)]
pub enum CallOutcome<T> {
    TimedOut,
    /// The builder answered with a status, given in words.
    Refused(String),
    Answered(T),
}

/// The result of a call that ended so.
pub open spec fn call_result<T>(
    operation: &'static str,
    timeout_ms: u64,
    outcome: CallOutcome<T>,
) -> Result<T, BuildGrpcClientError> {
    match outcome {
        CallOutcome::TimedOut => Err(BuildGrpcClientError::Timeout { operation, timeout_ms }),
        CallOutcome::Refused(status) => Err(BuildGrpcClientError::GrpcStatus { operation, status }),
        CallOutcome::Answered(answer) => Ok(answer),
    }
}

fn finish_call<T>(operation: &'static str, timeout_ms: u64, outcome: CallOutcome<T>) -> (r: Result<
    T,
    BuildGrpcClientError,
>)
    ensures
        r == call_result(operation, timeout_ms, outcome),
{
    match outcome {
        CallOutcome::TimedOut => Err(BuildGrpcClientError::Timeout { operation, timeout_ms }),
        CallOutcome::Refused(status) => Err(BuildGrpcClientError::GrpcStatus { operation, status }),
        CallOutcome::Answered(answer) => Ok(answer),
    }
}

/// The client of the builder: how long each of its calls may take.
#[derive(Clone, Copy, PartialEq, Eq, Debug, Structural)]
pub struct BuildGrpcClient {
    pub submit_timeout_ms: u64,
    pub get_timeout_ms: u64,
    pub list_timeout_ms: u64,
    pub cancel_timeout_ms: u64,
}

impl BuildGrpcClient {
    /// The client that the settings describe; they must name an address.
    pub fn from_config(cfg: &Config) -> (r: Result<BuildGrpcClient, BuildGrpcClientError>)
        ensures
            match endpoint_fault(cfg.build_service_grpc_endpoint@) {
                Some(fault) => r matches Err(
                    BuildGrpcClientError::InvalidEndpoint { endpoint, source },
                ) && endpoint@ == cfg.build_service_grpc_endpoint@ && source@ == fault && fault
                    == "invalid URI"@,
                None => r == Ok::<BuildGrpcClient, BuildGrpcClientError>(
                    BuildGrpcClient {
                        submit_timeout_ms: cfg.build_service_submit_timeout_ms,
                        get_timeout_ms: cfg.build_service_get_timeout_ms,
                        list_timeout_ms: cfg.build_service_list_timeout_ms,
                        cancel_timeout_ms: cfg.build_service_cancel_timeout_ms,
                    },
                ),
            },
    {
        let fault: Option<String> = check_endpoint(cfg.build_service_grpc_endpoint.as_str());
        BuildGrpcClient::from_checked_config(cfg, fault)
    }

    /// The client that the settings describe, seen what is wrong with its address.
    pub fn from_checked_config(cfg: &Config, endpoint_fault: Option<String>) -> (r: Result<
        BuildGrpcClient,
        BuildGrpcClientError,
    >)
        ensures
            match endpoint_fault {
                Some(fault) => r matches Err(
                    BuildGrpcClientError::InvalidEndpoint { endpoint, source },
                ) && endpoint@ == cfg.build_service_grpc_endpoint@ && source == fault,
                None => r == Ok::<BuildGrpcClient, BuildGrpcClientError>(
                    BuildGrpcClient {
                        submit_timeout_ms: cfg.build_service_submit_timeout_ms,
                        get_timeout_ms: cfg.build_service_get_timeout_ms,
                        list_timeout_ms: cfg.build_service_list_timeout_ms,
                        cancel_timeout_ms: cfg.build_service_cancel_timeout_ms,
                    },
                ),
            },
    {
        match endpoint_fault {
            Some(source) => Err(
                BuildGrpcClientError::InvalidEndpoint {
                    endpoint: cfg.build_service_grpc_endpoint.clone(),
                    source,
                },
            ),
            None => Ok(
                BuildGrpcClient {
                    submit_timeout_ms: cfg.build_service_submit_timeout_ms,
                    get_timeout_ms: cfg.build_service_get_timeout_ms,
                    list_timeout_ms: cfg.build_service_list_timeout_ms,
                    cancel_timeout_ms: cfg.build_service_cancel_timeout_ms,
                },
            ),
        }
    }

    /// How a call of `SubmitBuild` ends.
    pub fn submit_build<T>(&self, outcome: CallOutcome<T>) -> (r: Result<T, BuildGrpcClientError>)
        ensures
            r == call_result("SubmitBuild", self.submit_timeout_ms, outcome),
    {
        finish_call("SubmitBuild", self.submit_timeout_ms, outcome)
    }

    /// How a call of `GetBuild` ends.
    pub fn get_build<T>(&self, outcome: CallOutcome<T>) -> (r: Result<T, BuildGrpcClientError>)
        ensures
            r == call_result("GetBuild", self.get_timeout_ms, outcome),
    {
        finish_call("GetBuild", self.get_timeout_ms, outcome)
    }

    /// How a call of `ListBuilds` ends.
    pub fn list_builds<T>(&self, outcome: CallOutcome<T>) -> (r: Result<T, BuildGrpcClientError>)
        ensures
            r == call_result("ListBuilds", self.list_timeout_ms, outcome),
    {
        finish_call("ListBuilds", self.list_timeout_ms, outcome)
    }

    /// How a call of `CancelBuild` ends.
    pub fn cancel_build<T>(&self, outcome: CallOutcome<T>) -> (r: Result<T, BuildGrpcClientError>)
        ensures
            r == call_result("CancelBuild", self.cancel_timeout_ms, outcome),
    {
        finish_call("CancelBuild", self.cancel_timeout_ms, outcome)
    }
}

/// A call gives what the builder answered; where it did not answer in time, or refused, the
/// error names the call and says so, with the time or the status.
pub proof fn calls_end_as_they_did<T>(
    operation: &'static str,
    timeout_ms: u64,
    outcome: CallOutcome<T>,
)
    ensures
        outcome matches CallOutcome::Answered(answer) ==> call_result(
            operation,
            timeout_ms,
            outcome,
        ) == Ok::<T, BuildGrpcClientError>(answer),
        outcome is TimedOut ==> (call_result(operation, timeout_ms, outcome) matches Err(
            BuildGrpcClientError::Timeout { operation: o, timeout_ms: t },
        ) && o == operation && t == timeout_ms),
        outcome matches CallOutcome::Refused(status) ==> (call_result(
            operation,
            timeout_ms,
            outcome,
        ) matches Err(BuildGrpcClientError::GrpcStatus { operation: o, status: s }) && o
            == operation && s == status),
{
}

/// An error is told with all that it holds.
pub proof fn client_errors_are_told_in_full(error: BuildGrpcClientError)
    ensures
        error matches BuildGrpcClientError::InvalidEndpoint { endpoint, source }
            ==> client_error_text(error) == "invalid BUILD_SERVICE_GRPC_ENDPOINT `"@ + endpoint@
            + "`: "@ + source@,
        error matches BuildGrpcClientError::Timeout { operation, timeout_ms }
            ==> client_error_text(error) == operation@ + " timed out after "@ + text::decimal(
            timeout_ms as nat,
        ) + " ms"@,
        error matches BuildGrpcClientError::GrpcStatus { operation, status }
            ==> client_error_text(error) == operation@ + " failed: "@ + status@,
{
}

} // verus!
