//! What the RPC layer and the task runtime hand back, turned into the
//! replies and events that the session's state machines take.
//!
//! The errors of both are opaque here. They are read by the few functions
//! below whose bodies are not verified; each of those makes one access.
//! What an error of the RPC layer holds has a name, so that the contracts
//! can say that a failure carries the class and the text of the error that
//! it was made from.

use vstd::prelude::*;
use crate::capability::Reply;
use crate::error::{BlockTalkError, FailureKind, RpcFailure};
use crate::session::{Disconnector, PumpExit, ShutdownEvent};

verus! {

/// `capnp::Error`, the error of every operation of the RPC layer. Nothing
/// is known of a value of it but what the functions below read from it.
#[verifier::external_type_specification]
#[verifier::external_body]
pub struct ExRpcError(capnp::Error);

/// `tokio::task::JoinError`, which a task that did not run to its end
/// leaves behind. Nothing is known of a value of it but what the functions
/// below read from it.
#[verifier::external_type_specification]
#[verifier::external_body]
pub struct ExJoinError(tokio::task::JoinError);

/// The class of an error of the RPC layer: what its field `kind` says, the
/// four classes that the RPC protocol knows by their own names, every other
/// one as `Other`.
pub uninterp spec fn rpc_error_class(error: capnp::Error) -> FailureKind;

/// The text of an error of the RPC layer: what its field `extra` holds.
pub uninterp spec fn rpc_error_text(error: capnp::Error) -> Seq<char>;

/// Reads the field `kind` of a `capnp::Error` and gives the class that
/// stands for it: the four classes that the RPC protocol knows by their own
/// names, every other one as `Other`. The contract only gives this class
/// its name.
#[verifier::external_body]
fn rpc_error_kind(error: &capnp::Error) -> (kind: FailureKind)
    ensures
        kind == rpc_error_class(*error),
{
    match error.kind {
        capnp::ErrorKind::Failed => FailureKind::Failed,
        capnp::ErrorKind::Overloaded => FailureKind::Overloaded,
        capnp::ErrorKind::Disconnected => FailureKind::Disconnected,
        capnp::ErrorKind::Unimplemented => FailureKind::Unimplemented,
        _ => FailureKind::Other,
    }
}

/// Takes the field `extra` out of a `capnp::Error`: the text that came with
/// the failure. The contract only gives this text its name.
#[verifier::external_body]
fn rpc_error_detail(error: capnp::Error) -> (detail: String)
    ensures
        detail@ == rpc_error_text(error),
{
    error.extra
}

/// Calls `JoinError::is_cancelled`: whether the task was cancelled, as
/// opposed to having panicked. Nothing is claimed of the answer.
#[verifier::external_body]
fn join_error_is_cancelled(error: &tokio::task::JoinError) -> (cancelled: bool) {
    error.is_cancelled()
}

/// Calls `to_string` on a `JoinError`, which writes it out with its
/// `Display`: the task's id and what ended the task. Nothing is claimed of
/// the text.
#[verifier::external_body]
fn join_error_text(error: &tokio::task::JoinError) -> (text: String) {
    error.to_string()
}

/// Whether `failure` is the report of `error`: it has the error's class
/// and the error's text.
pub open spec fn reports(failure: RpcFailure, error: capnp::Error) -> bool {
    failure.kind == rpc_error_class(error) && failure.detail@ == rpc_error_text(error)
}

/// The failure that reports `error`: its class and its text, as the RPC
/// layer made them.
fn rpc_failure(error: capnp::Error) -> (failure: RpcFailure)
    ensures
        reports(failure, error),
{
    let kind = rpc_error_kind(&error);
    RpcFailure { kind, detail: rpc_error_detail(error) }
}

impl Reply {
    /// The reply that the outcome of a request makes: the granted token as
    /// it is, or the failure with the class and the text that the RPC layer
    /// gave it.
    pub fn from_rpc(outcome: Result<u64, capnp::Error>) -> (reply: Reply)
        ensures
            outcome matches Ok(token) ==> reply == Reply::Granted(token),
            outcome matches Err(error) ==> (reply matches Reply::Failed(failure) && reports(
                failure,
                error,
            )),
            outcome is Err ==> reply is Failed && (reply->Failed_0.request_error() is NodeError
                || reply->Failed_0.request_error() is ConnectionError),
    {
        match outcome {
            Ok(token) => Reply::Granted(token),
            Err(error) => Reply::Failed(rpc_failure(error)),
        }
    }
}

/// The node's reply to a registration, as `confirm` takes it: the token as
/// it is, or the failure with the class and the text that the RPC layer
/// gave it.
pub fn registration_reply(outcome: Result<Option<u64>, capnp::Error>) -> (reply: Result<
    Option<u64>,
    RpcFailure,
>)
    ensures
        outcome matches Ok(token) ==> reply == Ok::<Option<u64>, RpcFailure>(token),
        outcome matches Err(error) ==> (reply matches Err(failure) && reports(failure, error)),
{
    match outcome {
        Ok(token) => Ok(token),
        Err(error) => Err(rpc_failure(error)),
    }
}

impl ShutdownEvent {
    /// The event that the end of a disconnect makes: the token that asked
    /// for it, and a clean outcome or the report of the error that the RPC
    /// layer gave.
    pub fn disconnected(token: Disconnector, outcome: Result<(), capnp::Error>) -> (event:
        ShutdownEvent)
        ensures
            event matches ShutdownEvent::Disconnected { token: carried, outcome: found }
                && carried == token && match outcome {
                Ok(_) => found is Ok,
                Err(error) => found matches Err(failure) && reports(failure, error),
            },
    {
        match outcome {
            Ok(_) => ShutdownEvent::Disconnected { token, outcome: Ok(()) },
            Err(error) => ShutdownEvent::Disconnected { token, outcome: Err(rpc_failure(error)) },
        }
    }

    /// The event that the end of the pump task makes. A task that ran to its
    /// end ended as its result says; one that did not was cancelled or has
    /// panicked. Whatever went wrong, the teardown's result will be a
    /// `ConnectionError`.
    pub fn pump_exited(joined: Result<Result<(), capnp::Error>, tokio::task::JoinError>) -> (event:
        ShutdownEvent)
        ensures
            event matches ShutdownEvent::PumpExited(exit) && match joined {
                Ok(Ok(_)) => exit == PumpExit::Completed,
                Ok(Err(error)) => exit matches PumpExit::Protocol(failure) && reports(
                    failure,
                    error,
                ) && exit.result() matches Err(BlockTalkError::ConnectionError(_)),
                Err(_) => (exit is Panicked || exit is Cancelled) && exit.result() matches Err(
                    BlockTalkError::ConnectionError(_),
                ),
            },
    {
        let exit = match joined {
            Ok(Ok(_)) => PumpExit::Completed,
            Ok(Err(error)) => PumpExit::Protocol(rpc_failure(error)),
            Err(error) => if join_error_is_cancelled(&error) {
                PumpExit::Cancelled
            } else {
                PumpExit::Panicked(join_error_text(&error))
            },
        };
        ShutdownEvent::PumpExited(exit)
    }
}

} // verus!
