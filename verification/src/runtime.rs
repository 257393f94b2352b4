//! What a caller is told: the outcome of each operation on a handle, from
//! what became of the command on its way to the worker.

use crate::error::{Error, ErrorView};
use crate::runtimes::Registry;
use crate::worker::result_view;
use vstd::prelude::*;

verus! {

/// The mathematical content of an outcome that carries no value.
pub open spec fn stop_result_view(result: Result<(), Error>) -> Result<(), ErrorView> {
    match result {
        Ok(()) => Ok(()),
        Err(error) => Err(error@),
    }
}

/// The outcome of starting the instance that was entered in the registry as
/// `runtime_id`. `failure` is the diagnostic of a bootstrap that failed: the
/// instance then leaves the registry again, and the caller gets no handle.
pub fn start_runtime(registry: &mut Registry, runtime_id: usize, failure: Option<String>) -> (reply:
    Result<usize, Error>)
    ensures
        match failure {
            Some(message) => {
                &&& final(registry)@ == old(registry)@.remove(runtime_id)
                &&& old(registry)@.contains_key(runtime_id) ==> final(registry).next_id()
                    == runtime_id
                &&& reply matches Err(error)
                &&& error@ == ErrorView::execution_error(Some(message@))
            },
            None => {
                &&& final(registry)@ == old(registry)@
                &&& final(registry).next_id() == old(registry).next_id()
                &&& reply == Ok::<usize, Error>(runtime_id)
            },
        },
{
    match failure {
        Some(message) => {
            let _ = registry.remove(runtime_id);
            Err(Error::execution_error(Some(message)))
        },
        None => Ok(runtime_id),
    }
}

/// The outcome of an `Eval`. `sent` says whether the queue took the command,
/// and `received` is what came back on the reply channel, `None` where the
/// channel was given up without an answer.
///
/// A queue that does not take the command belongs to a dead instance. A
/// reply channel that was given up means that the evaluation was abandoned.
pub fn eval(sent: bool, received: Option<Result<String, Error>>) -> (reply: Result<String, Error>)
    ensures
        result_view(reply) == if !sent {
            Err(ErrorView::dead_runtime_error())
        } else {
            match received {
                Some(result) => result_view(result),
                None => Err(ErrorView::execution_error(None)),
            }
        },
{
    if !sent {
        return Err(Error::dead_runtime_error());
    }
    match received {
        Some(result) => result,
        None => Err(Error::execution_error(None)),
    }
}

/// The outcome of a `Stop`, from the same two facts as for an `Eval`. An
/// instance that went away without an answer is dead.
pub fn stop_runtime(sent: bool, received: Option<Result<(), Error>>) -> (reply: Result<(), Error>)
    ensures
        stop_result_view(reply) == if !sent {
            Err(ErrorView::dead_runtime_error())
        } else {
            match received {
                Some(result) => stop_result_view(result),
                None => Err(ErrorView::dead_runtime_error()),
            }
        },
{
    if !sent {
        return Err(Error::dead_runtime_error());
    }
    match received {
        Some(result) => result,
        None => Err(Error::dead_runtime_error()),
    }
}

/// The outcome of an `ApplyReply`, which has no reply channel: it is done
/// once the queue has taken it.
pub fn apply_reply(sent: bool) -> (reply: Result<(), Error>)
    ensures
        stop_result_view(reply) == if sent {
            Ok(())
        } else {
            Err(ErrorView::dead_runtime_error())
        },
{
    if sent {
        Ok(())
    } else {
        Err(Error::dead_runtime_error())
    }
}

} // verus!
