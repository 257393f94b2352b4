//! The callback bridge: how a call that a script makes to the host finds the
//! owner of the instance.

use crate::runtimes::Registry;
use crate::script::{decimal, lemma_parse_decimal, parse_runtime_id, parsed_runtime_id};
use vstd::prelude::*;

verus! {

/// A call from a script to a function of the host. The application id is the
/// engine's name for the call: the result comes back under it.
#[derive(Debug, PartialEq, Eq)]
pub struct CallbackRequest {
    pub application_id: String,
    pub module: String,
    pub function_name: String,
    pub args: String,
}

/// The mathematical content of a [`CallbackRequest`].
pub struct CallbackRequestView {
    pub application_id: Seq<char>,
    pub module: Seq<char>,
    pub function_name: Seq<char>,
    pub args: Seq<char>,
}

impl View for CallbackRequest {
    type V = CallbackRequestView;

    open spec fn view(&self) -> CallbackRequestView {
        CallbackRequestView {
            application_id: self.application_id@,
            module: self.module@,
            function_name: self.function_name@,
            args: self.args@,
        }
    }
}

/// The owner that a call from the instance named by `runtime_id` goes to:
/// none where the text names no instance of the registry.
pub open spec fn callback_owner(registry: Map<usize, u64>, runtime_id: Seq<char>) -> Option<u64> {
    match parsed_runtime_id(runtime_id) {
        Some(id) => if registry.contains_key(id) {
            Some(registry[id])
        } else {
            None
        },
        None => None,
    }
}

/// Routes a call that a script of the instance `runtime_id` makes to the
/// host: the owner of the instance, and the request to notify it of.
///
/// Where the id names no instance of the registry, because the text is no
/// id or the instance has left, there is nobody to notify. The answer is
/// `None`, nothing is sent, and the call of the script stays pending for
/// good.
pub fn op_apply(
    registry: &Registry,
    runtime_id: &str,
    application_id: String,
    module: String,
    function_name: String,
    args: String,
) -> (notification: Option<(u64, CallbackRequest)>)
    ensures
        match notification {
            Some((owner, request)) => callback_owner(registry@, runtime_id@) == Some(owner)
                && request@ == (CallbackRequestView {
                application_id: application_id@,
                module: module@,
                function_name: function_name@,
                args: args@,
            }),
            None => callback_owner(registry@, runtime_id@) is None,
        },
{
    match parse_runtime_id(runtime_id) {
        Some(id) => match registry.get(id) {
            Some(owner) => Some(
                (owner, CallbackRequest { application_id, module, function_name, args }),
            ),
            None => None,
        },
        None => None,
    }
}

/// A call that names its instance as the engine was told, by the id in
/// decimal, goes to the owner of the instance for as long as the instance is
/// in the registry, and to nobody once it has left.
pub proof fn lemma_callback_finds_the_owner(
    registry: Map<usize, u64>,
    runtime_id: usize,
    owner: u64,
)
    ensures
        callback_owner(registry.insert(runtime_id, owner), decimal(runtime_id as nat)) == Some(
            owner,
        ),
        callback_owner(registry.remove(runtime_id), decimal(runtime_id as nat)) is None,
{
    lemma_parse_decimal(runtime_id);
}

} // verus!
