//! The nodes of a flow.

use crate::engine::context::{Context, CONTEXT_RESULT};
use crate::engine::status::Status;
use crate::json::{clone_value, json_text};
use std::sync::Arc;
use vstd::prelude::*;

verus! {

/// Why a node or a flow gave up.
#[derive(Debug)]
pub struct FlowError {
    pub message: String,
}

impl Clone for FlowError {
    fn clone(&self) -> (r: Self)
        ensures
            r == *self,
    {
        FlowError { message: self.message.clone() }
    }
}

/// How a node ended: its status, and a message for the reader.
#[derive(Debug)]
pub struct NodeResult<S: Status> {
    pub status: S,
    pub message: String,
}

impl<S: Status> Default for NodeResult<S> {
    /// The result of a node that ran well: the default status and no message.
    fn default() -> (r: Self)
        ensures
            call_ensures(S::default, (), r.status),
            r.message@ == Seq::<char>::empty(),
    {
        NodeResult { status: S::default(), message: String::new() }
    }
}

/// Whether `result` is what `settle` makes of `outcome`, in a context that
/// held `before` and holds `after`. A value is left in the context as the
/// result, and the node ended well: with the default status and no message.
/// A failure gives the failed status with the failure's message, and leaves
/// the context as it was.
pub open spec fn settled<S: Status>(
    before: Context,
    after: Context,
    outcome: Result<serde_json::Value, FlowError>,
    result: NodeResult<S>,
) -> bool {
    match outcome {
        Ok(value) => {
            &&& call_ensures(S::default, (), result.status)
            &&& result.message@ == Seq::<char>::empty()
            &&& after.map() == before.map().insert(CONTEXT_RESULT@, after.map()[CONTEXT_RESULT@])
            &&& json_text(after.map()[CONTEXT_RESULT@]) == json_text(value)
            &&& after.id_text() == before.id_text()
            &&& after.channel() == before.channel()
        },
        Err(error) => {
            &&& call_ensures(S::failed, (), result.status)
            &&& result.message@ == error.message@
            &&& after == before
        },
    }
}

/// What a node makes of the outcome of its work where it does not say
/// otherwise; see `settled`.
pub fn settle<S: Status>(
    context: &mut Context,
    outcome: &Result<serde_json::Value, FlowError>,
) -> (r: NodeResult<S>)
    ensures
        settled(*old(context), *final(context), *outcome, r),
{
    match outcome {
        Ok(value) => {
            context.set(CONTEXT_RESULT, clone_value(value));
            NodeResult::default()
        },
        Err(error) => NodeResult { status: S::failed(), message: error.message.clone() },
    }
}

/// One step of a flow. The flow calls `prepare`, `execute` and `after_exec`
/// in this order; `after_exec` turns the outcome of `execute` into the
/// status by which the flow goes on. A node that does not say otherwise
/// needs no preparation, and settles the outcome of its work as `settle` does.
pub trait Node<S: Status>: Send + Sync {
    fn prepare(&self, context: &mut Context) -> (r: Result<(), FlowError>)
        default_ensures
            r is Ok,
            *final(context) == *old(context),
    {
        Ok(())
    }

    fn execute(&self, context: &mut Context) -> Result<serde_json::Value, FlowError>;

    fn after_exec(
        &self,
        context: &mut Context,
        result: &Result<serde_json::Value, FlowError>,
    ) -> (r: Result<NodeResult<S>, FlowError>)
        default_ensures
            r matches Ok(settlement) && settled(
                *old(context),
                *final(context),
                *result,
                settlement,
            ),
    {
        Ok(settle(context, result))
    }
}

/// A shared pointer to a node is a node: it lends the context to the node
/// that it points to, as it is, and hands back what that node answers and
/// the context as that node leaves it.
impl<S: Status, T: Node<S> + ?Sized> Node<S> for Arc<T> {
    fn prepare(&self, context: &mut Context) -> (r: Result<(), FlowError>)
        ensures
            exists|lent: &mut Context|
                {
                    &&& mut_ref_current(lent) == *old(context)
                    &&& mut_ref_future(lent) == *final(context)
                    &&& #[trigger] call_ensures(T::prepare, (&**self, lent), r)
                },
    {
        (**self).prepare(context)
    }

    fn execute(&self, context: &mut Context) -> (r: Result<serde_json::Value, FlowError>)
        ensures
            exists|lent: &mut Context|
                {
                    &&& mut_ref_current(lent) == *old(context)
                    &&& mut_ref_future(lent) == *final(context)
                    &&& #[trigger] call_ensures(T::execute, (&**self, lent), r)
                },
    {
        (**self).execute(context)
    }

    fn after_exec(
        &self,
        context: &mut Context,
        result: &Result<serde_json::Value, FlowError>,
    ) -> (r: Result<NodeResult<S>, FlowError>)
        ensures
            exists|lent: &mut Context|
                {
                    &&& mut_ref_current(lent) == *old(context)
                    &&& mut_ref_future(lent) == *final(context)
                    &&& #[trigger] call_ensures(T::after_exec, (&**self, lent, result), r)
                },
    {
        (**self).after_exec(context, result)
    }
}

} // verus!
