//! Work from the control plane.

use crate::protocol::task::{Task, TaskChain, TaskChainModel, TaskModel};
use crate::wire::Wire;
use vstd::prelude::*;

verus! {

/// Work that was received.
#[derive(Debug)]
pub enum ReceivedWork {
    /// A task.
    Single(Task),
    /// A chain of tasks.
    Chain(TaskChain),
}

/// What a value of [`ReceivedWork`] is.
#[verifier::ext_equal]
pub enum WorkModel {
    Single(TaskModel),
    Chain(TaskChainModel),
}

impl View for ReceivedWork {
    type V = WorkModel;

    open spec fn view(&self) -> WorkModel {
        match self {
            ReceivedWork::Single(t) => WorkModel::Single(t.model()),
            ReceivedWork::Chain(c) => WorkModel::Chain(c.model()),
        }
    }
}

/// What a list of work is.
pub open spec fn works_view(s: Seq<ReceivedWork>) -> Seq<WorkModel> {
    Seq::new(s.len(), |i: int| s[i]@)
}

} // verus!
