//! Who may still refer to an operation, and why those references are good.
use vstd::prelude::*;

use crate::history::{after_history, is_history, Step};
use crate::op::RawOp;

verus! {

/// The operations by who may refer to them.
pub struct Owners {
    /// Created, and not yet answered for by the driver.
    pub fresh: Set<usize>,
    /// Pushed, and the key is not given up.
    pub held: Set<usize>,
    /// Pushed, and the driver has not reported the completion.
    pub submitted: Set<usize>,
}

impl Owners {
    /// Nobody refers to anything.
    pub open spec fn none() -> Owners {
        Owners { fresh: Set::empty(), held: Set::empty(), submitted: Set::empty() }
    }

    /// Someone refers to the operation.
    pub open spec fn refer_to(self, k: usize) -> bool {
        self.fresh.contains(k) || self.held.contains(k) || self.submitted.contains(k)
    }

    /// The step is taken by someone who may. A new operation gets user data that
    /// no operation has; it is pushed once; keys are used while they are held;
    /// the driver works on what it was handed, and reports each operation once.
    pub open spec fn permit<T>(self, ops: Map<usize, RawOp<T>>, step: Step<T>) -> bool {
        match step {
            Step::Create(key, _) => !ops.contains_key(key.user_data()),
            Step::Push(key, _) => self.fresh.contains(key.user_data()),
            Step::Work(k, _) => self.fresh.contains(k) || self.submitted.contains(k),
            Step::Cancel(key) => self.held.contains(key.user_data()),
            Step::Pop(key) => self.held.contains(key.user_data()),
            Step::UpdateWaker(key, _) => self.held.contains(key.user_data()),
            Step::Notify(entry) => self.submitted.contains(entry.user_data),
        }
    }

    /// Who refers to what after the step.
    pub open spec fn after<T>(self, ops: Map<usize, RawOp<T>>, step: Step<T>) -> Owners {
        let k = step.user_data();
        match step {
            Step::Create(_, _) => Owners { fresh: self.fresh.insert(k), ..self },
            Step::Push(_, reply) => if reply is Ready {
                Owners { fresh: self.fresh.remove(k), ..self }
            } else {
                Owners {
                    fresh: self.fresh.remove(k),
                    held: self.held.insert(k),
                    submitted: self.submitted.insert(k),
                }
            },
            Step::Cancel(_) => Owners { held: self.held.remove(k), ..self },
            Step::Pop(_) => if ops[k].completed() {
                Owners { held: self.held.remove(k), ..self }
            } else {
                self
            },
            Step::Notify(_) => Owners { submitted: self.submitted.remove(k), ..self },
            Step::UpdateWaker(_, _) => self,
            Step::Work(_, _) => self,
        }
    }

    /// The operation is there exactly if someone refers to it. One whose key is
    /// held alone is completed, and one that the driver has alone is cancelled.
    pub open spec fn match_operation<T>(self, ops: Map<usize, RawOp<T>>, k: usize) -> bool {
        &&& ops.contains_key(k) == self.refer_to(k)
        &&& self.fresh.contains(k) ==> {
            &&& !self.held.contains(k)
            &&& !self.submitted.contains(k)
            &&& !ops[k].completed()
            &&& !ops[k].cancelled
        }
        &&& self.held.contains(k) || self.submitted.contains(k) ==> {
            &&& ops[k].completed() == !self.submitted.contains(k)
            &&& ops[k].cancelled == !self.held.contains(k)
        }
    }
}

/// Who refers to what after a history.
pub open spec fn owners_after<T>(steps: Seq<Step<T>>) -> Owners
    decreases steps.len(),
{
    if steps.len() == 0 {
        Owners::none()
    } else {
        owners_after(steps.drop_last()).after(after_history(steps.drop_last()), steps.last())
    }
}

/// Every step was taken by someone who may.
pub open spec fn is_permitted<T>(steps: Seq<Step<T>>) -> bool
    decreases steps.len(),
{
    steps.len() > 0 ==> {
        &&& is_permitted(steps.drop_last())
        &&& owners_after(steps.drop_last()).permit(after_history(steps.drop_last()), steps.last())
    }
}

/// As long as keys are used only while they are held, and the driver reports each
/// operation that it was handed once, every step finds its operation there, and
/// an operation is there exactly as long as its key is held or the driver has not
/// reported it.
pub proof fn law_operations_live_as_long_as_referred_to<T>(steps: Seq<Step<T>>)
    requires
        is_permitted(steps),
    ensures
        is_history(steps),
        forall|k: usize| #[trigger]
            owners_after(steps).match_operation(after_history(steps), k),
    decreases steps.len(),
{
    if steps.len() > 0 {
        law_operations_live_as_long_as_referred_to(steps.drop_last());
        let ops = after_history(steps.drop_last());
        let owners = owners_after(steps.drop_last());
        assert(owners.match_operation(ops, steps.last().user_data()));
        assert forall|k: usize| #[trigger]
            owners_after(steps).match_operation(after_history(steps), k) by {
            assert(owners.match_operation(ops, k));
        }
    }
}

} // verus!
