//! What the background worker does when a destination already exists.
use vstd::prelude::*;
use crate::command::Options;

verus! {

#[derive(Clone, Copy, Debug, PartialEq, Eq, Structural)]
pub enum CollisionAction {
    /// The destination is free.
    Proceed,
    /// The destination is replaced.
    Overwrite,
    /// This file is left out of the batch.
    Skip,
}

/// What happens to one file whose destination does (or does not) exist;
/// `None` when the batch must fail.
pub open spec fn collision_action(options: Options, exists: bool) -> Option<CollisionAction> {
    if !exists {
        Some(CollisionAction::Proceed)
    } else if options.overwrite {
        Some(CollisionAction::Overwrite)
    } else if options.skip_exist {
        Some(CollisionAction::Skip)
    } else {
        None
    }
}

/// Plans a batch given which destinations exist: one action per file, or
/// the index of the first collision that neither option allows, on which
/// the whole batch fails before any file is touched.
pub fn plan_batch(options: Options, exists: &Vec<bool>) -> (r: Result<Vec<CollisionAction>, usize>)
    ensures
        match r {
            Ok(v) => v@.len() == exists@.len() && forall|k: int| 0 <= k < v@.len()
                ==> collision_action(options, exists@[k]) == Some(#[trigger] v@[k]),
            Err(i) => i < exists@.len() && collision_action(options, exists@[i as int]) is None
                && forall|k: int| 0 <= k < i ==> #[trigger] collision_action(options, exists@[k]) is Some,
        },
{
    let mut plan: Vec<CollisionAction> = Vec::new();
    let mut i: usize = 0;
    while i < exists.len()
        invariant
            i <= exists@.len(),
            plan@.len() == i,
            forall|k: int| 0 <= k < i ==> collision_action(options, exists@[k]) == Some(#[trigger] plan@[k]),
        decreases exists@.len() - i,
    {
        let a = if !exists[i] {
            CollisionAction::Proceed
        } else if options.overwrite {
            CollisionAction::Overwrite
        } else if options.skip_exist {
            CollisionAction::Skip
        } else {
            assert forall|k: int| 0 <= k < i implies #[trigger] collision_action(options, exists@[k]) is Some by {
                assert(collision_action(options, exists@[k]) == Some(plan@[k]));
            }
            return Err(i);
        };
        plan.push(a);
        i = i + 1;
    }
    Ok(plan)
}

} // verus!
