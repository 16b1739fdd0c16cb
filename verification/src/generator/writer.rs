//! Deciding how a write plan is applied.
//!
//! Whether a target already exists is a question for the file system, asked by
//! the caller; given those answers, this module decides whether the plan may be
//! applied and which file-system steps apply it, in order.

use vstd::prelude::*;

use crate::generator::domain::{WriteOpView, WriteOperation, WritePlan};

verus! {

/// An existing target that would be overwritten.
#[derive(Debug, Clone, PartialEq, Eq)]
pub struct Collision {
    /// Existing path that would be overwritten.
    pub path: String,
}

impl Collision {
    /// The error message of a refused plan: `target already exists: <path>`.
    pub fn message(&self) -> (s: String)
        ensures
            s@ == "target already exists: "@ + self.path@,
    {
        let mut s = String::from_str("target already exists: ");
        s.append(self.path.as_str());
        s
    }
}

/// Paths of the operations whose target exists, in plan order.
pub open spec fn collision_paths(ops: Seq<WriteOpView>, existing: Seq<bool>) -> Seq<Seq<char>>
    decreases ops.len(),
{
    if ops.len() == 0 || existing.len() < ops.len() {
        Seq::empty()
    } else if existing[ops.len() - 1] {
        collision_paths(ops.drop_last(), existing.take(ops.len() - 1)).push(ops.last().path)
    } else {
        collision_paths(ops.drop_last(), existing.take(ops.len() - 1))
    }
}

/// Returns the existing paths that would block the plan when force is disabled;
/// `existing[i]` tells whether the target of operation `i` exists.
pub fn collisions(plan: &WritePlan, existing: &Vec<bool>) -> (found: Vec<Collision>)
    requires
        existing.len() == plan.operations.len(),
    ensures
        found@.map_values(|c: Collision| c.path@) == collision_paths(plan@, existing@),
{
    let mut found: Vec<Collision> = Vec::new();
    let mut i: usize = 0;
    while i < plan.operations.len()
        invariant
            i <= plan.operations.len(),
            existing.len() == plan.operations.len(),
            found@.map_values(|c: Collision| c.path@) == collision_paths(
                plan@.take(i as int),
                existing@.take(i as int),
            ),
        decreases plan.operations.len() - i,
    {
        let ghost prev = found@;
        proof {
            assert(plan@.take(i + 1).drop_last() =~= plan@.take(i as int));
            assert(existing@.take(i + 1).take(i as int) =~= existing@.take(i as int));
            assert(plan@.take(i + 1).last() == plan.operations@[i as int]@);
        }
        if existing[i] {
            found.push(Collision { path: plan.operations[i].path.clone() });
            assert(found@.map_values(|c: Collision| c.path@) =~= prev.map_values(
                |c: Collision| c.path@,
            ).push(plan.operations@[i as int].path@));
        }
        i += 1;
    }
    assert(plan@.take(plan.operations.len() as int) =~= plan@);
    assert(existing@.take(plan.operations.len() as int) =~= existing@);
    found
}

/// Checks a plan: it may be applied when forced or when no target exists;
/// otherwise the first collision, in plan order, is reported.
pub fn validate_plan(plan: &WritePlan, force: bool, existing: &Vec<bool>) -> (r: Result<(), Collision>)
    requires
        existing.len() == plan.operations.len(),
    ensures
        (r is Ok) <==> (force || collision_paths(plan@, existing@).len() == 0),
        r matches Err(c) ==> c.path@ == collision_paths(plan@, existing@)[0],
{
    let found = collisions(plan, existing);
    proof {
        if found.len() > 0 {
            assert(found@.map_values(|c: Collision| c.path@)[0] == found@[0].path@);
        }
    }
    if force || found.len() == 0 {
        return Ok(());
    }
    let mut found = found;
    Err(found.remove(0))
}

/// One file-system step of applying a plan.
#[derive(Debug, Clone, PartialEq, Eq)]
pub enum FsStep {
    /// Create the directory and its missing parents.
    CreateDir(String),
    /// Create the missing parents of the path, then write the content to it.
    WriteFile(String, String),
}

/// The step that applies one operation.
pub open spec fn step_for(op: WriteOpView, step: FsStep) -> bool {
    match op.content {
        Some(content) => step matches FsStep::WriteFile(p, c) && p@ == op.path && c@ == content,
        None => step matches FsStep::CreateDir(p) && p@ == op.path,
    }
}

/// Applies a write plan: refused with the first collision unless forced or free of
/// collisions, else the steps that apply each operation in plan order.
pub fn apply_plan(plan: &WritePlan, force: bool, existing: &Vec<bool>) -> (r: Result<Vec<FsStep>, Collision>)
    requires
        existing.len() == plan.operations.len(),
    ensures
        (r is Ok) <==> (force || collision_paths(plan@, existing@).len() == 0),
        r matches Err(c) ==> c.path@ == collision_paths(plan@, existing@)[0],
        r matches Ok(steps) ==> steps.len() == plan@.len() && forall|i: int|
            0 <= i < steps.len() ==> step_for(plan@[i], #[trigger] steps@[i]),
{
    validate_plan(plan, force, existing)?;
    let mut steps: Vec<FsStep> = Vec::new();
    let mut i: usize = 0;
    while i < plan.operations.len()
        invariant
            i <= plan.operations.len(),
            steps.len() == i,
            forall|k: int| 0 <= k < i ==> step_for(plan@[k], #[trigger] steps@[k]),
        decreases plan.operations.len() - i,
    {
        let op: &WriteOperation = &plan.operations[i];
        let step = match &op.content {
            Some(content) => FsStep::WriteFile(op.path.clone(), content.clone()),
            None => FsStep::CreateDir(op.path.clone()),
        };
        steps.push(step);
        i += 1;
    }
    Ok(steps)
}

} // verus!
