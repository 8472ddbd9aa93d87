//! A task and the employee it may be assigned to.

use vstd::prelude::*;

verus! {

/// Someone a task can be assigned to.
#[derive(Debug)]
pub struct Employee {
    pub name: String,
}

/// A unit of work, possibly assigned.
#[derive(Debug)]
pub struct Task {
    pub assigned_to: Option<Employee>,
}

} // verus!
