//! What a generated predicate evaluates to on a value.
//!
//! A value is seen through an observation: which variant is active, what each
//! member of that variant answers to its own predicate, and whether the
//! value equals its type's default value.

use crate::predicate::{arm_models, Arm, ArmModel, Body, BodyModel, GeneratedPredicate};
use vstd::prelude::*;

verus! {

/// What is observed of a value.
pub struct ObservationModel {
    pub active: nat,
    pub members: Seq<bool>,
    pub equals_default: bool,
}

/// What is observed of one value of a composite type.
#[derive(Debug, PartialEq, Eq)]
pub struct Observation {
    /// The position of the active variant; it plays no part for a record.
    pub active: usize,
    /// What each member of the record, or of the active variant, answers to
    /// its own predicate, in declaration order.
    pub members: Vec<bool>,
    /// Whether the value equals the default value of its type.
    pub equals_default: bool,
}

impl View for Observation {
    type V = ObservationModel;

    open spec fn view(&self) -> ObservationModel {
        ObservationModel {
            active: self.active as nat,
            members: self.members@,
            equals_default: self.equals_default,
        }
    }
}

/// Whether every member answers `true`.
pub open spec fn all_hold(members: Seq<bool>) -> bool {
    forall|i: int| 0 <= i < members.len() ==> members[i]
}

/// The first arm at or after `from` that selects the variant at position
/// `active`.
pub open spec fn find_arm(arms: Seq<ArmModel>, active: nat, from: int) -> Option<int>
    decreases arms.len() - from,
{
    if from < 0 || from >= arms.len() {
        None
    } else if arms[from].index == active {
        Some(from)
    } else {
        find_arm(arms, active, from + 1)
    }
}

/// What a body evaluates to on an observed value; `None` where the
/// observation does not fit the body: where it answers for another number of
/// members than the body asks, or where no arm selects the active variant
/// and there is no catch-all.
pub open spec fn outcome(body: BodyModel, observation: ObservationModel) -> Option<bool> {
    match body {
        BodyModel::Conjunction { operands } => if observation.members.len() == operands.len() {
            Some(all_hold(observation.members))
        } else {
            None
        },
        BodyModel::Dispatch { arms, catch_all } => match find_arm(arms, observation.active, 0) {
            Some(k) => if observation.members.len() == arms[k].condition.len() {
                Some(all_hold(observation.members))
            } else {
                None
            },
            None => if catch_all {
                Some(false)
            } else {
                None
            },
        },
        BodyModel::EqualsDefault => Some(observation.equals_default),
    }
}

/// Joins the members' answers by AND, left to right, and stops at the first
/// `false`.
pub fn conjoin(members: &Vec<bool>) -> (r: bool)
    ensures
        r == all_hold(members@),
{
    let mut i: usize = 0;
    while i < members.len()
        invariant
            i <= members.len(),
            forall|k: int| 0 <= k < i ==> members[k],
        decreases members.len() - i,
    {
        if !members[i] {
            return false;
        }
        i += 1;
    }
    true
}

/// Finds the first arm that selects the variant at position `active`.
pub fn select_arm(arms: &Vec<Arm>, active: usize) -> (r: Option<usize>)
    ensures
        match find_arm(arm_models(arms@), active as nat, 0) {
            Some(k) => r is Some && r->Some_0 as int == k && 0 <= k < arms.len(),
            None => r is None,
        },
{
    let mut i: usize = 0;
    while i < arms.len()
        invariant
            i <= arms.len(),
            find_arm(arm_models(arms@), active as nat, 0) == find_arm(
                arm_models(arms@),
                active as nat,
                i as int,
            ),
        decreases arms.len() - i,
    {
        if arms[i].index == active {
            return Some(i);
        }
        i += 1;
    }
    None
}

impl Body {
    /// Evaluates the body on an observed value.
    pub fn evaluate(&self, observation: &Observation) -> (r: Option<bool>)
        ensures
            r == outcome(self@, observation@),
    {
        match self {
            Body::Conjunction { operands } => {
                if observation.members.len() == operands.len() {
                    Some(conjoin(&observation.members))
                } else {
                    None
                }
            },
            Body::Dispatch { arms, catch_all } => {
                match select_arm(arms, observation.active) {
                    Some(k) => {
                        if observation.members.len() == arms[k].condition.len() {
                            Some(conjoin(&observation.members))
                        } else {
                            None
                        }
                    },
                    None => {
                        if *catch_all {
                            Some(false)
                        } else {
                            None
                        }
                    },
                }
            },
            Body::EqualsDefault => Some(observation.equals_default),
        }
    }
}

impl GeneratedPredicate {
    /// Evaluates the predicate on an observed value.
    pub fn evaluate(&self, observation: &Observation) -> (r: Option<bool>)
        ensures
            r == outcome(self@.body, observation@),
    {
        self.body.evaluate(observation)
    }
}

} // verus!
