//! What holds of every generated predicate.

use crate::error::ErrorModel;
use crate::eval::{all_hold, find_arm, outcome, ObservationModel};
use crate::predicate::{arm_of, default_body_of, empty_body};
use crate::resolve::{lemma_marked_before, marked, marked_before, names_at};
use crate::shape::{RecordModel, ShapeModel, VariantModel};
use vstd::prelude::*;

verus! {

/// An observation with the answer of one member replaced.
pub open spec fn with_member(observation: ObservationModel, i: int, answer: bool) -> ObservationModel {
    ObservationModel {
        active: observation.active,
        members: observation.members.update(i, answer),
        equals_default: observation.equals_default,
    }
}

/// In the dispatch with one arm per variant, the arm that selects a variant
/// is the one at the variant's own position.
pub proof fn lemma_find_own_arm(variants: Seq<VariantModel>, active: int, from: int)
    requires
        0 <= from <= active < variants.len(),
    ensures
        find_arm(Seq::new(variants.len(), |i: int| arm_of(variants, i)), active as nat, from)
            == Some(active),
    decreases active - from,
{
    if from < active {
        lemma_find_own_arm(variants, active, from + 1);
    }
}

/// Where no variant is marked, none is found among the first `n`.
pub proof fn lemma_none_marked(variants: Seq<VariantModel>, n: int)
    requires
        0 <= n <= variants.len(),
        forall|j: int| 0 <= j < variants.len() ==> !variants[j].is_marked_default,
    ensures
        marked_before(variants, n) == Seq::<int>::empty(),
    decreases n,
{
    if n > 0 {
        lemma_none_marked(variants, n - 1);
    }
}

/// Where exactly the variant at `d` is marked, it is the one found.
pub proof fn lemma_one_marked(variants: Seq<VariantModel>, d: int, n: int)
    requires
        0 <= n <= variants.len(),
        0 <= d < variants.len(),
        forall|j: int| 0 <= j < variants.len() ==> (variants[j].is_marked_default <==> j == d),
    ensures
        marked_before(variants, n) == (if n > d {
            seq![d]
        } else {
            Seq::<int>::empty()
        }),
    decreases n,
{
    if n > 0 {
        lemma_one_marked(variants, d, n - 1);
        if n - 1 == d {
            assert(Seq::<int>::empty().push(d) =~= seq![d]);
        }
    }
}

/// For every record without fields, both predicates hold.
pub proof fn law_fieldless_record_holds(members: RecordModel, observation: ObservationModel)
    requires
        members.width() == 0,
        observation.members.len() == 0,
    ensures
        outcome(empty_body(ShapeModel::Record { members }), observation) == Some(true),
        default_body_of(ShapeModel::Record { members }) is Ok,
        outcome(default_body_of(ShapeModel::Record { members })->Ok_0, observation) == Some(true),
{
}

/// For every record, each predicate holds if and only if every member's own
/// predicate holds.
pub proof fn law_record_is_conjunction(members: RecordModel, observation: ObservationModel)
    requires
        observation.members.len() == members.width(),
    ensures
        outcome(empty_body(ShapeModel::Record { members }), observation) == Some(
            all_hold(observation.members),
        ),
        default_body_of(ShapeModel::Record { members }) is Ok,
        outcome(default_body_of(ShapeModel::Record { members })->Ok_0, observation) == Some(
            all_hold(observation.members),
        ),
{
}

/// For every record, a single member whose own predicate fails makes each
/// predicate fail, whatever the other members answer.
pub proof fn law_record_member_flips(members: RecordModel, observation: ObservationModel, i: int)
    requires
        observation.members.len() == members.width(),
        0 <= i < members.width(),
    ensures
        outcome(empty_body(ShapeModel::Record { members }), with_member(observation, i, false))
            == Some(false),
        default_body_of(ShapeModel::Record { members }) is Ok,
        outcome(
            default_body_of(ShapeModel::Record { members })->Ok_0,
            with_member(observation, i, false),
        ) == Some(false),
{
    let changed = with_member(observation, i, false);
    assert(!changed.members[i]);
}

/// For every tagged union, the is-empty predicate holds exactly when all
/// members of the active variant are empty, whichever variant is active.
pub proof fn law_union_is_empty_by_variant(
    variants: Seq<VariantModel>,
    observation: ObservationModel,
)
    requires
        observation.active < variants.len(),
        observation.members.len() == variants[observation.active as int].shape.width(),
    ensures
        outcome(empty_body(ShapeModel::TaggedUnion { variants }), observation) == Some(
            all_hold(observation.members),
        ),
{
    lemma_find_own_arm(variants, observation.active as int, 0);
}

/// For every tagged union with exactly one marked variant, the is-default
/// predicate holds exactly when that variant is active and all its members
/// are the default; for every other variant it fails, whatever the members
/// answer.
pub proof fn law_union_marked_default(
    variants: Seq<VariantModel>,
    d: int,
    observation: ObservationModel,
)
    requires
        0 <= d < variants.len(),
        forall|j: int| 0 <= j < variants.len() ==> (variants[j].is_marked_default <==> j == d),
        observation.active < variants.len(),
        observation.members.len() == variants[observation.active as int].shape.width(),
    ensures
        default_body_of(ShapeModel::TaggedUnion { variants }) is Ok,
        outcome(default_body_of(ShapeModel::TaggedUnion { variants })->Ok_0, observation) == Some(
            observation.active == d && all_hold(observation.members),
        ),
{
    lemma_one_marked(variants, d, variants.len() as int);
    let arms = seq![arm_of(variants, d)];
    assert(find_arm(arms, observation.active, 1) is None);
    if observation.active == d {
        assert(find_arm(arms, observation.active, 0) == Some(0int));
    } else {
        assert(find_arm(arms, observation.active, 0) is None);
    }
}

/// For every tagged union without a marked variant, the is-default predicate
/// is equality with the type's default value; so it holds of the default
/// value itself.
pub proof fn law_union_unmarked_default(
    variants: Seq<VariantModel>,
    observation: ObservationModel,
)
    requires
        forall|j: int| 0 <= j < variants.len() ==> !variants[j].is_marked_default,
    ensures
        default_body_of(ShapeModel::TaggedUnion { variants }) is Ok,
        outcome(default_body_of(ShapeModel::TaggedUnion { variants })->Ok_0, observation) == Some(
            observation.equals_default,
        ),
        observation.equals_default ==> outcome(
            default_body_of(ShapeModel::TaggedUnion { variants })->Ok_0,
            observation,
        ) == Some(true),
{
    lemma_none_marked(variants, variants.len() as int);
}

/// For every tagged union with two marked variants, generation of the
/// is-default predicate fails, and the failure names both.
pub proof fn law_two_markers_fail(variants: Seq<VariantModel>, i: int, j: int)
    requires
        0 <= i < variants.len(),
        0 <= j < variants.len(),
        i != j,
        variants[i].is_marked_default,
        variants[j].is_marked_default,
    ensures
        default_body_of(ShapeModel::TaggedUnion { variants }) matches Err(
            ErrorModel::MultipleDefaultMarkers { variants: names },
        ) && names == names_at(variants, marked(variants)) && names.contains(variants[i].name)
            && names.contains(variants[j].name),
{
    lemma_marked_before(variants, variants.len() as int);
    let found = marked(variants);
    assert(found.contains(i));
    assert(found.contains(j));
    let p = choose|p: int| 0 <= p < found.len() && found[p] == i;
    let q = choose|q: int| 0 <= q < found.len() && found[q] == j;
    assert(p != q);
    let names = names_at(variants, found);
    assert(names[p] == variants[i].name);
    assert(names[q] == variants[j].name);
}

} // verus!
