//! Finding the variant of a tagged union that is marked as the default.

use crate::error::{ErrorModel, GenerationError};
use crate::shape::{texts, variant_models, Variant, VariantModel};
use vstd::prelude::*;

verus! {

/// The positions of the marked variants among the first `n`, in declaration
/// order.
pub open spec fn marked_before(variants: Seq<VariantModel>, n: int) -> Seq<int>
    decreases n,
{
    if n <= 0 {
        Seq::empty()
    } else if variants[n - 1].is_marked_default {
        marked_before(variants, n - 1).push(n - 1)
    } else {
        marked_before(variants, n - 1)
    }
}

/// The positions of all marked variants, in declaration order.
pub open spec fn marked(variants: Seq<VariantModel>) -> Seq<int> {
    marked_before(variants, variants.len() as int)
}

/// The names of the variants at the given positions.
pub open spec fn names_at(variants: Seq<VariantModel>, positions: Seq<int>) -> Seq<Seq<char>> {
    Seq::new(positions.len(), |k: int| variants[positions[k]].name)
}

/// What resolution gives: no default variant where none is marked, the
/// marked variant's position where one is, and a failure that names every
/// marked variant where several are.
pub open spec fn resolution(variants: Seq<VariantModel>) -> Result<Option<nat>, ErrorModel> {
    let found = marked(variants);
    if found.len() == 0 {
        Ok(None)
    } else if found.len() == 1 {
        Ok(Some(found[0] as nat))
    } else {
        Err(ErrorModel::MultipleDefaultMarkers { variants: names_at(variants, found) })
    }
}

/// The position that an index stands for.
pub open spec fn position(choice: Option<usize>) -> Option<nat> {
    match choice {
        Some(i) => Some(i as nat),
        None => None,
    }
}

/// Every position listed is that of a marked variant among the first `n`,
/// every such variant is listed, and the list ascends.
pub proof fn lemma_marked_before(variants: Seq<VariantModel>, n: int)
    requires
        0 <= n <= variants.len(),
    ensures
        forall|k: int|
            0 <= k < marked_before(variants, n).len() ==> 0 <= #[trigger] marked_before(
                variants,
                n,
            )[k] < n && variants[marked_before(variants, n)[k]].is_marked_default,
        forall|i: int|
            0 <= i < n && variants[i].is_marked_default ==> marked_before(variants, n).contains(i),
        forall|k: int, l: int|
            0 <= k < l < marked_before(variants, n).len() ==> marked_before(variants, n)[k]
                < marked_before(variants, n)[l],
    decreases n,
{
    if n > 0 {
        lemma_marked_before(variants, n - 1);
        let before = marked_before(variants, n - 1);
        let now = marked_before(variants, n);
        if variants[n - 1].is_marked_default {
            assert(now[before.len() as int] == n - 1);
            assert forall|i: int| 0 <= i < n && variants[i].is_marked_default implies now.contains(
                i,
            ) by {
                if i < n - 1 {
                    assert(before.contains(i));
                    let k = choose|k: int| 0 <= k < before.len() && before[k] == i;
                    assert(now[k] == i);
                }
            }
        } else {
        }
    }
}

/// Scans a union's variants for the default marker.
///
/// Gives `None` where no variant is marked and the marked variant's index
/// where exactly one is. Where two or more are marked it fails, and the
/// failure names all of them in declaration order.
pub fn resolve_default_variant(variants: &Vec<Variant>) -> (r: Result<
    Option<usize>,
    GenerationError,
>)
    ensures
        match resolution(variant_models(variants@)) {
            Ok(choice) => r is Ok && position(r->Ok_0) == choice,
            Err(e) => r is Err && r->Err_0@ == e,
        },
{
    let ghost models = variant_models(variants@);
    let mut first: Option<usize> = None;
    let mut names: Vec<String> = Vec::new();
    let mut i: usize = 0;
    while i < variants.len()
        invariant
            i <= variants.len(),
            models == variant_models(variants@),
            texts(names@) == names_at(models, marked_before(models, i as int)),
            names.len() == marked_before(models, i as int).len(),
            names.len() == 0 ==> first is None,
            names.len() > 0 ==> first is Some && first->Some_0 as int == marked_before(
                models,
                i as int,
            )[0],
        decreases variants.len() - i,
    {
        let ghost before = marked_before(models, i as int);
        proof {
            lemma_marked_before(models, i as int);
            lemma_marked_before(models, i as int + 1);
        }
        let ghost earlier = names@;
        if variants[i].is_marked_default {
            if names.len() == 0 {
                first = Some(i);
            }
            names.push(variants[i].name.clone());
            assert(models[i as int].name == variants[i as int].name@);
            assert forall|k: int| 0 <= k < names.len() implies texts(names@)[k] == names_at(
                models,
                before.push(i as int),
            )[k] by {
                if k < earlier.len() {
                    assert(texts(earlier)[k] == names_at(models, before)[k]);
                }
            }
        } else {
        }
        i += 1;
    }
    if names.len() <= 1 {
        Ok(first)
    } else {
        Err(GenerationError::MultipleDefaultMarkers { variants: names })
    }
}

} // verus!
