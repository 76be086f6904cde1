//! Visibility decisions of the field renderables.

use crate::ui_state::EmLayerVisibility;
use vstd::prelude::*;

verus! {

/// A layer of the electromagnetism view, in drawing order.
#[derive(Debug, Clone, Copy, PartialEq, Eq, Structural)]
pub enum EmLayer {
    ScalarPotential,
    Electric,
    Magnetic,
    VectorPotential,
}

/// The layers in drawing order, each with whether it is visible and whether its samples are
/// cached.
pub open spec fn em_layer_steps(visible: EmLayerVisibility, cached: EmLayerVisibility) -> Seq<
    (EmLayer, bool, bool),
> {
    seq![
        (EmLayer::ScalarPotential, visible.scalar_potential, cached.scalar_potential),
        (EmLayer::Electric, visible.electric, cached.electric),
        (EmLayer::Magnetic, visible.magnetic, cached.magnetic),
        (EmLayer::VectorPotential, visible.vector_potential, cached.vector_potential),
    ]
}

/// Visible layers of `steps`, in order, up to the first visible one whose samples are missing.
pub open spec fn drawn_layers(steps: Seq<(EmLayer, bool, bool)>) -> Seq<EmLayer>
    decreases steps.len(),
{
    if steps.len() == 0 {
        seq![]
    } else {
        let (layer, visible, cached) = steps[0];
        if !visible {
            drawn_layers(steps.drop_first())
        } else if !cached {
            seq![]
        } else {
            seq![layer] + drawn_layers(steps.drop_first())
        }
    }
}

/// The electromagnetism layers to draw, in order: scalar potential spheres, then electric,
/// magnetic and vector potential arrows. Hidden layers are skipped; drawing stops at the first
/// visible layer whose samples are not cached.
pub fn em_render_plan(visible: EmLayerVisibility, cached: EmLayerVisibility) -> (r: Vec<EmLayer>)
    ensures
        r@ == drawn_layers(em_layer_steps(visible, cached)),
{
    let steps: [(EmLayer, bool, bool); 4] = [
        (EmLayer::ScalarPotential, visible.scalar_potential, cached.scalar_potential),
        (EmLayer::Electric, visible.electric, cached.electric),
        (EmLayer::Magnetic, visible.magnetic, cached.magnetic),
        (EmLayer::VectorPotential, visible.vector_potential, cached.vector_potential),
    ];
    let ghost all = em_layer_steps(visible, cached);
    assert(steps@ =~= all);
    let mut plan: Vec<EmLayer> = Vec::new();
    let mut i: usize = 0;
    assert(all.skip(0) =~= all);
    assert(plan@ + drawn_layers(all) =~= drawn_layers(all));
    while i < 4
        invariant
            i <= 4,
            steps@ == all,
            all == em_layer_steps(visible, cached),
            plan@ + drawn_layers(all.skip(i as int)) == drawn_layers(all),
        decreases 4 - i,
    {
        let (layer, shown, present) = steps[i];
        assert(all.skip(i as int).drop_first() =~= all.skip(i + 1));
        if shown {
            if !present {
                assert(drawn_layers(all.skip(i as int)) =~= Seq::<EmLayer>::empty());
                assert(plan@ + Seq::<EmLayer>::empty() =~= plan@);
                return plan;
            }
            assert(plan@.push(layer) + drawn_layers(all.skip(i + 1)) =~= plan@ + (seq![layer]
                + drawn_layers(all.skip(i + 1))));
            plan.push(layer);
        }
        i = i + 1;
    }
    assert(all.skip(4) =~= Seq::<(EmLayer, bool, bool)>::empty());
    assert(plan@ + seq![] =~= plan@);
    plan
}

/// Whether `layer` is switched on in `v`.
pub open spec fn layer_flag(v: EmLayerVisibility, layer: EmLayer) -> bool {
    match layer {
        EmLayer::ScalarPotential => v.scalar_potential,
        EmLayer::Electric => v.electric,
        EmLayer::Magnetic => v.magnetic,
        EmLayer::VectorPotential => v.vector_potential,
    }
}

proof fn lemma_drawn_when_all_cached(steps: Seq<(EmLayer, bool, bool)>)
    requires
        forall|i: int| 0 <= i < steps.len() ==> (#[trigger] steps[i]).1 == steps[i].2,
    ensures
        forall|layer: EmLayer|
            drawn_layers(steps).contains(layer) <==> exists|i: int|
                0 <= i < steps.len() && (#[trigger] steps[i]).0 == layer && steps[i].1,
    decreases steps.len(),
{
    if steps.len() > 0 {
        let rest = steps.drop_first();
        assert forall|i: int| 0 <= i < rest.len() implies (#[trigger] rest[i]).1 == rest[i].2 by {
            assert(rest[i] == steps[i + 1]);
        }
        lemma_drawn_when_all_cached(rest);
        assert forall|layer: EmLayer|
            drawn_layers(steps).contains(layer) <==> exists|i: int|
                0 <= i < steps.len() && (#[trigger] steps[i]).0 == layer && steps[i].1 by {
            if drawn_layers(steps).contains(layer) {
                if steps[0].1 && steps[0].0 == layer {
                } else {
                    assert(drawn_layers(rest).contains(layer)) by {
                        if steps[0].1 {
                            let k = choose|k: int|
                                0 <= k < drawn_layers(steps).len() && drawn_layers(steps)[k]
                                    == layer;
                            assert(drawn_layers(steps) == seq![steps[0].0] + drawn_layers(rest));
                            assert(drawn_layers(rest)[k - 1] == layer);
                        }
                    }
                    let i = choose|i: int|
                        0 <= i < rest.len() && (#[trigger] rest[i]).0 == layer && rest[i].1;
                    assert(steps[i + 1] == rest[i]);
                }
            }
            if exists|i: int| 0 <= i < steps.len() && (#[trigger] steps[i]).0 == layer && steps[i].1 {
                let i = choose|i: int|
                    0 <= i < steps.len() && (#[trigger] steps[i]).0 == layer && steps[i].1;
                if i == 0 {
                    assert(drawn_layers(steps)[0] == layer);
                } else {
                    assert(rest[i - 1] == steps[i]);
                    assert(drawn_layers(rest).contains(layer));
                    let k = choose|k: int|
                        0 <= k < drawn_layers(rest).len() && drawn_layers(rest)[k] == layer;
                    if steps[0].1 {
                        assert(drawn_layers(steps)[k + 1] == layer);
                    }
                }
            }
        }
    }
}

/// When the samples of every visible layer are cached (the cache is built from the visible
/// layers), exactly the visible layers are drawn, each once, and only visible layers are ever
/// drawn.
pub proof fn lemma_em_plan_draws_visible_layers(visible: EmLayerVisibility, cached: EmLayerVisibility)
    ensures
        forall|layer: EmLayer|
            drawn_layers(em_layer_steps(visible, cached)).contains(layer) ==> layer_flag(
                visible,
                layer,
            ),
        forall|layer: EmLayer|
            drawn_layers(em_layer_steps(visible, visible)).contains(layer) <==> layer_flag(
                visible,
                layer,
            ),
        drawn_layers(em_layer_steps(visible, visible)).no_duplicates(),
{
    reveal_with_fuel(drawn_layers, 5);
    let steps = em_layer_steps(visible, cached);
    assert(steps.drop_first() =~= steps.skip(1));
    assert(steps.skip(1).drop_first() =~= steps.skip(2));
    assert(steps.skip(2).drop_first() =~= steps.skip(3));
    assert(steps.skip(3).drop_first() =~= steps.skip(4));
    let full = em_layer_steps(visible, visible);
    assert(full.drop_first() =~= full.skip(1));
    assert(full.skip(1).drop_first() =~= full.skip(2));
    assert(full.skip(2).drop_first() =~= full.skip(3));
    assert(full.skip(3).drop_first() =~= full.skip(4));
    lemma_drawn_when_all_cached(full);
    assert forall|layer: EmLayer| layer_flag(visible, layer) implies drawn_layers(full).contains(
        layer,
    ) by {
        let i = match layer {
            EmLayer::ScalarPotential => 0int,
            EmLayer::Electric => 1int,
            EmLayer::Magnetic => 2int,
            EmLayer::VectorPotential => 3int,
        };
        assert(full[i].0 == layer && full[i].1);
    }
}

/// Returns whether arrows are rendered: electromagnetism arrows always show when some vector
/// layer is visible, regular field arrows follow the tangent view.
pub fn should_show_vector_render(
    em_has_visible_vectors: bool,
    field_is_vector_like: bool,
    tangent_shows_vector: bool,
) -> (b: bool)
    ensures
        b == (em_has_visible_vectors || (field_is_vector_like && tangent_shows_vector)),
{
    em_has_visible_vectors || (field_is_vector_like && tangent_shows_vector)
}

/// Number of arrows to reserve room for: one per sample and visible electromagnetism vector
/// layer (at least one layer), or one per sample for the regular field.
pub fn render_field_capacity(sample_count: usize, em_vector_layers: Option<usize>) -> (n: usize)
    requires
        sample_count * 3 <= usize::MAX,
        em_vector_layers matches Some(k) ==> k <= 3,
    ensures
        n == sample_count * match em_vector_layers {
            None => 1,
            Some(k) => if k == 0 {
                1
            } else {
                k
            },
        },
{
    let layers: usize = match em_vector_layers {
        None => 1,
        Some(k) => if k == 0 {
            1
        } else {
            k
        },
    };
    assert(sample_count * layers <= sample_count * 3) by (nonlinear_arith)
        requires
            layers <= 3,
    ;
    sample_count * layers
}

} // verus!
