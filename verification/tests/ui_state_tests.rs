use field_grid::dive::{
    dual_form_sample_capacity, requested_view, DiveAction, DiveControl, DiveMode, TangentView,
};
use field_grid::field_rendering::{
    em_render_plan, render_field_capacity, should_show_vector_render, EmLayer,
};
use field_grid::frame::{pending_apply_step, ApplyStep, PendingSource};
use field_grid::ui_state::{
    runtime_field_shape, ControlTab, EmGauge, EmLayerVisibility, EmMode, EmUiDrafts, EqRender,
    FieldKind, GridUiDrafts, LegendKind, RuntimeFieldShape, SpacialEqs,
};

fn eq_of(s: &str) -> EqRender<String> {
    EqRender::new(s.to_string(), s.to_string())
}

fn eqs_of(x: &str, y: &str, z: &str) -> SpacialEqs<String> {
    SpacialEqs { x: eq_of(x), y: eq_of(y), z: eq_of(z) }
}

fn default_state() -> GridUiDrafts<String> {
    GridUiDrafts {
        render_3d: true,
        coords_sys: eqs_of("x*cos(y) * sin(z)", "x*sin(y) * sin(z)", "x * cos(z)"),
        field_kind: FieldKind::Vector,
        scalar_field: eq_of("x"),
        field: eqs_of("1", "0", "0"),
        render_d: false,
        normalize_field: false,
        em: EmUiDrafts {
            enabled: false,
            mode: EmMode::Potentials,
            gauge: EmGauge::Coulomb,
            phi: eq_of("0"),
            vector_potential: eqs_of("0", "sin(z - t)", "0"),
            electric_field: eqs_of("0", "cos(z - t)", "0"),
            magnetic_field: eqs_of("-cos(z - t)", "0", "0"),
            normalize_vectors: false,
            layers: EmLayerVisibility {
                scalar_potential: false,
                vector_potential: false,
                electric: true,
                magnetic: true,
            },
            reset_counter: 0,
            running: true,
        },
    }
}

#[test]
fn control_tab_defaults_to_grid_in_callers() {
    let tab = ControlTab::Grid;
    assert!(matches!(tab, ControlTab::Grid));
}

#[test]
fn scalar_mode_without_d_renders_samples() {
    let mut state = default_state();
    state.field_kind = FieldKind::Scalar;

    assert!(state.renders_scalar_samples());
    assert!(!state.renders_vector_field());
}

#[test]
fn scalar_mode_with_d_renders_vectors() {
    let mut state = default_state();
    state.field_kind = FieldKind::Scalar;
    state.render_d = true;

    assert!(!state.renders_scalar_samples());
    assert!(state.renders_vector_field());
}

#[test]
fn vector_mode_renders_vectors_with_or_without_d() {
    let mut state = default_state();
    assert!(state.renders_vector_field());
    assert!(!state.renders_scalar_samples());
    state.render_d = true;
    assert!(state.renders_vector_field());
    assert!(!state.renders_scalar_samples());
}

#[test]
fn legend_descriptors_carry_their_ui_copy() {
    let scalar = LegendKind::ScalarField.descriptor();
    assert_eq!(scalar.window_title, "Scalar Field Legend");
    assert_eq!(scalar.title, "Scalar Field Legend");
    assert_eq!(scalar.subtitle, "Sampled field values over the current grid");
    assert_eq!(scalar.footer, "Visible when rendering the base scalar field.");
    let dual = LegendKind::DualTangent.descriptor();
    assert_eq!(dual.window_title, "Dual Tangent Legend");
    assert_eq!(dual.title, "Dual Tangent Legend");
    assert_eq!(dual.subtitle, "alpha(v) over the sampled dual-space lattice");
    assert_eq!(dual.footer, "Visible only in dual tangent mode: Ctrl+T.");
    let potential = LegendKind::ScalarPotential.descriptor();
    assert_eq!(potential.title, "Scalar Potential Legend");
    assert_ne!(potential.subtitle, scalar.subtitle);
}

fn layers(scalar: bool, vector: bool, electric: bool, magnetic: bool) -> EmLayerVisibility {
    EmLayerVisibility { scalar_potential: scalar, vector_potential: vector, electric, magnetic }
}

#[test]
fn em_render_plan_draws_visible_layers_in_order() {
    let all = layers(true, true, true, true);
    assert_eq!(
        em_render_plan(all, all),
        vec![EmLayer::ScalarPotential, EmLayer::Electric, EmLayer::Magnetic, EmLayer::VectorPotential]
    );
    let some = layers(false, true, false, true);
    assert_eq!(em_render_plan(some, some), vec![EmLayer::Magnetic, EmLayer::VectorPotential]);
    let none = layers(false, false, false, false);
    assert!(em_render_plan(none, all).is_empty());
}

#[test]
fn em_render_plan_stops_at_a_visible_layer_without_samples() {
    let all = layers(true, true, true, true);
    assert!(em_render_plan(all, layers(false, true, true, true)).is_empty());
    assert_eq!(em_render_plan(all, layers(true, true, false, true)), vec![EmLayer::ScalarPotential]);
    // A hidden layer's missing samples do not matter.
    let no_phi = layers(false, true, true, true);
    assert_eq!(
        em_render_plan(no_phi, layers(false, true, true, true)),
        vec![EmLayer::Electric, EmLayer::Magnetic, EmLayer::VectorPotential]
    );
}

#[test]
fn vector_layer_count_counts_arrow_layers_only() {
    let layers = EmLayerVisibility {
        scalar_potential: true,
        vector_potential: true,
        electric: false,
        magnetic: true,
    };
    assert_eq!(layers.vector_layer_count(), 2);
    let none = EmLayerVisibility {
        scalar_potential: true,
        vector_potential: false,
        electric: false,
        magnetic: false,
    };
    assert_eq!(none.vector_layer_count(), 0);
}

#[test]
fn runtime_field_shape_follows_kind_and_derivative() {
    assert_eq!(runtime_field_shape(FieldKind::Scalar, false), RuntimeFieldShape::Scalar);
    assert_eq!(runtime_field_shape(FieldKind::Scalar, true), RuntimeFieldShape::Gradient);
    assert_eq!(runtime_field_shape(FieldKind::Vector, false), RuntimeFieldShape::Vector);
    assert_eq!(runtime_field_shape(FieldKind::Vector, true), RuntimeFieldShape::Curl);
    assert!(!RuntimeFieldShape::Scalar.is_vector_like());
    assert!(RuntimeFieldShape::Gradient.is_vector_like());
    assert!(RuntimeFieldShape::Curl.is_vector_like());
}

#[test]
fn em_vectors_remain_visible_when_dual_tangent_hides_regular_arrows() {
    assert!(should_show_vector_render(true, false, false));
}

#[test]
fn regular_vectors_still_follow_tangent_visibility() {
    assert!(!should_show_vector_render(false, true, false));
    assert!(should_show_vector_render(false, true, true));
}

#[test]
fn render_capacity_reserves_one_arrow_per_sample_and_layer() {
    assert_eq!(render_field_capacity(10, None), 10);
    assert_eq!(render_field_capacity(10, Some(0)), 10);
    assert_eq!(render_field_capacity(10, Some(3)), 30);
}

#[test]
fn dive_mode_animation_flags_are_scoped() {
    assert!(!DiveMode::World.is_animating());
    assert!(DiveMode::Entering.is_animating());
    assert!(!DiveMode::Tangent.is_animating());
    assert!(DiveMode::Exiting.is_animating());
}

#[test]
fn settling_ends_transitions_at_either_end() {
    let mut entering = DiveControl { mode: DiveMode::Entering, view: TangentView::Dual };
    assert!(!entering.settle(false, false));
    assert_eq!(entering.mode, DiveMode::Entering);
    assert!(!entering.settle(true, false));
    assert_eq!(entering, DiveControl { mode: DiveMode::Tangent, view: TangentView::Dual });

    let mut exiting = DiveControl { mode: DiveMode::Exiting, view: TangentView::Geometric };
    assert!(exiting.settle(false, true));
    assert_eq!(exiting.mode, DiveMode::World);

    let mut steady = DiveControl { mode: DiveMode::Tangent, view: TangentView::Geometric };
    assert!(!steady.settle(false, true));
    assert_eq!(steady.mode, DiveMode::Tangent);
}

#[test]
fn requested_view_uses_t_and_ctrl_t() {
    assert_eq!(requested_view(true, false, false), Some(TangentView::Geometric));
    assert_eq!(requested_view(true, true, false), Some(TangentView::Dual));
}

#[test]
fn requested_view_needs_a_fresh_t_press() {
    assert_eq!(requested_view(false, true, true), None);
    assert_eq!(requested_view(true, false, true), Some(TangentView::Dual));
}

#[test]
fn dual_view_hides_grid_once_transition_completes() {
    let control = DiveControl { mode: DiveMode::Tangent, view: TangentView::Dual };

    assert!(!control.show_grid(true));
    assert!(control.show_form_samples(true));
    assert!(!control.show_vector_field(true));
}

#[test]
fn dual_view_keeps_grid_before_half_blend() {
    let control = DiveControl { mode: DiveMode::Entering, view: TangentView::Dual };
    assert!(control.show_grid(false));
    assert!(!control.show_form_samples(false));
    assert!(control.show_vector_field(false));
    let world = DiveControl::new();
    assert!(world.show_grid(true));
    assert!(!world.show_form_samples(true));
    assert_eq!(world.active_view(), None);
    assert!(!world.should_defer_apply());
}

#[test]
fn view_requests_drive_the_dive() {
    let mut control = DiveControl::new();
    assert_eq!(control.request_view(Some(TangentView::Dual), false), DiveAction::Keep);
    assert_eq!(control.mode, DiveMode::World);
    assert_eq!(control.request_view(Some(TangentView::Dual), true), DiveAction::StartEnter);
    assert_eq!(control.mode, DiveMode::Entering);
    assert_eq!(control.view, TangentView::Dual);
    assert!(control.should_defer_apply());
    assert_eq!(control.active_view(), Some(TangentView::Dual));
    control.request_view(Some(TangentView::Dual), true);
    assert_eq!(control.mode, DiveMode::Exiting);
    control.request_view(Some(TangentView::Geometric), true);
    assert_eq!(control.mode, DiveMode::Entering);
    assert_eq!(control.view, TangentView::Geometric);
    control.mode = DiveMode::Tangent;
    control.request_view(Some(TangentView::Dual), false);
    assert_eq!(control.mode, DiveMode::Tangent);
    assert_eq!(control.view, TangentView::Dual);
    control.request_view(Some(TangentView::Dual), false);
    assert_eq!(control.mode, DiveMode::Exiting);
    control.request_view(None, true);
    assert_eq!(control.mode, DiveMode::Exiting);
}

#[test]
fn reverse_twice_restores_the_transition() {
    let mut control = DiveControl { mode: DiveMode::Entering, view: TangentView::Geometric };
    control.reverse();
    assert_eq!(control.mode, DiveMode::Exiting);
    control.reverse();
    assert_eq!(control.mode, DiveMode::Entering);
    let mut steady = DiveControl { mode: DiveMode::Tangent, view: TangentView::Dual };
    steady.reverse();
    assert_eq!(steady.mode, DiveMode::Tangent);
    steady.clear();
    assert_eq!(steady.mode, DiveMode::World);
    assert_eq!(steady.view, TangentView::Dual);
}

#[test]
fn dual_form_lattice_has_nine_samples_per_side() {
    assert_eq!(dual_form_sample_capacity(), 729);
}

#[test]
fn pending_state_is_deferred_while_diving_then_applied() {
    assert_eq!(pending_apply_step(false, 3, 3, false), ApplyStep::Nothing);
    assert_eq!(pending_apply_step(false, 3, 4, false), ApplyStep::Apply(PendingSource::Shared));
    assert_eq!(pending_apply_step(false, 3, 4, true), ApplyStep::Defer(PendingSource::Shared));
    assert_eq!(pending_apply_step(true, 4, 4, false), ApplyStep::Apply(PendingSource::Deferred));
    assert_eq!(pending_apply_step(true, 4, 5, true), ApplyStep::Defer(PendingSource::Deferred));
}
