use field_grid::applied_config::{AppliedConfig, ApplyDiff};
use field_grid::ui_state::{
    EmGauge, EmLayerVisibility, EmMode, EmUiDrafts, EqRender, FieldKind, GridUiDrafts, SpacialEqs,
};

fn a_eq(s: &str) -> EqRender<String> {
    EqRender::new(s.to_string(), s.to_string())
}

fn a_eqs(x: &str, y: &str, z: &str) -> SpacialEqs<String> {
    SpacialEqs { x: a_eq(x), y: a_eq(y), z: a_eq(z) }
}

/// The numeric part of the control-window state that the snapshot compares.
#[derive(Clone, PartialEq)]
struct Numbers {
    nb: [f64; 3],
    bounds: [(f64, f64); 3],
    light_speed: f64,
    magnetic_vector_scale: f64,
}

fn a_default() -> (GridUiDrafts<String>, Numbers) {
    let drafts = GridUiDrafts {
        render_3d: true,
        coords_sys: a_eqs("x*cos(y) * sin(z)", "x*sin(y) * sin(z)", "x * cos(z)"),
        field_kind: FieldKind::Vector,
        scalar_field: a_eq("x"),
        field: a_eqs("1", "0", "0"),
        render_d: false,
        normalize_field: false,
        em: EmUiDrafts {
            enabled: false,
            mode: EmMode::Potentials,
            gauge: EmGauge::Coulomb,
            phi: a_eq("0"),
            vector_potential: a_eqs("0", "sin(z - t)", "0"),
            electric_field: a_eqs("0", "cos(z - t)", "0"),
            magnetic_field: a_eqs("-cos(z - t)", "0", "0"),
            normalize_vectors: false,
            layers: EmLayerVisibility {
                scalar_potential: false,
                vector_potential: false,
                electric: true,
                magnetic: true,
            },
            reset_counter: 0,
            running: true,
        },
    };
    let numbers = Numbers {
        nb: [5.0, 5.0, 5.0],
        bounds: [(-0.1, 15.0), (0.0, 6.28), (0.0, 3.14)],
        light_speed: 1.0,
        magnetic_vector_scale: 1.0,
    };
    (drafts, numbers)
}

fn a_config(state: &(GridUiDrafts<String>, Numbers)) -> AppliedConfig {
    let (drafts, numbers) = state;
    let coord_eqs = [
        drafts.coords_sys.x.eq.clone(),
        drafts.coords_sys.y.eq.clone(),
        drafts.coords_sys.z.eq.clone(),
    ];
    AppliedConfig::from_drafts(
        drafts,
        coord_eqs,
        numbers.light_speed.to_bits(),
        numbers.magnetic_vector_scale.to_bits(),
    )
}

fn a_diff(current: &(GridUiDrafts<String>, Numbers), next: &(GridUiDrafts<String>, Numbers)) -> ApplyDiff {
    let grid_changed = current.1.nb != next.1.nb || current.1.bounds != next.1.bounds;
    a_config(current).diff(&a_config(next), grid_changed)
}

#[test]
fn apply_diff_is_scoped_to_field_changes() {
    let current = a_default();
    let mut next_state = a_default();
    next_state.0.field.x.eq_str = "2".to_string();

    let diff = a_diff(&current, &next_state);

    assert!(diff.vector_changed);
    assert!(!diff.grid_changed);
    assert!(!diff.coords_changed);
    assert!(!diff.normalize_changed);
}

#[test]
fn apply_diff_is_scoped_to_grid_changes() {
    let current = a_default();
    let mut next_state = a_default();
    next_state.1.nb[0] = 9.0;

    let diff = a_diff(&current, &next_state);

    assert!(diff.grid_changed);
    assert!(!diff.vector_changed);
    assert!(!diff.coords_changed);
    assert!(!diff.normalize_changed);
}

#[test]
fn apply_diff_tracks_scalar_and_render_d_changes() {
    let current = a_default();
    let mut next_state = a_default();
    next_state.0.field_kind = FieldKind::Scalar;
    next_state.0.scalar_field.eq_str = "x * y".to_string();
    next_state.0.render_d = true;

    let diff = a_diff(&current, &next_state);

    assert!(diff.field_kind_changed);
    assert!(diff.scalar_changed);
    assert!(diff.render_d_changed);
}

#[test]
fn apply_diff_tracks_em_enable_mode_and_equation_changes() {
    let current = a_default();
    let mut next_state = a_default();
    next_state.0.em.enabled = true;
    next_state.0.em.mode = EmMode::Electric;
    next_state.0.em.electric_field.x.eq_str = "sin(t)".to_string();

    let diff = a_diff(&current, &next_state);

    assert!(diff.em_enabled_changed);
    assert!(diff.em_mode_changed);
    assert!(diff.em_equations_changed);
}

#[test]
fn apply_diff_does_not_consume_hidden_field_drafts_while_em_is_enabled() {
    let mut current_state = a_default();
    current_state.0.em.enabled = true;

    let mut draft_state = a_default();
    draft_state.0.em.enabled = true;
    draft_state.0.field.x.eq_str = "2".to_string();

    let diff = a_diff(&current_state, &draft_state);

    assert!(!diff.vector_changed);

    draft_state.0.em.enabled = false;
    draft_state.0.field.x.eq = "2".to_string();
    let disable_diff = a_diff(&current_state, &draft_state);

    assert!(disable_diff.em_enabled_changed);
    assert!(disable_diff.vector_changed);
    assert!(disable_diff.runtime_field_changed());
}

#[test]
fn apply_diff_tracks_em_vector_normalization() {
    let current = a_default();
    let mut next_state = a_default();
    next_state.0.em.normalize_vectors = true;

    let diff = a_diff(&current, &next_state);

    assert!(diff.em_normalize_changed);
    assert!(!diff.em_runtime_changed());
    assert!(diff.em_render_changed());
}

#[test]
fn apply_diff_treats_em_magnetic_scale_as_render_only() {
    let current = a_default();
    let mut next_state = a_default();
    next_state.1.magnetic_vector_scale = 2.0;

    let diff = a_diff(&current, &next_state);

    assert!(diff.em_magnetic_scale_changed);
    assert!(!diff.em_equations_changed);
    assert!(!diff.em_runtime_changed());
    assert!(diff.em_render_changed());
}

#[test]
fn apply_diff_tracks_em_gauge_selection() {
    let current = a_default();
    let mut next_state = a_default();
    next_state.0.em.gauge = EmGauge::Lorenz;

    let diff = a_diff(&current, &next_state);

    assert!(diff.em_equations_changed);
    assert!(diff.em_runtime_changed());
}

#[test]
fn apply_diff_of_identical_configs_is_empty() {
    let current = a_default();
    let diff = a_diff(&current, &current.clone_state());
    assert!(!diff.geometry_changed());
    assert!(!diff.runtime_field_changed());
    assert!(!diff.em_runtime_changed());
    assert!(!diff.em_render_changed());
    assert!(!diff.field_cache_changed());
}

#[test]
fn apply_diff_derived_flags_nest() {
    let current = a_default();
    let mut next_state = a_default();
    next_state.0.coords_sys.y.eq = "y".to_string();
    let diff = a_diff(&current, &next_state);
    assert!(diff.coords_changed);
    assert!(diff.geometry_changed());
    assert!(diff.runtime_field_changed());
    assert!(diff.em_runtime_changed());
    assert!(diff.em_render_changed());
    assert!(diff.field_cache_changed());

    let mut light = a_default();
    light.1.light_speed = 3.0;
    let light_diff = a_diff(&current, &light);
    assert!(light_diff.em_equations_changed);
    assert!(!light_diff.field_cache_changed());
}

#[test]
fn apply_diff_is_the_same_both_ways() {
    let current = a_default();
    let mut next_state = a_default();
    next_state.0.em.layers.electric = false;
    next_state.0.normalize_field = true;
    assert_eq!(a_diff(&current, &next_state), a_diff(&next_state, &current));
    assert!(a_diff(&current, &next_state).em_layers_changed);
    assert!(a_diff(&current, &next_state).normalize_changed);
}

trait CloneState {
    fn clone_state(&self) -> Self;
}

impl CloneState for (GridUiDrafts<String>, Numbers) {
    fn clone_state(&self) -> Self {
        let d = &self.0;
        let eqs = |e: &SpacialEqs<String>| SpacialEqs {
            x: EqRender::new(e.x.eq.clone(), e.x.eq_str.clone()),
            y: EqRender::new(e.y.eq.clone(), e.y.eq_str.clone()),
            z: EqRender::new(e.z.eq.clone(), e.z.eq_str.clone()),
        };
        let one = |e: &EqRender<String>| EqRender::new(e.eq.clone(), e.eq_str.clone());
        (
            GridUiDrafts {
                render_3d: d.render_3d,
                coords_sys: eqs(&d.coords_sys),
                field_kind: d.field_kind,
                scalar_field: one(&d.scalar_field),
                field: eqs(&d.field),
                render_d: d.render_d,
                normalize_field: d.normalize_field,
                em: EmUiDrafts {
                    enabled: d.em.enabled,
                    mode: d.em.mode,
                    gauge: d.em.gauge,
                    phi: one(&d.em.phi),
                    vector_potential: eqs(&d.em.vector_potential),
                    electric_field: eqs(&d.em.electric_field),
                    magnetic_field: eqs(&d.em.magnetic_field),
                    normalize_vectors: d.em.normalize_vectors,
                    layers: d.em.layers,
                    reset_counter: d.em.reset_counter,
                    running: d.em.running,
                },
            },
            self.1.clone(),
        )
    }
}
