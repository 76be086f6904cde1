//! Snapshots of the applied control-window configuration and what changed between two.

use crate::ui_state::{EmGauge, EmLayerVisibility, EmMode, FieldKind, GridUiDrafts};
use vstd::prelude::*;

verus! {

/// The part of the control-window state that drives world reconfiguration.
///
/// The grid bounds and sample counts are compared by the caller and reach [`AppliedConfig::diff`]
/// as a flag. While electromagnetism is enabled the regular field section is hidden, so its
/// draft equations are not part of the snapshot.
pub struct AppliedConfig {
    pub coord_eqs: [String; 3],
    pub field_kind: FieldKind,
    pub scalar_eq: Option<String>,
    pub vector_eqs: Option<[String; 3]>,
    pub render_d: bool,
    pub normalize_field: bool,
    pub em_enabled: bool,
    pub em_mode: EmMode,
    pub em_gauge: EmGauge,
    pub em_phi: String,
    pub em_a_eqs: [String; 3],
    pub em_e_eqs: [String; 3],
    pub em_b_eqs: [String; 3],
    pub em_normalize_vectors: bool,
    pub em_light_speed_bits: u64,
    pub em_magnetic_vector_scale_bits: u64,
    pub em_layers: EmLayerVisibility,
}

/// Which high-level parts of the world changed between two applied configurations.
#[derive(Clone, Copy, Debug, PartialEq, Eq, Structural)]
pub struct ApplyDiff {
    pub grid_changed: bool,
    pub coords_changed: bool,
    pub field_kind_changed: bool,
    pub scalar_changed: bool,
    pub vector_changed: bool,
    pub render_d_changed: bool,
    pub normalize_changed: bool,
    pub em_enabled_changed: bool,
    pub em_mode_changed: bool,
    pub em_equations_changed: bool,
    pub em_normalize_changed: bool,
    pub em_magnetic_scale_changed: bool,
    pub em_layers_changed: bool,
}

/// Views of three strings.
pub open spec fn eqs_view(a: [String; 3]) -> Seq<Seq<char>> {
    seq![a[0]@, a[1]@, a[2]@]
}

/// View of an optional string.
pub open spec fn opt_view(a: Option<String>) -> Option<Seq<char>> {
    match a {
        Some(s) => Some(s@),
        None => None,
    }
}

/// View of three optional strings.
pub open spec fn opt_eqs_view(a: Option<[String; 3]>) -> Option<Seq<Seq<char>>> {
    match a {
        Some(s) => Some(eqs_view(s)),
        None => None,
    }
}

/// `r` is the snapshot of the drafts `state`, with coordinate equations `coord_eqs` as the
/// grid shader receives them and the given light speed and magnetic arrow scale bits. The
/// regular field equations are left out while electromagnetism is enabled, since they are
/// hidden then.
pub open spec fn snapshot_of<E>(
    r: AppliedConfig,
    state: GridUiDrafts<E>,
    coord_eqs: Seq<Seq<char>>,
    em_light_speed_bits: u64,
    em_magnetic_vector_scale_bits: u64,
) -> bool {
    &&& eqs_view(r.coord_eqs) == coord_eqs
    &&& r.field_kind == state.field_kind
    &&& opt_view(r.scalar_eq) == if state.em.enabled {
        None
    } else {
        Some(state.scalar_field.eq_str@)
    }
    &&& opt_eqs_view(r.vector_eqs) == if state.em.enabled {
        None
    } else {
        Some(seq![state.field.x.eq_str@, state.field.y.eq_str@, state.field.z.eq_str@])
    }
    &&& r.render_d == state.render_d
    &&& r.normalize_field == state.normalize_field
    &&& r.em_enabled == state.em.enabled
    &&& r.em_mode == state.em.mode
    &&& r.em_gauge == state.em.gauge
    &&& r.em_phi@ == state.em.phi.eq_str@
    &&& eqs_view(r.em_a_eqs) == seq![
        state.em.vector_potential.x.eq_str@,
        state.em.vector_potential.y.eq_str@,
        state.em.vector_potential.z.eq_str@,
    ]
    &&& eqs_view(r.em_e_eqs) == seq![
        state.em.electric_field.x.eq_str@,
        state.em.electric_field.y.eq_str@,
        state.em.electric_field.z.eq_str@,
    ]
    &&& eqs_view(r.em_b_eqs) == seq![
        state.em.magnetic_field.x.eq_str@,
        state.em.magnetic_field.y.eq_str@,
        state.em.magnetic_field.z.eq_str@,
    ]
    &&& r.em_normalize_vectors == state.em.normalize_vectors
    &&& r.em_light_speed_bits == em_light_speed_bits
    &&& r.em_magnetic_vector_scale_bits == em_magnetic_vector_scale_bits
    &&& r.em_layers == state.em.layers
}

/// What `diff` reports for the snapshots `a` and `b`.
pub open spec fn diff_spec(a: AppliedConfig, b: AppliedConfig, grid_changed: bool) -> ApplyDiff {
    ApplyDiff {
        grid_changed,
        coords_changed: eqs_view(a.coord_eqs) != eqs_view(b.coord_eqs),
        field_kind_changed: a.field_kind != b.field_kind,
        scalar_changed: opt_view(a.scalar_eq) != opt_view(b.scalar_eq),
        vector_changed: opt_eqs_view(a.vector_eqs) != opt_eqs_view(b.vector_eqs),
        render_d_changed: a.render_d != b.render_d,
        normalize_changed: a.normalize_field != b.normalize_field,
        em_enabled_changed: a.em_enabled != b.em_enabled,
        em_mode_changed: a.em_mode != b.em_mode,
        em_equations_changed: a.em_gauge != b.em_gauge || a.em_phi@ != b.em_phi@ || eqs_view(
            a.em_a_eqs,
        ) != eqs_view(b.em_a_eqs) || eqs_view(a.em_e_eqs) != eqs_view(b.em_e_eqs) || eqs_view(
            a.em_b_eqs,
        ) != eqs_view(b.em_b_eqs) || a.em_light_speed_bits != b.em_light_speed_bits,
        em_normalize_changed: a.em_normalize_vectors != b.em_normalize_vectors,
        em_magnetic_scale_changed: a.em_magnetic_vector_scale_bits
            != b.em_magnetic_vector_scale_bits,
        em_layers_changed: a.em_layers != b.em_layers,
    }
}

fn strings_differ(a: &String, b: &String) -> (r: bool)
    ensures
        r == (a@ != b@),
{
    !a.eq(b)
}

fn eqs_differ(a: &[String; 3], b: &[String; 3]) -> (r: bool)
    ensures
        r == (eqs_view(*a) != eqs_view(*b)),
{
    let r = strings_differ(&a[0], &b[0]) || strings_differ(&a[1], &b[1]) || strings_differ(
        &a[2],
        &b[2],
    );
    proof {
        if !r {
            assert(eqs_view(*a) =~= eqs_view(*b));
        } else {
            if eqs_view(*a) == eqs_view(*b) {
                assert(eqs_view(*a)[0] == eqs_view(*b)[0]);
                assert(eqs_view(*a)[1] == eqs_view(*b)[1]);
                assert(eqs_view(*a)[2] == eqs_view(*b)[2]);
            }
        }
    }
    r
}

fn clone_eqs(a: &[String; 3]) -> (r: [String; 3])
    ensures
        eqs_view(r) == eqs_view(*a),
{
    [a[0].clone(), a[1].clone(), a[2].clone()]
}

impl AppliedConfig {
    /// Builds the snapshot of the control-window drafts that drives world reconfiguration.
    ///
    /// `coord_eqs` are the coordinate equations as the grid shader receives them, and the two
    /// bit patterns are those of the light speed and of the magnetic arrow scale.
    pub fn from_drafts<E>(
        state: &GridUiDrafts<E>,
        coord_eqs: [String; 3],
        em_light_speed_bits: u64,
        em_magnetic_vector_scale_bits: u64,
    ) -> (r: Self)
        ensures
            r.coord_eqs == coord_eqs,
            snapshot_of(r, *state, eqs_view(coord_eqs), em_light_speed_bits, em_magnetic_vector_scale_bits),
    {
        let hidden = state.em.enabled;
        let scalar_eq = if hidden {
            None
        } else {
            Some(state.scalar_field.eq_str.clone())
        };
        let vector_eqs = if hidden {
            None
        } else {
            Some(
                [
                    state.field.x.eq_str.clone(),
                    state.field.y.eq_str.clone(),
                    state.field.z.eq_str.clone(),
                ],
            )
        };
        AppliedConfig {
            coord_eqs,
            field_kind: state.field_kind,
            scalar_eq,
            vector_eqs,
            render_d: state.render_d,
            normalize_field: state.normalize_field,
            em_enabled: state.em.enabled,
            em_mode: state.em.mode,
            em_gauge: state.em.gauge,
            em_phi: state.em.phi.eq_str.clone(),
            em_a_eqs: [
                state.em.vector_potential.x.eq_str.clone(),
                state.em.vector_potential.y.eq_str.clone(),
                state.em.vector_potential.z.eq_str.clone(),
            ],
            em_e_eqs: [
                state.em.electric_field.x.eq_str.clone(),
                state.em.electric_field.y.eq_str.clone(),
                state.em.electric_field.z.eq_str.clone(),
            ],
            em_b_eqs: [
                state.em.magnetic_field.x.eq_str.clone(),
                state.em.magnetic_field.y.eq_str.clone(),
                state.em.magnetic_field.z.eq_str.clone(),
            ],
            em_normalize_vectors: state.em.normalize_vectors,
            em_light_speed_bits,
            em_magnetic_vector_scale_bits,
            em_layers: state.em.layers,
        }
    }

    /// Computes which high-level parts of the world changed between two snapshots.
    ///
    /// `grid_changed` tells whether the grid bounds or sample counts differ.
    pub fn diff(&self, next: &Self, grid_changed: bool) -> (d: ApplyDiff)
        ensures
            d == diff_spec(*self, *next, grid_changed),
    {
        let scalar_changed = match (&self.scalar_eq, &next.scalar_eq) {
            (Some(a), Some(b)) => strings_differ(a, b),
            (None, None) => false,
            _ => true,
        };
        let vector_changed = match (&self.vector_eqs, &next.vector_eqs) {
            (Some(a), Some(b)) => eqs_differ(a, b),
            (None, None) => false,
            _ => true,
        };
        ApplyDiff {
            grid_changed,
            coords_changed: eqs_differ(&self.coord_eqs, &next.coord_eqs),
            field_kind_changed: self.field_kind != next.field_kind,
            scalar_changed,
            vector_changed,
            render_d_changed: self.render_d != next.render_d,
            normalize_changed: self.normalize_field != next.normalize_field,
            em_enabled_changed: self.em_enabled != next.em_enabled,
            em_mode_changed: self.em_mode != next.em_mode,
            em_equations_changed: self.em_gauge != next.em_gauge || strings_differ(
                &self.em_phi,
                &next.em_phi,
            ) || eqs_differ(&self.em_a_eqs, &next.em_a_eqs) || eqs_differ(
                &self.em_e_eqs,
                &next.em_e_eqs,
            ) || eqs_differ(&self.em_b_eqs, &next.em_b_eqs) || self.em_light_speed_bits
                != next.em_light_speed_bits,
            em_normalize_changed: self.em_normalize_vectors != next.em_normalize_vectors,
            em_magnetic_scale_changed: self.em_magnetic_vector_scale_bits
                != next.em_magnetic_vector_scale_bits,
            em_layers_changed: self.em_layers != next.em_layers,
        }
    }
}

impl ApplyDiff {
    /// Returns whether the grid geometry or coordinate embedding changed.
    pub fn geometry_changed(self) -> (b: bool)
        ensures
            b == self.geometry_spec(),
    {
        self.grid_changed || self.coords_changed
    }

    /// Returns whether the active runtime field must be rebuilt.
    pub fn runtime_field_changed(self) -> (b: bool)
        ensures
            b == self.runtime_field_spec(),
    {
        self.coords_changed || self.field_kind_changed || self.scalar_changed
            || self.vector_changed || self.render_d_changed
    }

    /// Returns whether the electromagnetism runtime must be rebuilt.
    pub fn em_runtime_changed(self) -> (b: bool)
        ensures
            b == self.em_runtime_spec(),
    {
        self.coords_changed || self.grid_changed || self.em_enabled_changed || self.em_mode_changed
            || self.em_equations_changed
    }

    /// Returns whether the electromagnetism renderables must be rebuilt.
    pub fn em_render_changed(self) -> (b: bool)
        ensures
            b == self.em_render_spec(),
    {
        self.geometry_changed() || self.em_runtime_changed() || self.em_normalize_changed
            || self.em_magnetic_scale_changed || self.em_layers_changed
    }

    /// Returns whether cached field samples must be recomputed.
    pub fn field_cache_changed(self) -> (b: bool)
        ensures
            b == self.field_cache_spec(),
    {
        self.geometry_changed() || self.runtime_field_changed()
    }
}

/// Applying a configuration identical to the applied one, with the same grid, changes nothing.
pub proof fn lemma_diff_of_same_config_is_empty(c: AppliedConfig)
    ensures
        !diff_spec(c, c, false).geometry_spec(),
        !diff_spec(c, c, false).runtime_field_spec(),
        !diff_spec(c, c, false).em_render_spec(),
        !diff_spec(c, c, false).field_cache_spec(),
        !diff_spec(c, c, false).normalize_changed,
{
}

/// Comparing two configurations reports the same changes in either direction.
pub proof fn lemma_diff_is_symmetric(a: AppliedConfig, b: AppliedConfig, grid_changed: bool)
    ensures
        diff_spec(a, b, grid_changed) == diff_spec(b, a, grid_changed),
{
}

/// Every change that rebuilds the electromagnetism runtime also rebuilds its renderables, and
/// every geometry change invalidates both the field cache and the electromagnetism renderables.
pub proof fn lemma_rebuilds_are_nested(d: ApplyDiff)
    ensures
        d.em_runtime_spec() ==> d.em_render_spec(),
        d.geometry_spec() ==> d.field_cache_spec() && d.em_render_spec(),
        d.runtime_field_spec() ==> d.field_cache_spec(),
{
}

/// While electromagnetism is enabled, edits to the hidden scalar and vector field drafts do
/// not reach the world: applying them rebuilds nothing.
pub proof fn lemma_hidden_field_drafts_change_nothing<E>(
    s1: GridUiDrafts<E>,
    s2: GridUiDrafts<E>,
    c1: AppliedConfig,
    c2: AppliedConfig,
    coord_eqs: Seq<Seq<char>>,
    light_bits: u64,
    magnetic_bits: u64,
)
    requires
        snapshot_of(c1, s1, coord_eqs, light_bits, magnetic_bits),
        snapshot_of(c2, s2, coord_eqs, light_bits, magnetic_bits),
        s1.em.enabled,
        s1.em == s2.em,
        s1.field_kind == s2.field_kind,
        s1.render_d == s2.render_d,
        s1.normalize_field == s2.normalize_field,
    ensures
        !diff_spec(c1, c2, false).geometry_spec(),
        !diff_spec(c1, c2, false).runtime_field_spec(),
        !diff_spec(c1, c2, false).em_render_spec(),
        !diff_spec(c1, c2, false).field_cache_spec(),
        !diff_spec(c1, c2, false).normalize_changed,
{
}

/// The magnetic arrow scale only affects drawing: changing it alone rebuilds the
/// electromagnetism renderables and neither the electromagnetism runtime, the field caches nor
/// the geometry.
pub proof fn lemma_magnetic_scale_is_render_only<E>(
    state: GridUiDrafts<E>,
    c1: AppliedConfig,
    c2: AppliedConfig,
    coord_eqs: Seq<Seq<char>>,
    light_bits: u64,
    magnetic_bits1: u64,
    magnetic_bits2: u64,
)
    requires
        snapshot_of(c1, state, coord_eqs, light_bits, magnetic_bits1),
        snapshot_of(c2, state, coord_eqs, light_bits, magnetic_bits2),
        magnetic_bits1 != magnetic_bits2,
    ensures
        diff_spec(c1, c2, false).em_render_spec(),
        !diff_spec(c1, c2, false).em_runtime_spec(),
        !diff_spec(c1, c2, false).field_cache_spec(),
        !diff_spec(c1, c2, false).geometry_spec(),
{
}

impl ApplyDiff {
    pub open spec fn geometry_spec(self) -> bool {
        self.grid_changed || self.coords_changed
    }

    pub open spec fn runtime_field_spec(self) -> bool {
        self.coords_changed || self.field_kind_changed || self.scalar_changed || self.vector_changed
            || self.render_d_changed
    }

    pub open spec fn em_runtime_spec(self) -> bool {
        self.coords_changed || self.grid_changed || self.em_enabled_changed || self.em_mode_changed
            || self.em_equations_changed
    }

    pub open spec fn em_render_spec(self) -> bool {
        self.geometry_spec() || self.em_runtime_spec() || self.em_normalize_changed
            || self.em_magnetic_scale_changed || self.em_layers_changed
    }

    pub open spec fn field_cache_spec(self) -> bool {
        self.geometry_spec() || self.runtime_field_spec()
    }
}

/// Every change that decides the runtime field rebuilds it and its cached samples: the
/// coordinates, the field kind, the scalar or vector equations and whether the derivative is
/// drawn. Grid and coordinate changes rebuild the geometry; changes of the electromagnetism
/// switch, mode, equations, light speed, coordinates or grid rebuild its runtime; and its
/// normalisation, magnetic scale and layers rebuild its renderables.
pub proof fn lemma_changes_force_rebuilds(a: AppliedConfig, b: AppliedConfig, grid_changed: bool)
    ensures
        ({
            let d = diff_spec(a, b, grid_changed);
            &&& (eqs_view(a.coord_eqs) != eqs_view(b.coord_eqs) || a.field_kind != b.field_kind
                || opt_view(a.scalar_eq) != opt_view(b.scalar_eq) || opt_eqs_view(a.vector_eqs)
                != opt_eqs_view(b.vector_eqs) || a.render_d != b.render_d)
                ==> d.runtime_field_spec() && d.field_cache_spec()
            &&& (grid_changed || eqs_view(a.coord_eqs) != eqs_view(b.coord_eqs))
                ==> d.geometry_spec() && d.field_cache_spec() && d.em_runtime_spec()
            &&& (a.em_enabled != b.em_enabled || a.em_mode != b.em_mode || a.em_gauge != b.em_gauge
                || a.em_phi@ != b.em_phi@ || eqs_view(a.em_a_eqs) != eqs_view(b.em_a_eqs)
                || eqs_view(a.em_e_eqs) != eqs_view(b.em_e_eqs) || eqs_view(a.em_b_eqs)
                != eqs_view(b.em_b_eqs) || a.em_light_speed_bits != b.em_light_speed_bits)
                ==> d.em_runtime_spec() && d.em_render_spec()
            &&& (a.em_normalize_vectors != b.em_normalize_vectors
                || a.em_magnetic_vector_scale_bits != b.em_magnetic_vector_scale_bits
                || a.em_layers != b.em_layers) ==> d.em_render_spec()
            &&& a.normalize_field != b.normalize_field ==> d.normalize_changed
        }),
{
}

} // verus!
