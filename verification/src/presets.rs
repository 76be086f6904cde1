//! Built-in presets for the field and electromagnetism sections of the control window.

use crate::ui_state::{EmLayerVisibility, EmMode, FieldKind, GridUiDrafts, SpacialEqs};
use vstd::prelude::*;
use vstd::string::StringExecFns;

verus! {

/// A ready-made field configuration.
#[derive(Debug, Clone, Copy)]
pub struct FieldPreset {
    pub label: &'static str,
    pub kind: FieldKind,
    pub scalar: &'static str,
    pub vector: [&'static str; 3],
    pub render_d: bool,
    pub normalize: bool,
}

/// A ready-made electromagnetic wave, given by its potentials and its fields.
#[derive(Debug, Clone, Copy)]
pub struct EmPreset {
    pub label: &'static str,
    pub phi: &'static str,
    pub vector_potential: [&'static str; 3],
    pub electric_field: [&'static str; 3],
    pub magnetic_field: [&'static str; 3],
}

/// The draft strings of `eqs` are `values`, their parsed expressions are those of `old`.
pub open spec fn spacial_drafts_set<E>(
    eqs: SpacialEqs<E>,
    old: SpacialEqs<E>,
    values: [&'static str; 3],
) -> bool {
    &&& eqs.x.eq_str@ == values[0]@
    &&& eqs.y.eq_str@ == values[1]@
    &&& eqs.z.eq_str@ == values[2]@
    &&& eqs.x.eq == old.x.eq
    &&& eqs.y.eq == old.y.eq
    &&& eqs.z.eq == old.z.eq
}

/// Replaces the three draft strings of `eqs`, keeping their parsed expressions.
pub fn set_spacial_eqs<E>(eqs: &mut SpacialEqs<E>, values: [&'static str; 3])
    ensures
        spacial_drafts_set(*final(eqs), *old(eqs), values),
{
    eqs.x.eq_str = String::from_str(values[0]);
    eqs.y.eq_str = String::from_str(values[1]);
    eqs.z.eq_str = String::from_str(values[2]);
}

impl FieldPreset {
    /// The field presets offered by the control window, in display order.
    pub fn all() -> (r: [FieldPreset; 4])
        ensures
            r[0].label@ == "Constant scalar"@ && r[0].kind == FieldKind::Scalar && r[0].scalar@
                == "1"@ && r[0].vector[0]@ == "1"@ && r[0].vector[1]@ == "0"@ && r[0].vector[2]@
                == "0"@ && !r[0].render_d && !r[0].normalize,
            r[1].label@ == "Variable scalar"@ && r[1].kind == FieldKind::Scalar && r[1].scalar@
                == "x*y + z"@ && r[1].vector[0]@ == "1"@ && r[1].vector[1]@ == "0"@
                && r[1].vector[2]@ == "0"@ && !r[1].render_d && !r[1].normalize,
            r[2].label@ == "Constant vector"@ && r[2].kind == FieldKind::Vector && r[2].scalar@
                == "x"@ && r[2].vector[0]@ == "1"@ && r[2].vector[1]@ == "0"@ && r[2].vector[2]@
                == "0"@ && !r[2].render_d && !r[2].normalize,
            r[3].label@ == "Variable vector"@ && r[3].kind == FieldKind::Vector && r[3].scalar@
                == "x"@ && r[3].vector[0]@ == "-y"@ && r[3].vector[1]@ == "x"@
                && r[3].vector[2]@ == "0.5*z"@ && !r[3].render_d && !r[3].normalize,
    {
        [
            FieldPreset {
                label: "Constant scalar",
                kind: FieldKind::Scalar,
                scalar: "1",
                vector: ["1", "0", "0"],
                render_d: false,
                normalize: false,
            },
            FieldPreset {
                label: "Variable scalar",
                kind: FieldKind::Scalar,
                scalar: "x*y + z",
                vector: ["1", "0", "0"],
                render_d: false,
                normalize: false,
            },
            FieldPreset {
                label: "Constant vector",
                kind: FieldKind::Vector,
                scalar: "x",
                vector: ["1", "0", "0"],
                render_d: false,
                normalize: false,
            },
            FieldPreset {
                label: "Variable vector",
                kind: FieldKind::Vector,
                scalar: "x",
                vector: ["-y", "x", "0.5*z"],
                render_d: false,
                normalize: false,
            },
        ]
    }

    /// Writes this preset into the field section of the control-window drafts.
    pub fn apply<E>(self, state: &mut GridUiDrafts<E>)
        ensures
            final(state).field_kind == self.kind,
            final(state).scalar_field.eq_str@ == self.scalar@,
            final(state).scalar_field.eq == old(state).scalar_field.eq,
            spacial_drafts_set(final(state).field, old(state).field, self.vector),
            final(state).render_d == self.render_d,
            final(state).normalize_field == self.normalize,
            final(state).render_3d == old(state).render_3d,
            final(state).coords_sys == old(state).coords_sys,
            final(state).em == old(state).em,
    {
        state.field_kind = self.kind;
        state.scalar_field.eq_str = String::from_str(self.scalar);
        set_spacial_eqs(&mut state.field, self.vector);
        state.render_d = self.render_d;
        state.normalize_field = self.normalize;
    }
}

impl EmPreset {
    /// The electromagnetic wave presets offered by the control window, in display order.
    pub fn all() -> (r: [EmPreset; 3])
        ensures
            r[0].label@ == "Plane wave"@ && r[0].phi@ == "0"@ && r[0].vector_potential[0]@
                == "0"@ && r[0].vector_potential[1]@ == "sin(z - t)"@
                && r[0].vector_potential[2]@ == "0"@ && r[0].electric_field[0]@ == "0"@
                && r[0].electric_field[1]@ == "cos(z - t)"@ && r[0].electric_field[2]@ == "0"@
                && r[0].magnetic_field[0]@ == "-cos(z - t)"@ && r[0].magnetic_field[1]@ == "0"@
                && r[0].magnetic_field[2]@ == "0"@,
            r[1].label@ == "Standing wave"@ && r[1].phi@ == "0"@ && r[1].vector_potential[0]@
                == "0"@ && r[1].vector_potential[1]@ == "sin(z - t) + sin(z + t)"@
                && r[1].vector_potential[2]@ == "0"@ && r[1].electric_field[0]@ == "0"@
                && r[1].electric_field[1]@ == "cos(z - t) - cos(z + t)"@
                && r[1].electric_field[2]@ == "0"@ && r[1].magnetic_field[0]@
                == "-cos(z - t) - cos(z + t)"@ && r[1].magnetic_field[1]@ == "0"@
                && r[1].magnetic_field[2]@ == "0"@,
            r[2].label@ == "Damped wave"@ && r[2].phi@ == "0"@ && r[2].vector_potential[0]@
                == "0"@ && r[2].vector_potential[1]@ == "exp(-0.25*z) * sin(z - t)"@
                && r[2].vector_potential[2]@ == "0"@ && r[2].electric_field[0]@ == "0"@
                && r[2].electric_field[1]@ == "exp(-0.25*z) * cos(z - t)"@
                && r[2].electric_field[2]@ == "0"@ && r[2].magnetic_field[0]@
                == "exp(-0.25*z) * (0.25*sin(z - t) - cos(z - t))"@ && r[2].magnetic_field[1]@
                == "0"@ && r[2].magnetic_field[2]@ == "0"@,
    {
        [
            EmPreset {
                label: "Plane wave",
                phi: "0",
                vector_potential: ["0", "sin(z - t)", "0"],
                electric_field: ["0", "cos(z - t)", "0"],
                magnetic_field: ["-cos(z - t)", "0", "0"],
            },
            EmPreset {
                label: "Standing wave",
                phi: "0",
                vector_potential: ["0", "sin(z - t) + sin(z + t)", "0"],
                electric_field: ["0", "cos(z - t) - cos(z + t)", "0"],
                magnetic_field: ["-cos(z - t) - cos(z + t)", "0", "0"],
            },
            EmPreset {
                label: "Damped wave",
                phi: "0",
                vector_potential: ["0", "exp(-0.25*z) * sin(z - t)", "0"],
                electric_field: ["0", "exp(-0.25*z) * cos(z - t)", "0"],
                magnetic_field: ["exp(-0.25*z) * (0.25*sin(z - t) - cos(z - t))", "0", "0"],
            },
        ]
    }

    /// Writes this wave into the electromagnetism section: potentials become the source, the
    /// potential layers are hidden and the field layers shown.
    pub fn apply<E>(self, state: &mut GridUiDrafts<E>)
        ensures
            final(state).em.mode == EmMode::Potentials,
            final(state).em.phi.eq_str@ == self.phi@,
            final(state).em.phi.eq == old(state).em.phi.eq,
            spacial_drafts_set(
                final(state).em.vector_potential,
                old(state).em.vector_potential,
                self.vector_potential,
            ),
            spacial_drafts_set(
                final(state).em.electric_field,
                old(state).em.electric_field,
                self.electric_field,
            ),
            spacial_drafts_set(
                final(state).em.magnetic_field,
                old(state).em.magnetic_field,
                self.magnetic_field,
            ),
            final(state).em.layers == (EmLayerVisibility {
                scalar_potential: false,
                vector_potential: false,
                electric: true,
                magnetic: true,
            }),
            final(state).em.enabled == old(state).em.enabled,
            final(state).em.gauge == old(state).em.gauge,
            final(state).em.normalize_vectors == old(state).em.normalize_vectors,
            final(state).em.reset_counter == old(state).em.reset_counter,
            final(state).em.running == old(state).em.running,
            final(state).render_3d == old(state).render_3d,
            final(state).coords_sys == old(state).coords_sys,
            final(state).field_kind == old(state).field_kind,
            final(state).scalar_field == old(state).scalar_field,
            final(state).field == old(state).field,
            final(state).render_d == old(state).render_d,
            final(state).normalize_field == old(state).normalize_field,
    {
        state.em.mode = EmMode::Potentials;
        state.em.phi.eq_str = String::from_str(self.phi);
        set_spacial_eqs(&mut state.em.vector_potential, self.vector_potential);
        set_spacial_eqs(&mut state.em.electric_field, self.electric_field);
        set_spacial_eqs(&mut state.em.magnetic_field, self.magnetic_field);
        state.em.layers.scalar_potential = false;
        state.em.layers.vector_potential = false;
        state.em.layers.electric = true;
        state.em.layers.magnetic = true;
    }
}

} // verus!
