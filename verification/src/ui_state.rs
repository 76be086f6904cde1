//! Plain-value UI state shared between the control window and the render loop.

use vstd::prelude::*;

verus! {

/// Whether the editable field is entered as a scalar or as a vector.
#[derive(Debug, Clone, Copy, PartialEq, Eq, Structural)]
pub enum FieldKind {
    Scalar,
    Vector,
}

/// Source of the values shown in the detached legend window.
#[derive(Debug, Clone, Copy, PartialEq, Eq, Structural)]
pub enum LegendKind {
    ScalarField,
    DualTangent,
    ScalarPotential,
}

/// Static UI copy shown by the legend window.
#[derive(Debug, Clone, Copy, PartialEq, Eq)]
pub struct LegendDescriptor {
    pub window_title: &'static str,
    pub title: &'static str,
    pub subtitle: &'static str,
    pub footer: &'static str,
}

impl LegendKind {
    /// Returns the static UI copy associated with this legend source.
    pub fn descriptor(self) -> (d: LegendDescriptor)
        ensures
            self == LegendKind::ScalarField ==> {
                &&& d.window_title@ == "Scalar Field Legend"@
                &&& d.title@ == "Scalar Field Legend"@
                &&& d.subtitle@ == "Sampled field values over the current grid"@
                &&& d.footer@ == "Visible when rendering the base scalar field."@
            },
            self == LegendKind::DualTangent ==> {
                &&& d.window_title@ == "Dual Tangent Legend"@
                &&& d.title@ == "Dual Tangent Legend"@
                &&& d.subtitle@ == "alpha(v) over the sampled dual-space lattice"@
                &&& d.footer@ == "Visible only in dual tangent mode: Ctrl+T."@
            },
            self == LegendKind::ScalarPotential ==> {
                &&& d.window_title@ == "Scalar Potential Legend"@
                &&& d.title@ == "Scalar Potential Legend"@
                &&& d.subtitle@ == "phi over the current grid at the current time"@
                &&& d.footer@ == "Visible when the EM scalar potential layer is shown."@
            },
    {
        match self {
            LegendKind::ScalarField => LegendDescriptor {
                window_title: "Scalar Field Legend",
                title: "Scalar Field Legend",
                subtitle: "Sampled field values over the current grid",
                footer: "Visible when rendering the base scalar field.",
            },
            LegendKind::DualTangent => LegendDescriptor {
                window_title: "Dual Tangent Legend",
                title: "Dual Tangent Legend",
                subtitle: "alpha(v) over the sampled dual-space lattice",
                footer: "Visible only in dual tangent mode: Ctrl+T.",
            },
            LegendKind::ScalarPotential => LegendDescriptor {
                window_title: "Scalar Potential Legend",
                title: "Scalar Potential Legend",
                subtitle: "phi over the current grid at the current time",
                footer: "Visible when the EM scalar potential layer is shown.",
            },
        }
    }
}

/// Tab selected in the control window.
#[derive(Debug, Clone, Copy, PartialEq, Eq, Structural)]
pub enum ControlTab {
    Grid,
    Field,
    Em,
}

/// Which electromagnetic quantity the user enters directly.
#[derive(Debug, Clone, Copy, PartialEq, Eq, Structural)]
pub enum EmMode {
    Potentials,
    Electric,
    Magnetic,
}

/// Gauge used to reconstruct the potentials from a field source.
#[derive(Debug, Clone, Copy, PartialEq, Eq, Structural)]
pub enum EmGauge {
    Coulomb,
    Lorenz,
}

/// Which electromagnetic layers are drawn.
#[derive(Debug, Clone, Copy, PartialEq, Eq, Structural)]
pub struct EmLayerVisibility {
    pub scalar_potential: bool,
    pub vector_potential: bool,
    pub electric: bool,
    pub magnetic: bool,
}

/// Number of `true` flags among the given ones.
pub open spec fn flag_count(a: bool, b: bool, c: bool) -> nat {
    (if a { 1nat } else { 0nat }) + (if b { 1nat } else { 0nat }) + (if c { 1nat } else { 0nat })
}

impl EmLayerVisibility {
    /// Number of visible layers drawn as arrows (electric, magnetic and vector potential).
    pub fn vector_layer_count(&self) -> (n: usize)
        ensures
            n == flag_count(self.electric, self.magnetic, self.vector_potential),
            n <= 3,
    {
        let mut n: usize = 0;
        if self.electric {
            n = n + 1;
        }
        if self.magnetic {
            n = n + 1;
        }
        if self.vector_potential {
            n = n + 1;
        }
        n
    }
}

/// One equation: its last committed expression together with its editable source string.
#[derive(Debug, Clone)]
pub struct EqRender<E> {
    pub eq: E,
    pub eq_str: String,
}

impl<E> EqRender<E> {
    /// Creates one parsed equation together with its editable source string.
    pub fn new(eq: E, eq_str: String) -> (r: Self)
        ensures
            r.eq == eq,
            r.eq_str == eq_str,
    {
        EqRender { eq, eq_str }
    }
}

/// Three equations, one per spatial component.
#[derive(Debug, Clone)]
pub struct SpacialEqs<E> {
    pub x: EqRender<E>,
    pub y: EqRender<E>,
    pub z: EqRender<E>,
}

/// Non-numeric part of the electromagnetism section of the control window.
#[derive(Debug, Clone)]
pub struct EmUiDrafts<E> {
    pub enabled: bool,
    pub mode: EmMode,
    pub gauge: EmGauge,
    pub phi: EqRender<E>,
    pub vector_potential: SpacialEqs<E>,
    pub electric_field: SpacialEqs<E>,
    pub magnetic_field: SpacialEqs<E>,
    pub normalize_vectors: bool,
    pub layers: EmLayerVisibility,
    pub reset_counter: u64,
    pub running: bool,
}

/// Non-numeric part of the control window state: flags, modes and every editable equation.
#[derive(Debug, Clone)]
pub struct GridUiDrafts<E> {
    pub render_3d: bool,
    pub coords_sys: SpacialEqs<E>,
    pub field_kind: FieldKind,
    pub scalar_field: EqRender<E>,
    pub field: SpacialEqs<E>,
    pub render_d: bool,
    pub normalize_field: bool,
    pub em: EmUiDrafts<E>,
}

impl<E> GridUiDrafts<E> {
    /// Returns whether the active field render path should draw arrows.
    pub fn renders_vector_field(&self) -> (b: bool)
        ensures
            b == (self.field_kind == FieldKind::Vector || self.render_d),
    {
        self.field_kind == FieldKind::Vector || self.render_d
    }

    /// Returns whether the active field render path should draw sampled scalar spheres.
    pub fn renders_scalar_samples(&self) -> (b: bool)
        ensures
            b == (self.field_kind == FieldKind::Scalar && !self.render_d),
    {
        self.field_kind == FieldKind::Scalar && !self.render_d
    }
}

/// Shape of the runtime field built from the field section.
#[derive(Debug, Clone, Copy, PartialEq, Eq, Structural)]
pub enum RuntimeFieldShape {
    /// The scalar field itself, drawn as sampled spheres.
    Scalar,
    /// The gradient of the scalar field.
    Gradient,
    /// The vector field, its components taken in the orthonormal tangent basis.
    Vector,
    /// The curl of the vector field.
    Curl,
}

/// Which runtime field the field section describes: scalar input stays scalar unless its
/// derivative is requested, in which case its gradient is drawn; vector input is drawn as is,
/// or its curl when the derivative is requested.
pub open spec fn field_shape(field_kind: FieldKind, render_d: bool) -> RuntimeFieldShape {
    match (field_kind, render_d) {
        (FieldKind::Scalar, false) => RuntimeFieldShape::Scalar,
        (FieldKind::Scalar, true) => RuntimeFieldShape::Gradient,
        (FieldKind::Vector, false) => RuntimeFieldShape::Vector,
        (FieldKind::Vector, true) => RuntimeFieldShape::Curl,
    }
}

/// Builds the runtime field shape of the field section; see [`field_shape`].
pub fn runtime_field_shape(field_kind: FieldKind, render_d: bool) -> (r: RuntimeFieldShape)
    ensures
        r == field_shape(field_kind, render_d),
{
    match (field_kind, render_d) {
        (FieldKind::Scalar, false) => RuntimeFieldShape::Scalar,
        (FieldKind::Scalar, true) => RuntimeFieldShape::Gradient,
        (FieldKind::Vector, false) => RuntimeFieldShape::Vector,
        (FieldKind::Vector, true) => RuntimeFieldShape::Curl,
    }
}

impl RuntimeFieldShape {
    /// Returns whether this runtime field is drawn as arrows.
    pub fn is_vector_like(self) -> (b: bool)
        ensures
            b == (self != RuntimeFieldShape::Scalar),
    {
        match self {
            RuntimeFieldShape::Scalar => false,
            _ => true,
        }
    }
}

/// The runtime field built from a state is drawn as arrows exactly when the state renders a
/// vector field.
pub proof fn lemma_runtime_field_matches_render_path(field_kind: FieldKind, render_d: bool)
    ensures
        (field_shape(field_kind, render_d) != RuntimeFieldShape::Scalar) == (field_kind
            == FieldKind::Vector || render_d),
{
}

/// Every state draws exactly one of the two field renderings: arrows or scalar spheres.
pub proof fn lemma_field_render_paths_exclusive<E>(state: &GridUiDrafts<E>)
    ensures
        (state.field_kind == FieldKind::Vector || state.render_d) != (state.field_kind
            == FieldKind::Scalar && !state.render_d),
{
}

} // verus!
