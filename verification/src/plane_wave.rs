//! Recognition of electromagnetic plane waves travelling along a coordinate axis.
//!
//! A field `F(x, y, z, t)` given by three component expressions is a plane wave along axis
//! `k` in direction `d = ±1` when its component along `k` vanishes, every component is
//! constant across the two other axes, and every component satisfies `F_t + d c F_k = 0`.
//! The complementary field is then `(d e_k) × F` scaled by the light speed; the symbolic
//! checks themselves are made by the caller and reported in a [`PlaneWaveProbe`].

use vstd::prelude::*;

verus! {

/// Name of the coordinate variable of axis `axis`.
pub fn axis_name(axis: usize) -> (r: &'static str)
    requires
        axis < 3,
    ensures
        axis == 0 ==> r@ == "x"@,
        axis == 1 ==> r@ == "y"@,
        axis == 2 ==> r@ == "z"@,
{
    if axis == 0 {
        "x"
    } else if axis == 1 {
        "y"
    } else {
        "z"
    }
}

/// Direction of travel along an axis.
#[derive(Debug, Clone, Copy, PartialEq, Eq, Structural)]
pub enum WaveDirection {
    /// Towards increasing coordinate (`d = 1`).
    Forward,
    /// Towards decreasing coordinate (`d = -1`).
    Backward,
}

pub open spec fn direction_index(d: WaveDirection) -> int {
    match d {
        WaveDirection::Forward => 0,
        WaveDirection::Backward => 1,
    }
}

pub open spec fn direction_sign(d: WaveDirection) -> int {
    match d {
        WaveDirection::Forward => 1,
        WaveDirection::Backward => -1,
    }
}

/// What the symbolic checks found about the three components of a field.
#[derive(Debug, Clone, Copy)]
pub struct PlaneWaveProbe {
    /// Some component has a time derivative that does not vanish.
    pub time_dependent: bool,
    /// `component_zero[k]`: the component along axis `k` vanishes.
    pub component_zero: [bool; 3],
    /// `constant_along[e][k]`: the derivative of component `e` along axis `k` vanishes.
    pub constant_along: [[bool; 3]; 3],
    /// `wave_residual_zero[e][k][d]`: `F_t + d c F_k` vanishes for component `e`, with `d`
    /// the sign of the direction of index `d`.
    pub wave_residual_zero: [[[bool; 2]; 3]; 3],
}

/// Component `e` travels along axis `k` in the direction of index `d`.
pub open spec fn component_travels(p: PlaneWaveProbe, e: int, k: int, d: int) -> bool {
    &&& (k == 0 || p.constant_along[e][0])
    &&& (k == 1 || p.constant_along[e][1])
    &&& (k == 2 || p.constant_along[e][2])
    &&& p.wave_residual_zero[e][k][d]
}

/// The field is a plane wave along axis `k` in the direction of index `d`.
pub open spec fn travels_along(p: PlaneWaveProbe, k: int, d: int) -> bool {
    &&& p.component_zero[k]
    &&& component_travels(p, 0, k, d)
    &&& component_travels(p, 1, k, d)
    &&& component_travels(p, 2, k, d)
}

/// Axis `k2` with direction `d2` is tried before axis `k` with direction `d`: axes in order,
/// forward before backward.
pub open spec fn tried_before(k2: int, d2: int, k: int, d: int) -> bool {
    k2 < k || (k2 == k && d2 < d)
}

/// The axis and direction of the first plane wave found, in the order they are tried; a
/// static field is never taken for a wave.
pub open spec fn plane_wave_choice(p: PlaneWaveProbe, r: Option<(usize, WaveDirection)>) -> bool {
    match r {
        None => !p.time_dependent || forall|k: int, d: int|
            0 <= k < 3 && 0 <= d < 2 ==> !#[trigger] travels_along(p, k, d),
        Some((k, d)) => {
            &&& k < 3
            &&& p.time_dependent
            &&& travels_along(p, k as int, direction_index(d))
            &&& forall|k2: int, d2: int|
                0 <= k2 < 3 && 0 <= d2 < 2 && tried_before(k2, d2, k as int, direction_index(d))
                    ==> !#[trigger] travels_along(p, k2, d2)
        },
    }
}

fn component_travels_exec(p: &PlaneWaveProbe, e: usize, k: usize, d: usize) -> (b: bool)
    requires
        e < 3,
        k < 3,
        d < 2,
    ensures
        b == component_travels(*p, e as int, k as int, d as int),
{
    (k == 0 || p.constant_along[e][0]) && (k == 1 || p.constant_along[e][1]) && (k == 2
        || p.constant_along[e][2]) && p.wave_residual_zero[e][k][d]
}

/// Finds the axis and direction along which the probed field travels as a plane wave.
pub fn find_plane_wave(p: &PlaneWaveProbe) -> (r: Option<(usize, WaveDirection)>)
    ensures
        plane_wave_choice(*p, r),
{
    if !p.time_dependent {
        return None;
    }
    let mut k: usize = 0;
    while k < 3
        invariant
            k <= 3,
            p.time_dependent,
            forall|k2: int, d2: int|
                0 <= k2 < k && 0 <= d2 < 2 ==> !#[trigger] travels_along(*p, k2, d2),
        decreases 3 - k,
    {
        if p.component_zero[k] {
            let mut d: usize = 0;
            while d < 2
                invariant
                    k < 3,
                    d <= 2,
                    p.time_dependent,
                    p.component_zero[k as int],
                    forall|k2: int, d2: int|
                        0 <= k2 < 3 && 0 <= d2 < 2 && tried_before(k2, d2, k as int, d as int)
                            ==> !#[trigger] travels_along(*p, k2, d2),
                decreases 2 - d,
            {
                if component_travels_exec(p, 0, k, d) && component_travels_exec(p, 1, k, d)
                    && component_travels_exec(p, 2, k, d) {
                    let direction = if d == 0 {
                        WaveDirection::Forward
                    } else {
                        WaveDirection::Backward
                    };
                    return Some((k, direction));
                }
                d = d + 1;
            }
        }
        k = k + 1;
    }
    None
}

/// One component of a signed axis permutation: zero, or `±` a component of the input.
#[derive(Debug, Clone, Copy, PartialEq, Eq, Structural)]
pub enum SignedComponent {
    Zero,
    Plus(usize),
    Minus(usize),
}

pub open spec fn pick(c: SignedComponent, v: (int, int, int)) -> int {
    let at = |i: usize|
        if i == 0 {
            v.0
        } else if i == 1 {
            v.1
        } else {
            v.2
        };
    match c {
        SignedComponent::Zero => 0,
        SignedComponent::Plus(i) => at(i),
        SignedComponent::Minus(i) => -at(i),
    }
}

pub open spec fn apply_layout(r: [SignedComponent; 3], v: (int, int, int)) -> (int, int, int) {
    (pick(r[0], v), pick(r[1], v), pick(r[2], v))
}

pub open spec fn cross(u: (int, int, int), v: (int, int, int)) -> (int, int, int) {
    (u.1 * v.2 - u.2 * v.1, u.2 * v.0 - u.0 * v.2, u.0 * v.1 - u.1 * v.0)
}

/// The unit vector along axis `k`, times the sign of `d`.
pub open spec fn axis_vector(k: int, d: WaveDirection) -> (int, int, int) {
    let s = direction_sign(d);
    if k == 0 {
        (s, 0, 0)
    } else if k == 1 {
        (0, s, 0)
    } else {
        (0, 0, s)
    }
}

/// The cross product of a signed unit axis vector with `v`, component by component.
proof fn lemma_cross_with_axis(k: int, d: WaveDirection, v: (int, int, int))
    requires
        0 <= k < 3,
    ensures
        cross(axis_vector(k, d), v) == if d == WaveDirection::Forward {
            if k == 0 {
                (0int, -v.2, v.1)
            } else if k == 1 {
                (v.2, 0int, -v.0)
            } else {
                (-v.1, v.0, 0int)
            }
        } else {
            if k == 0 {
                (0int, v.2, -v.1)
            } else if k == 1 {
                (-v.2, 0int, v.0)
            } else {
                (v.1, -v.0, 0int)
            }
        },
{
    let s = direction_sign(d);
    if d == WaveDirection::Forward {
        assert(s == 1);
    } else {
        assert(s == -1);
    }
    if k == 0 {
        assert(cross((s, 0int, 0int), v) == (0int, -s * v.2, s * v.1)) by (nonlinear_arith);
    } else if k == 1 {
        assert(cross((0int, s, 0int), v) == (s * v.2, 0int, -s * v.0)) by (nonlinear_arith);
    } else {
        assert(cross((0int, 0int, s), v) == (-s * v.1, s * v.0, 0int)) by (nonlinear_arith);
    }
}

/// Components of `(d e_k) × v` in terms of those of `v`: the complementary field of a plane
/// wave, before scaling by the light speed.
pub fn cross_axis_layout(axis: usize, direction: WaveDirection) -> (r: [SignedComponent; 3])
    requires
        axis < 3,
    ensures
        forall|v: (int, int, int)| apply_layout(r, v) == cross(axis_vector(axis as int, direction), v),
{
    let forward = direction == WaveDirection::Forward;
    let plus = |i: usize| -> (c: SignedComponent)
        ensures
            c == if forward {
                SignedComponent::Plus(i)
            } else {
                SignedComponent::Minus(i)
            },
        {
            if forward {
                SignedComponent::Plus(i)
            } else {
                SignedComponent::Minus(i)
            }
        };
    let minus = |i: usize| -> (c: SignedComponent)
        ensures
            c == if forward {
                SignedComponent::Minus(i)
            } else {
                SignedComponent::Plus(i)
            },
        {
            if forward {
                SignedComponent::Minus(i)
            } else {
                SignedComponent::Plus(i)
            }
        };
    let r = if axis == 0 {
        [SignedComponent::Zero, minus(2), plus(1)]
    } else if axis == 1 {
        [plus(2), SignedComponent::Zero, minus(0)]
    } else {
        [minus(1), plus(0), SignedComponent::Zero]
    };
    assert forall|v: (int, int, int)|
        apply_layout(r, v) == cross(axis_vector(axis as int, direction), v) by {
        lemma_cross_with_axis(axis as int, direction, v);
    }
    r
}

/// Recovering a plane wave's field from its complementary field gives the field back: for a
/// field with no component along the axis, `(d e_k) × ((d e_k) × v) = -v`, and the two
/// light-speed factors `1/c` and `-c` cancel the sign.
pub proof fn lemma_cross_axis_twice_negates(k: int, d: WaveDirection, v: (int, int, int))
    requires
        0 <= k < 3,
        k == 0 ==> v.0 == 0,
        k == 1 ==> v.1 == 0,
        k == 2 ==> v.2 == 0,
    ensures
        cross(axis_vector(k, d), cross(axis_vector(k, d), v)) == (-v.0, -v.1, -v.2),
{
    lemma_cross_with_axis(k, d, v);
    lemma_cross_with_axis(k, d, cross(axis_vector(k, d), v));
}

/// Axis `k` with direction index `d` meets every condition of a plane wave: the component
/// along `k` vanishes, and every component is constant across both other axes and solves the
/// wave equation along `k` in that direction.
pub open spec fn wave_conditions(p: PlaneWaveProbe, k: int, d: int) -> bool {
    &&& 0 <= k < 3
    &&& 0 <= d < 2
    &&& p.component_zero[k]
    &&& forall|e: int, j: int|
        0 <= e < 3 && 0 <= j < 3 && j != k ==> #[trigger] p.constant_along[e][j]
    &&& forall|e: int| 0 <= e < 3 ==> #[trigger] p.wave_residual_zero[e][k][d]
}

/// A plane wave is reported only for a time-dependent field that meets every condition of a
/// wave along the reported axis in the reported direction, and whenever some axis and
/// direction meet them for a time-dependent field, a wave is reported.
pub proof fn lemma_plane_wave_choice_facts(p: PlaneWaveProbe, r: Option<(usize, WaveDirection)>)
    requires
        plane_wave_choice(p, r),
    ensures
        r matches Some((k, d)) ==> p.time_dependent && wave_conditions(
            p,
            k as int,
            direction_index(d),
        ),
        (p.time_dependent && exists|k: int, d: int| #[trigger] wave_conditions(p, k, d)) ==> r
            is Some,
{
    if let Some((k, d)) = r {
        let kk = k as int;
        let dd = direction_index(d);
        assert forall|e: int, j: int|
            0 <= e < 3 && 0 <= j < 3 && j != kk implies #[trigger] p.constant_along[e][j] by {
            assert(component_travels(p, e, kk, dd));
        }
        assert forall|e: int| 0 <= e < 3 implies #[trigger] p.wave_residual_zero[e][kk][dd] by {
            assert(component_travels(p, e, kk, dd));
        }
    }
    if p.time_dependent && r is None && exists|k: int, d: int| #[trigger] wave_conditions(p, k, d) {
        let (k, d) = choose|k: int, d: int| #[trigger] wave_conditions(p, k, d);
        assert forall|e: int| 0 <= e < 3 implies component_travels(p, e, k, d) by {
            assert(p.wave_residual_zero[e][k][d]);
            if k != 0 {
                assert(p.constant_along[e][0]);
            }
            if k != 1 {
                assert(p.constant_along[e][1]);
            }
            if k != 2 {
                assert(p.constant_along[e][2]);
            }
        }
        assert(travels_along(p, k, d));
    }
}

} // verus!
