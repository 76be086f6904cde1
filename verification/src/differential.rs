//! Differential forms on three-dimensional space: their degree, their coframe and their
//! components, and the Hodge star in an orthonormal coframe.
//!
//! Components are stored in front of each basis form: one component for 0- and 3-forms,
//! `dx, dy, dz` for 1-forms and `dx^dy, dy^dz, dz^dx` for 2-forms. The component type `E` is
//! the symbolic expression type of the caller.

use vstd::prelude::*;

verus! {

/// Coframe in which the components of a form are expressed.
#[derive(Clone, Copy, Debug, PartialEq, Eq, Structural)]
pub enum FormBasis {
    Natural,
    Orthonormal,
}

/// Exterior derivative of a differential form.
pub trait ExternalDerivative: Sized {
    /// Computes the exterior derivative of the implementing value.
    fn d(&mut self) -> Self;
}

/// A differential form: component expressions, degree and coframe.
pub struct Form<E> {
    pub exprs: Vec<E>,
    n_forms: usize,
    basis: FormBasis,
}

/// Number of components of a form of degree `n` in three dimensions.
pub open spec fn component_count(n: nat) -> nat {
    if n == 0 || n == 3 {
        1
    } else {
        3
    }
}

/// Degree of the Hodge dual of a degree-`n` form in three dimensions.
pub open spec fn hodge_degree(n: nat) -> nat {
    (3 - n) as nat
}

/// For each component of the Hodge dual, the index of the component it is taken from:
/// `*e1 = e2^e3`, `*e2 = e3^e1`, `*e3 = e1^e2` and `*(e1^e2) = e3`, `*(e2^e3) = e1`,
/// `*(e3^e1) = e2`; 0- and 3-forms keep their single component.
pub open spec fn hodge_indices(n: nat) -> Seq<int> {
    if n == 1 {
        seq![2, 0, 1]
    } else if n == 2 {
        seq![1, 2, 0]
    } else {
        seq![0]
    }
}

/// One term of an exterior derivative: component `target` of the result receives the partial
/// derivative of component `source` along coordinate `variable` (0 for `x`, 1 for `y`, 2 for
/// `z`), subtracted when `negative`.
#[derive(Clone, Copy, Debug, PartialEq, Eq, Structural)]
pub struct DerivativeTerm {
    pub target: usize,
    pub source: usize,
    pub variable: usize,
    pub negative: bool,
}

pub open spec fn term(target: usize, source: usize, variable: usize, negative: bool) -> DerivativeTerm {
    DerivativeTerm { target, source, variable, negative }
}

/// Degree of the exterior derivative of a degree-`n` form; the derivative of a 3-form is
/// the zero 0-form.
pub open spec fn derivative_degree(n: nat) -> nat {
    if n == 3 {
        0
    } else {
        n + 1
    }
}

/// Terms of the exterior derivative of a degree-`n` form, in the order they are summed:
/// `d f = f_x dx + f_y dy + f_z dz`;
/// `d(A dx + B dy + C dz) = (B_x - A_y) dx^dy + (C_y - B_z) dy^dz + (A_z - C_x) dz^dx`;
/// `d(P dx^dy + Q dy^dz + R dz^dx) = (Q_x + R_y + P_z) dx^dy^dz`; a 3-form has none.
pub open spec fn derivative_terms(n: nat) -> Seq<DerivativeTerm> {
    if n == 0 {
        seq![term(0, 0, 0, false), term(1, 0, 1, false), term(2, 0, 2, false)]
    } else if n == 1 {
        seq![
            term(0, 1, 0, false),
            term(0, 0, 1, true),
            term(1, 2, 1, false),
            term(1, 1, 2, true),
            term(2, 0, 2, false),
            term(2, 2, 0, true),
        ]
    } else if n == 2 {
        seq![term(0, 1, 0, false), term(0, 2, 1, false), term(0, 0, 2, false)]
    } else {
        seq![]
    }
}

pub open spec fn term_sign(t: DerivativeTerm) -> int {
    if t.negative {
        -1
    } else {
        1
    }
}

/// Coefficient of the derivative along `a` of component `s` in component `m`, summed over the
/// first `k` terms.
pub open spec fn first_order_coefficient(
    terms: Seq<DerivativeTerm>,
    k: nat,
    m: int,
    s: int,
    a: int,
) -> int
    decreases k,
{
    if k == 0 {
        0
    } else {
        let t = terms[k - 1];
        first_order_coefficient(terms, (k - 1) as nat, m, s, a) + if t.target == m && t.source
            == s && t.variable == a {
            term_sign(t)
        } else {
            0
        }
    }
}

/// Coefficient of the second derivative, first along `a` then along `b`, of component `s` of
/// a form, in component `c` of the derivative of its derivative; `outer` are the terms of the
/// second derivative and `inner` those of the first, the first `k` outer terms summed.
pub open spec fn second_order_coefficient(
    outer: Seq<DerivativeTerm>,
    inner: Seq<DerivativeTerm>,
    k: nat,
    c: int,
    s: int,
    a: int,
    b: int,
) -> int
    decreases k,
{
    if k == 0 {
        0
    } else {
        let o = outer[k - 1];
        second_order_coefficient(outer, inner, (k - 1) as nat, c, s, a, b) + if o.target == c
            && o.variable == b {
            let f = first_order_coefficient(inner, inner.len(), o.source as int, s, a);
            if o.negative {
                -f
            } else {
                f
            }
        } else {
            0
        }
    }
}

/// Coefficient of `d_b d_a` of component `s` of a degree-`n` form in component `c` of
/// `d(d w)`.
pub open spec fn dd_coefficient(n: nat, c: int, s: int, a: int, b: int) -> int {
    let outer = derivative_terms(derivative_degree(n));
    let inner = derivative_terms(n);
    second_order_coefficient(outer, inner, outer.len(), c, s, a, b)
}

/// `h` is the Hodge star of `f`: orthonormal, of the dual degree, each component a clone of
/// the component of `f` that [`hodge_indices`] names.
pub open spec fn hodge_of<E: Clone>(f: Form<E>, h: Form<E>) -> bool {
    &&& h.coframe() == FormBasis::Orthonormal
    &&& h.degree() == hodge_degree(f.degree())
    &&& h.components().len() == hodge_indices(f.degree()).len()
    &&& forall|i: int|
        0 <= i < h.components().len() ==> cloned(
            f.components()[hodge_indices(f.degree())[i]],
            #[trigger] h.components()[i],
        )
}

/// Cloning any of these values gives the value itself (as for integers and other plain
/// copies).
pub open spec fn clones_exactly<E: Clone>(s: Seq<E>) -> bool {
    forall|i: int, c: E| 0 <= i < s.len() && #[trigger] cloned(s[i], c) ==> c == s[i]
}

impl<E> Form<E> {
    /// Component expressions of the form.
    pub closed spec fn components(&self) -> Seq<E> {
        self.exprs@
    }

    /// Degree of the form.
    pub closed spec fn degree(&self) -> nat {
        self.n_forms as nat
    }

    /// Coframe of the form.
    pub closed spec fn coframe(&self) -> FormBasis {
        self.basis
    }

    /// Builds a differential form in the natural coordinate coframe.
    pub fn new(exprs: Vec<E>, n_forms: usize) -> (r: Self)
        ensures
            r.components() == exprs@,
            r.degree() == n_forms,
            r.coframe() == FormBasis::Natural,
    {
        Self::new_in_basis(exprs, n_forms, FormBasis::Natural)
    }

    /// Builds a differential form in the local orthonormal coframe.
    pub fn new_otn(exprs: Vec<E>, n_forms: usize) -> (r: Self)
        ensures
            r.components() == exprs@,
            r.degree() == n_forms,
            r.coframe() == FormBasis::Orthonormal,
    {
        Self::new_in_basis(exprs, n_forms, FormBasis::Orthonormal)
    }

    /// Builds a differential form in the supplied coframe.
    pub fn new_in_basis(exprs: Vec<E>, n_forms: usize, basis: FormBasis) -> (r: Self)
        ensures
            r.components() == exprs@,
            r.degree() == n_forms,
            r.coframe() == basis,
    {
        Form { exprs, n_forms, basis }
    }

    /// Returns the coframe currently attached to this form.
    pub fn basis(&self) -> (b: FormBasis)
        ensures
            b == self.coframe(),
    {
        self.basis
    }

    /// Returns the same components and degree tagged with another coframe.
    pub fn with_basis(self, basis: FormBasis) -> (r: Self)
        ensures
            r.components() == self.components(),
            r.degree() == self.degree(),
            r.coframe() == basis,
    {
        Form { exprs: self.exprs, n_forms: self.n_forms, basis }
    }

    /// Checks that this form is expressed in the expected coframe; any other coframe is a
    /// caller error.
    pub fn expect_basis(&self, expected: FormBasis)
        requires
            self.coframe() == expected,
    {
    }

    /// Returns the degree of this differential form.
    pub fn n_forms(&self) -> (n: usize)
        ensures
            n == self.degree(),
    {
        self.n_forms
    }

    /// Returns one component expression of the form.
    pub fn get_expr(&self, i: usize) -> (r: &E)
        requires
            i < self.components().len(),
        ensures
            *r == self.components()[i as int],
    {
        &self.exprs[i]
    }

    /// Applies the 3D Hodge star in a positively oriented orthonormal coframe.
    pub fn hodge_star_otn_3d(&self) -> (r: Form<E>) where E: Clone
        requires
            self.coframe() == FormBasis::Orthonormal,
            self.degree() <= 3,
            self.components().len() >= component_count(self.degree()),
        ensures
            hodge_of(*self, r),
    {
        self.expect_basis(FormBasis::Orthonormal);
        let mut out: Vec<E> = Vec::new();
        if self.n_forms == 1 {
            out.push(self.exprs[2].clone());
            out.push(self.exprs[0].clone());
            out.push(self.exprs[1].clone());
        } else if self.n_forms == 2 {
            out.push(self.exprs[1].clone());
            out.push(self.exprs[2].clone());
            out.push(self.exprs[0].clone());
        } else {
            out.push(self.exprs[0].clone());
        }
        Form::new_otn(out, 3 - self.n_forms)
    }

    /// Layout of the exterior derivative of this natural-coframe form: the degree of the
    /// result and, in summation order, the partial derivatives each of its components adds up.
    /// A component that no term reaches is zero.
    pub fn derivative_layout(&self) -> (r: (usize, Vec<DerivativeTerm>))
        requires
            self.coframe() == FormBasis::Natural,
            self.degree() <= 3,
        ensures
            r.0 == derivative_degree(self.degree()),
            r.1@ == derivative_terms(self.degree()),
            forall|i: int|
                0 <= i < r.1@.len() ==> {
                    &&& (#[trigger] r.1@[i]).target < component_count(r.0 as nat)
                    &&& r.1@[i].source < component_count(self.degree())
                    &&& r.1@[i].variable < 3
                },
    {
        self.expect_basis(FormBasis::Natural);
        let mut terms: Vec<DerivativeTerm> = Vec::new();
        let n = self.n_forms;
        if n == 0 {
            terms.push(DerivativeTerm { target: 0, source: 0, variable: 0, negative: false });
            terms.push(DerivativeTerm { target: 1, source: 0, variable: 1, negative: false });
            terms.push(DerivativeTerm { target: 2, source: 0, variable: 2, negative: false });
        } else if n == 1 {
            terms.push(DerivativeTerm { target: 0, source: 1, variable: 0, negative: false });
            terms.push(DerivativeTerm { target: 0, source: 0, variable: 1, negative: true });
            terms.push(DerivativeTerm { target: 1, source: 2, variable: 1, negative: false });
            terms.push(DerivativeTerm { target: 1, source: 1, variable: 2, negative: true });
            terms.push(DerivativeTerm { target: 2, source: 0, variable: 2, negative: false });
            terms.push(DerivativeTerm { target: 2, source: 2, variable: 0, negative: true });
        } else if n == 2 {
            terms.push(DerivativeTerm { target: 0, source: 1, variable: 0, negative: false });
            terms.push(DerivativeTerm { target: 0, source: 2, variable: 1, negative: false });
            terms.push(DerivativeTerm { target: 0, source: 0, variable: 2, negative: false });
        }
        assert(terms@ =~= derivative_terms(n as nat));
        let degree = if n == 3 {
            0
        } else {
            n + 1
        };
        (degree, terms)
    }
}

proof fn lemma_dd_antisymmetric_0(c: int, s: int, a: int, b: int)
    ensures
        dd_coefficient(0, c, s, a, b) + dd_coefficient(0, c, s, b, a) == 0,
{
    let inner = derivative_terms(0);
    reveal_with_fuel(first_order_coefficient, 4);
    reveal_with_fuel(second_order_coefficient, 7);
    assert forall|m: int, s2: int, a2: int|
        0 <= m < 3 ==> #[trigger] first_order_coefficient(inner, 3, m, s2, a2) == if s2 == 0
            && a2 == m {
            1int
        } else {
            0int
        } by {}
}

proof fn lemma_dd_antisymmetric_1(c: int, s: int, a: int, b: int)
    ensures
        dd_coefficient(1, c, s, a, b) + dd_coefficient(1, c, s, b, a) == 0,
{
    let inner = derivative_terms(1);
    reveal_with_fuel(first_order_coefficient, 7);
    reveal_with_fuel(second_order_coefficient, 4);
    assert forall|s2: int, a2: int|
        #[trigger] first_order_coefficient(inner, 6, 1, s2, a2) == if s2 == 2 && a2 == 1 {
            1int
        } else if s2 == 1 && a2 == 2 {
            -1int
        } else {
            0int
        } by {}
    assert forall|s2: int, a2: int|
        #[trigger] first_order_coefficient(inner, 6, 2, s2, a2) == if s2 == 0 && a2 == 2 {
            1int
        } else if s2 == 2 && a2 == 0 {
            -1int
        } else {
            0int
        } by {}
    assert forall|s2: int, a2: int|
        #[trigger] first_order_coefficient(inner, 6, 0, s2, a2) == if s2 == 1 && a2 == 0 {
            1int
        } else if s2 == 0 && a2 == 1 {
            -1int
        } else {
            0int
        } by {}
}

/// Applying the exterior derivative twice gives zero: since partial derivatives commute, in
/// every component of `d(d w)` the coefficient of each second derivative `d_a d_b` of each
/// component of `w` cancels against that of `d_b d_a`.
pub proof fn lemma_exterior_derivative_twice_vanishes(n: nat, c: int, s: int, a: int, b: int)
    requires
        n <= 3,
    ensures
        dd_coefficient(n, c, s, a, b) + dd_coefficient(n, c, s, b, a) == 0,
{
    reveal_with_fuel(second_order_coefficient, 4);
    if n == 0 {
        lemma_dd_antisymmetric_0(c, s, a, b);
    } else if n == 1 {
        lemma_dd_antisymmetric_1(c, s, a, b);
    } else if n == 3 {
        reveal_with_fuel(first_order_coefficient, 1);
    }
}

/// The Hodge star of an orthonormal 3D form is an involution: the dual of the dual has the
/// original degree, and each of its components is taken back from the original position.
pub proof fn lemma_hodge_star_is_involution(n: nat)
    requires
        n <= 3,
    ensures
        hodge_degree(hodge_degree(n)) == n,
        component_count(hodge_degree(n)) == component_count(n),
        hodge_indices(n).len() == component_count(n),
        hodge_indices(hodge_degree(n)).len() == component_count(n),
        forall|i: int|
            0 <= i < component_count(n) ==> hodge_indices(n)[#[trigger] hodge_indices(
                hodge_degree(n),
            )[i]] == i,
{
}

/// The Hodge star applied twice to an orthonormal form gives the form back: same degree,
/// same coframe and the same components, for components whose clones equal them.
pub proof fn lemma_hodge_star_round_trip<E: Clone>(f: Form<E>, h: Form<E>, g: Form<E>)
    requires
        f.coframe() == FormBasis::Orthonormal,
        f.degree() <= 3,
        f.components().len() == component_count(f.degree()),
        clones_exactly(f.components()),
        hodge_of(f, h),
        hodge_of(h, g),
    ensures
        h.degree() <= 3,
        h.components().len() == component_count(h.degree()),
        g.coframe() == FormBasis::Orthonormal,
        g.degree() == f.degree(),
        g.components() == f.components(),
{
    let n = f.degree();
    lemma_hodge_star_is_involution(n);
    let fc = f.components();
    let hc = h.components();
    let gc = g.components();
    assert forall|i: int| 0 <= i < hc.len() implies hc[i] == fc[hodge_indices(n)[i]] by {
        assert(cloned(fc[hodge_indices(n)[i]], hc[i]));
    }
    assert forall|i: int| 0 <= i < gc.len() implies gc[i] == fc[i] by {
        let j = hodge_indices(hodge_degree(n))[i];
        assert(cloned(hc[j], gc[i]));
        assert(hc[j] == fc[hodge_indices(n)[j]]);
        assert(cloned(fc[hodge_indices(n)[j]], gc[i]));
    }
    assert(gc =~= fc);
}

/// The exterior derivative's coefficients: `d f` is the gradient `(f_x, f_y, f_z)`;
/// `d(A dx + B dy + C dz)` is the curl `(B_x - A_y, C_y - B_z, A_z - C_x)` in the order
/// `dx^dy, dy^dz, dz^dx`; `d(P dx^dy + Q dy^dz + R dz^dx) = (Q_x + R_y + P_z) dx^dy^dz`; and
/// `d` of a 3-form has no terms. Every coefficient not listed is zero.
pub proof fn lemma_exterior_derivative_coefficients(m: int, s: int, a: int)
    ensures
        first_order_coefficient(derivative_terms(0), 3, m, s, a) == if s == 0 && 0 <= m < 3 && a
            == m {
            1int
        } else {
            0int
        },
        first_order_coefficient(derivative_terms(1), 6, m, s, a) == if m == 0 && s == 1 && a == 0 {
            1int
        } else if m == 0 && s == 0 && a == 1 {
            -1int
        } else if m == 1 && s == 2 && a == 1 {
            1int
        } else if m == 1 && s == 1 && a == 2 {
            -1int
        } else if m == 2 && s == 0 && a == 2 {
            1int
        } else if m == 2 && s == 2 && a == 0 {
            -1int
        } else {
            0int
        },
        first_order_coefficient(derivative_terms(2), 3, m, s, a) == if m == 0 && ((s == 1 && a
            == 0) || (s == 2 && a == 1) || (s == 0 && a == 2)) {
            1int
        } else {
            0int
        },
        derivative_terms(0).len() == 3,
        derivative_terms(1).len() == 6,
        derivative_terms(2).len() == 3,
        derivative_terms(3).len() == 0,
        derivative_degree(0) == 1 && derivative_degree(1) == 2 && derivative_degree(2) == 3
            && derivative_degree(3) == 0,
{
    reveal_with_fuel(first_order_coefficient, 7);
}

} // verus!
