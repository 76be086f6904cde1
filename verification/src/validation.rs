//! Validation of the equations entered in the control window before they are applied.
//!
//! Parsing itself is done by the expression engine; each equation's parse outcome reaches
//! this module as a [`ParseReport`]. This module decides which equations the active mode
//! checks, which variables each may use, and how failures are reported.

use crate::text::{contains_str, join, join_strings, strings_view, strs_view};
use crate::ui_state::{EmMode, EmUiDrafts, EqRender, FieldKind, GridUiDrafts, SpacialEqs};
use vstd::prelude::*;
use vstd::string::StringExecFns;

verus! {

/// What parsing one equation source gave.
pub enum ParseReport<E> {
    /// The source parsed into `expr`, whose free variables are `variables`.
    Parsed { expr: E, variables: Vec<String> },
    /// The source did not parse; the payload is the parser's message.
    Failed(String),
}

/// Parse outcomes of the three components of a [`SpacialEqs`].
pub struct SpacialParses<E> {
    pub x: ParseReport<E>,
    pub y: ParseReport<E>,
    pub z: ParseReport<E>,
}

/// Parse outcomes of every equation of an [`EmUiDrafts`].
pub struct EmParses<E> {
    pub phi: ParseReport<E>,
    pub vector_potential: SpacialParses<E>,
    pub electric_field: SpacialParses<E>,
    pub magnetic_field: SpacialParses<E>,
}

/// Parse outcomes of every equation of a [`GridUiDrafts`].
pub struct GridUiParses<E> {
    pub coords_sys: SpacialParses<E>,
    pub scalar_field: ParseReport<E>,
    pub field: SpacialParses<E>,
    pub em: EmParses<E>,
}

/// The equations of a control-window state once every active one has been reparsed.
pub struct ValidatedUiState<E> {
    pub coords_sys: SpacialEqs<E>,
    pub scalar_field: EqRender<E>,
    pub field: SpacialEqs<E>,
    pub em: EmUiDrafts<E>,
}

// ---------------------------------------------------------------------------------------------
// Messages
// ---------------------------------------------------------------------------------------------

/// Message for an empty equation.
pub open spec fn empty_equation_message(label: Seq<char>) -> Seq<char> {
    label + ": Equation cannot be empty"@
}

/// Message for an equation the parser rejected.
pub open spec fn invalid_equation_message(label: Seq<char>, error: Seq<char>) -> Seq<char> {
    label + ": Invalid equation: "@ + error
}

/// One variable name between single quotes.
pub open spec fn quoted(name: Seq<char>) -> Seq<char> {
    "'"@ + name + "'"@
}

/// Human-readable list of the allowed variable names.
pub open spec fn allowed_variables_text(allowed: Seq<Seq<char>>) -> Seq<char> {
    if allowed == seq!["x"@, "y"@, "z"@] {
        "'x', 'y', and 'z'"@
    } else if allowed == seq!["x"@, "y"@, "z"@, "t"@] {
        "'x', 'y', 'z', and 't'"@
    } else {
        join(allowed.map_values(|v: Seq<char>| quoted(v)), ", "@)
    }
}

/// Message for an equation that uses a variable outside the allowed ones.
pub open spec fn invalid_variable_message(
    label: Seq<char>,
    name: Seq<char>,
    allowed: Seq<Seq<char>>,
) -> Seq<char> {
    label + ": Invalid variable '"@ + name + "'. Only "@ + allowed_variables_text(allowed)
        + " are allowed."@
}

/// Header of the message shown when some equations are invalid, followed by one line each.
pub open spec fn error_summary(errors: Seq<Seq<char>>) -> Seq<char> {
    "Error in equation(s):\n"@ + join(errors, "\n"@)
}

/// First variable, in the order given, that is not among the allowed ones.
pub open spec fn first_disallowed(vars: Seq<Seq<char>>, allowed: Seq<Seq<char>>) -> Option<
    Seq<char>,
>
    decreases vars.len(),
{
    if vars.len() == 0 {
        None
    } else if !allowed.contains(vars[0]) {
        Some(vars[0])
    } else {
        first_disallowed(vars.drop_first(), allowed)
    }
}

/// Error reported for one equation source and its parse outcome, or `None` when it is valid.
pub open spec fn equation_error<E>(
    label: Seq<char>,
    eq: Seq<char>,
    parsed: ParseReport<E>,
    allowed: Seq<Seq<char>>,
) -> Option<Seq<char>> {
    if eq.len() == 0 {
        Some(empty_equation_message(label))
    } else {
        match parsed {
            ParseReport::Failed(msg) => Some(invalid_equation_message(label, msg@)),
            ParseReport::Parsed { expr, variables } => match first_disallowed(
                strings_view(variables@),
                allowed,
            ) {
                Some(name) => Some(invalid_variable_message(label, name, allowed)),
                None => None,
            },
        }
    }
}

/// `r` is what validating the equation source `eq` with parse outcome `parsed` gives.
pub open spec fn equation_result<E>(
    label: Seq<char>,
    eq: Seq<char>,
    parsed: ParseReport<E>,
    allowed: Seq<Seq<char>>,
    r: Result<EqRender<E>, String>,
) -> bool {
    match equation_error(label, eq, parsed, allowed) {
        Some(msg) => r is Err && r->Err_0@ == msg,
        None => r is Ok && r->Ok_0.eq_str@ == eq && (parsed matches ParseReport::Parsed {
            expr,
            ..
        } && r->Ok_0.eq == expr),
    }
}

/// Error of one equation slot: only active slots are checked.
pub open spec fn slot_error<E>(
    active: bool,
    label: Seq<char>,
    draft: EqRender<E>,
    parsed: ParseReport<E>,
    allowed: Seq<Seq<char>>,
) -> Option<Seq<char>> {
    if active {
        equation_error(label, draft.eq_str@, parsed, allowed)
    } else {
        None
    }
}

/// `v` is the validated content of one equation slot: the reparsed equation when the slot is
/// active, the draft unchanged otherwise.
pub open spec fn slot_value<E>(
    active: bool,
    draft: EqRender<E>,
    parsed: ParseReport<E>,
    v: EqRender<E>,
) -> bool {
    if active {
        v.eq_str@ == draft.eq_str@ && (parsed matches ParseReport::Parsed { expr, .. } && v.eq
            == expr)
    } else {
        v == draft
    }
}

/// A one-element sequence holding the error, or nothing.
pub open spec fn opt_seq(o: Option<Seq<char>>) -> Seq<Seq<char>> {
    match o {
        Some(e) => seq![e],
        None => Seq::empty(),
    }
}

pub open spec fn xyz() -> Seq<Seq<char>> {
    seq!["x"@, "y"@, "z"@]
}

pub open spec fn xyzt() -> Seq<Seq<char>> {
    seq!["x"@, "y"@, "z"@, "t"@]
}

/// Errors of the electromagnetism equations, in the order they are reported.
pub open spec fn em_errors<E>(em: EmUiDrafts<E>, p: EmParses<E>) -> Seq<Seq<char>> {
    let pot = em.mode == EmMode::Potentials;
    let ele = em.mode == EmMode::Electric;
    let mag = em.mode == EmMode::Magnetic;
    opt_seq(slot_error(pot, "EM phi"@, em.phi, p.phi, xyzt())) + opt_seq(
        slot_error(pot, "EM Ax"@, em.vector_potential.x, p.vector_potential.x, xyzt()),
    ) + opt_seq(slot_error(pot, "EM Ay"@, em.vector_potential.y, p.vector_potential.y, xyzt()))
        + opt_seq(slot_error(pot, "EM Az"@, em.vector_potential.z, p.vector_potential.z, xyzt()))
        + opt_seq(slot_error(ele, "EM Ex"@, em.electric_field.x, p.electric_field.x, xyzt()))
        + opt_seq(slot_error(ele, "EM Ey"@, em.electric_field.y, p.electric_field.y, xyzt()))
        + opt_seq(slot_error(ele, "EM Ez"@, em.electric_field.z, p.electric_field.z, xyzt()))
        + opt_seq(slot_error(mag, "EM Bx"@, em.magnetic_field.x, p.magnetic_field.x, xyzt()))
        + opt_seq(slot_error(mag, "EM By"@, em.magnetic_field.y, p.magnetic_field.y, xyzt()))
        + opt_seq(slot_error(mag, "EM Bz"@, em.magnetic_field.z, p.magnetic_field.z, xyzt()))
}

/// The single error line of the electromagnetism section, if any of its equations fails.
pub open spec fn em_error<E>(em: EmUiDrafts<E>, p: EmParses<E>) -> Option<Seq<char>> {
    if !em.enabled || em_errors(em, p).len() == 0 {
        None
    } else {
        Some(join(em_errors(em, p), "\n"@))
    }
}

/// Errors of a whole control-window state, in the order they are reported.
pub open spec fn ui_errors<E>(s: GridUiDrafts<E>, p: GridUiParses<E>) -> Seq<Seq<char>> {
    let scalar = !s.em.enabled && s.field_kind == FieldKind::Scalar;
    let vector = !s.em.enabled && s.field_kind == FieldKind::Vector;
    opt_seq(slot_error(true, "Coordinate x"@, s.coords_sys.x, p.coords_sys.x, xyz())) + opt_seq(
        slot_error(true, "Coordinate y"@, s.coords_sys.y, p.coords_sys.y, xyz()),
    ) + opt_seq(slot_error(true, "Coordinate z"@, s.coords_sys.z, p.coords_sys.z, xyz()))
        + opt_seq(slot_error(scalar, "Scalar field"@, s.scalar_field, p.scalar_field, xyz()))
        + opt_seq(slot_error(vector, "Field Fx"@, s.field.x, p.field.x, xyz())) + opt_seq(
        slot_error(vector, "Field Fy"@, s.field.y, p.field.y, xyz()),
    ) + opt_seq(slot_error(vector, "Field Fz"@, s.field.z, p.field.z, xyz())) + opt_seq(
        em_error(s.em, p.em),
    )
}

/// `v` holds the validated electromagnetism equations of `em`, every other setting unchanged.
pub open spec fn em_validated<E>(em: EmUiDrafts<E>, p: EmParses<E>, v: EmUiDrafts<E>) -> bool {
    let on = em.enabled;
    let pot = on && em.mode == EmMode::Potentials;
    let ele = on && em.mode == EmMode::Electric;
    let mag = on && em.mode == EmMode::Magnetic;
    &&& v.enabled == em.enabled
    &&& v.mode == em.mode
    &&& v.gauge == em.gauge
    &&& v.normalize_vectors == em.normalize_vectors
    &&& v.layers == em.layers
    &&& v.reset_counter == em.reset_counter
    &&& v.running == em.running
    &&& slot_value(pot, em.phi, p.phi, v.phi)
    &&& slot_value(pot, em.vector_potential.x, p.vector_potential.x, v.vector_potential.x)
    &&& slot_value(pot, em.vector_potential.y, p.vector_potential.y, v.vector_potential.y)
    &&& slot_value(pot, em.vector_potential.z, p.vector_potential.z, v.vector_potential.z)
    &&& slot_value(ele, em.electric_field.x, p.electric_field.x, v.electric_field.x)
    &&& slot_value(ele, em.electric_field.y, p.electric_field.y, v.electric_field.y)
    &&& slot_value(ele, em.electric_field.z, p.electric_field.z, v.electric_field.z)
    &&& slot_value(mag, em.magnetic_field.x, p.magnetic_field.x, v.magnetic_field.x)
    &&& slot_value(mag, em.magnetic_field.y, p.magnetic_field.y, v.magnetic_field.y)
    &&& slot_value(mag, em.magnetic_field.z, p.magnetic_field.z, v.magnetic_field.z)
}

// ---------------------------------------------------------------------------------------------
// Executable validation
// ---------------------------------------------------------------------------------------------

/// Lists the allowed variable names for an error message.
pub fn format_allowed_variables(allowed_variables: &[&str]) -> (r: String)
    ensures
        r@ == allowed_variables_text(strs_view(allowed_variables@)),
{
    let ghost allowed = strs_view(allowed_variables@);
    let n = allowed_variables.len();
    assert(allowed.len() == n);
    assert(forall|j: int| 0 <= j < n ==> allowed[j] == (#[trigger] allowed_variables@[j])@);
    let is_xyz = n == 3 && crate::text::str_eq(allowed_variables[0], "x")
        && crate::text::str_eq(allowed_variables[1], "y") && crate::text::str_eq(
        allowed_variables[2],
        "z",
    );
    let is_xyzt = n == 4 && crate::text::str_eq(allowed_variables[0], "x")
        && crate::text::str_eq(allowed_variables[1], "y") && crate::text::str_eq(
        allowed_variables[2],
        "z",
    ) && crate::text::str_eq(allowed_variables[3], "t");
    proof {
        if is_xyz {
            assert(allowed =~= seq!["x"@, "y"@, "z"@]);
        } else if allowed == seq!["x"@, "y"@, "z"@] {
            assert(allowed_variables@[0]@ == "x"@);
            assert(allowed_variables@[1]@ == "y"@);
            assert(allowed_variables@[2]@ == "z"@);
        }
        if is_xyzt {
            assert(allowed =~= seq!["x"@, "y"@, "z"@, "t"@]);
        } else if allowed == seq!["x"@, "y"@, "z"@, "t"@] {
            assert(allowed_variables@[0]@ == "x"@);
            assert(allowed_variables@[1]@ == "y"@);
            assert(allowed_variables@[2]@ == "z"@);
            assert(allowed_variables@[3]@ == "t"@);
        }
    }
    if is_xyz {
        String::from_str("'x', 'y', and 'z'")
    } else if is_xyzt {
        String::from_str("'x', 'y', 'z', and 't'")
    } else {
        let mut quoted_names: Vec<String> = Vec::new();
        let mut i: usize = 0;
        while i < n
            invariant
                n == allowed_variables@.len(),
                allowed == strs_view(allowed_variables@),
                i <= n,
                quoted_names@.len() == i,
                forall|j: int| 0 <= j < i ==> #[trigger] quoted_names@[j]@ == quoted(allowed[j]),
            decreases n - i,
        {
            let mut q = String::from_str("'");
            q.append(allowed_variables[i]);
            q.append("'");
            quoted_names.push(q);
            i = i + 1;
        }
        assert(strings_view(quoted_names@) =~= allowed.map_values(|v: Seq<char>| quoted(v)));
        join_strings(quoted_names.as_slice(), ", ")
    }
}

/// The error text of a result, if it is an error.
pub open spec fn err_view<T>(r: Result<T, String>) -> Option<Seq<char>> {
    match r {
        Ok(_) => None,
        Err(e) => Some(e@),
    }
}

/// Appends one validation error to the aggregated error list when present.
pub fn collect_error<T>(result: &Result<T, String>, errors: &mut Vec<String>)
    ensures
        match result {
            Ok(_) => final(errors)@ == old(errors)@,
            Err(e) => final(errors)@ == old(errors)@.push(*e),
        },
        strings_view(final(errors)@) == strings_view(old(errors)@) + opt_seq(err_view(*result)),
{
    if let Err(error) = result {
        errors.push(error.clone());
        assert(strings_view(errors@) =~= strings_view(old(errors)@) + opt_seq(err_view(*result)));
    } else {
        assert(strings_view(errors@) =~= strings_view(old(errors)@) + opt_seq(err_view(*result)));
    }
}

/// Builds the multiline error message shown by the control window.
pub fn format_error_summary(errors: &[String]) -> (r: String)
    ensures
        r@ == error_summary(strings_view(errors@)),
{
    let mut message = String::from_str("Error in equation(s):\n");
    let joined = join_strings(errors, "\n");
    message.append(joined.as_str());
    message
}

/// Returns the first of `variables` that is not among `allowed`, as `find` would.
fn find_disallowed(variables: &Vec<String>, allowed: &[&str]) -> (r: Option<usize>)
    ensures
        match r {
            Some(k) => k < variables@.len() && first_disallowed(
                strings_view(variables@),
                strs_view(allowed@),
            ) == Some(variables@[k as int]@),
            None => first_disallowed(strings_view(variables@), strs_view(allowed@)) is None,
        },
{
    let ghost vars = strings_view(variables@);
    let ghost allow = strs_view(allowed@);
    let mut i: usize = 0;
    assert(vars.skip(0) =~= vars);
    while i < variables.len()
        invariant
            i <= variables@.len(),
            vars == strings_view(variables@),
            allow == strs_view(allowed@),
            first_disallowed(vars, allow) == first_disallowed(vars.skip(i as int), allow),
        decreases variables.len() - i,
    {
        proof {
            assert(vars.skip(i as int).drop_first() =~= vars.skip(i + 1));
            assert(vars.skip(i as int)[0] == variables@[i as int]@);
        }
        if !contains_str(allowed, variables[i].as_str()) {
            return Some(i);
        }
        i = i + 1;
    }
    assert(vars.skip(i as int).len() == 0);
    None
}

/// Checks one equation: non-empty, parsed, and using only the allowed variables.
pub fn validate_equation<E>(
    label: &str,
    eq: &str,
    parsed: ParseReport<E>,
    allowed_variables: &[&str],
) -> (r: Result<EqRender<E>, String>)
    ensures
        equation_result(label@, eq@, parsed, strs_view(allowed_variables@), r),
{
    if eq.unicode_len() == 0 {
        let mut msg = String::from_str(label);
        msg.append(": Equation cannot be empty");
        return Err(msg);
    }
    match parsed {
        ParseReport::Failed(error) => {
            let mut msg = String::from_str(label);
            msg.append(": Invalid equation: ");
            msg.append(error.as_str());
            Err(msg)
        },
        ParseReport::Parsed { expr, variables } => {
            match find_disallowed(&variables, allowed_variables) {
                Some(k) => {
                    let allowed_text = format_allowed_variables(allowed_variables);
                    let mut msg = String::from_str(label);
                    msg.append(": Invalid variable '");
                    msg.append(variables[k].as_str());
                    msg.append("'. Only ");
                    msg.append(allowed_text.as_str());
                    msg.append(" are allowed.");
                    Err(msg)
                },
                None => Ok(EqRender::new(expr, String::from_str(eq))),
            }
        },
    }
}

/// Checks one equation over the spatial variables `x`, `y` and `z`.
pub fn validate_xyz_equation<E>(label: &str, eq: &str, parsed: ParseReport<E>) -> (r: Result<
    EqRender<E>,
    String,
>)
    ensures
        equation_result(label@, eq@, parsed, xyz(), r),
{
    let allowed: [&str; 3] = ["x", "y", "z"];
    let r = validate_equation(label, eq, parsed, allowed.as_slice());
    assert(strs_view(allowed@) =~= xyz());
    r
}

/// Checks one equation over the spatial variables and the time `t`.
pub fn validate_xyzt_equation<E>(label: &str, eq: &str, parsed: ParseReport<E>) -> (r: Result<
    EqRender<E>,
    String,
>)
    ensures
        equation_result(label@, eq@, parsed, xyzt(), r),
{
    let allowed: [&str; 4] = ["x", "y", "z", "t"];
    let r = validate_equation(label, eq, parsed, allowed.as_slice());
    assert(strs_view(allowed@) =~= xyzt());
    r
}

/// Validates one equation slot: an active slot is checked against its parse outcome, an
/// inactive one is kept as it is.
fn validate_slot<E>(
    active: bool,
    label: &str,
    draft: EqRender<E>,
    parsed: ParseReport<E>,
    with_time: bool,
) -> (r: Result<EqRender<E>, String>)
    ensures
        err_view(r) == slot_error(
            active,
            label@,
            draft,
            parsed,
            if with_time {
                xyzt()
            } else {
                xyz()
            },
        ),
        r matches Ok(v) ==> slot_value(active, draft, parsed, v),
{
    if !active {
        return Ok(draft);
    }
    if with_time {
        validate_xyzt_equation(label, draft.eq_str.as_str(), parsed)
    } else {
        validate_xyz_equation(label, draft.eq_str.as_str(), parsed)
    }
}

/// Validates the electromagnetism equations that the selected source mode uses.
///
/// Equations of the other modes are kept as drafts so switching modes loses nothing.
pub fn validate_em_state<E>(state: EmUiDrafts<E>, parses: EmParses<E>) -> (r: Result<
    EmUiDrafts<E>,
    String,
>)
    ensures
        err_view(r) == em_error(state, parses),
        r matches Ok(v) ==> em_validated(state, parses, v),
{
    if !state.enabled {
        return Ok(state);
    }
    let ghost st = state;
    let ghost ps = parses;
    let EmUiDrafts {
        enabled,
        mode,
        gauge,
        phi,
        vector_potential,
        electric_field,
        magnetic_field,
        normalize_vectors,
        layers,
        reset_counter,
        running,
    } = state;
    let EmParses {
        phi: p_phi,
        vector_potential: p_a,
        electric_field: p_e,
        magnetic_field: p_b,
    } = parses;
    let pot = mode == EmMode::Potentials;
    let ele = mode == EmMode::Electric;
    let mag = mode == EmMode::Magnetic;
    let phi = validate_slot(pot, "EM phi", phi, p_phi, true);
    let ax = validate_slot(pot, "EM Ax", vector_potential.x, p_a.x, true);
    let ay = validate_slot(pot, "EM Ay", vector_potential.y, p_a.y, true);
    let az = validate_slot(pot, "EM Az", vector_potential.z, p_a.z, true);
    let ex = validate_slot(ele, "EM Ex", electric_field.x, p_e.x, true);
    let ey = validate_slot(ele, "EM Ey", electric_field.y, p_e.y, true);
    let ez = validate_slot(ele, "EM Ez", electric_field.z, p_e.z, true);
    let bx = validate_slot(mag, "EM Bx", magnetic_field.x, p_b.x, true);
    let by = validate_slot(mag, "EM By", magnetic_field.y, p_b.y, true);
    let bz = validate_slot(mag, "EM Bz", magnetic_field.z, p_b.z, true);

    let mut errors: Vec<String> = Vec::new();
    assert(strings_view(errors@) =~= Seq::<Seq<char>>::empty());
    collect_error(&phi, &mut errors);
    collect_error(&ax, &mut errors);
    collect_error(&ay, &mut errors);
    collect_error(&az, &mut errors);
    collect_error(&ex, &mut errors);
    collect_error(&ey, &mut errors);
    collect_error(&ez, &mut errors);
    collect_error(&bx, &mut errors);
    collect_error(&by, &mut errors);
    collect_error(&bz, &mut errors);
    assert(strings_view(errors@) =~= em_errors(st, ps));

    if errors.len() > 0 {
        return Err(join_strings(errors.as_slice(), "\n"));
    }
    assert(em_errors(st, ps).len() == 0);
    Ok(EmUiDrafts {
        enabled,
        mode,
        gauge,
        phi: phi?,
        vector_potential: SpacialEqs { x: ax?, y: ay?, z: az? },
        electric_field: SpacialEqs { x: ex?, y: ey?, z: ez? },
        magnetic_field: SpacialEqs { x: bx?, y: by?, z: bz? },
        normalize_vectors,
        layers,
        reset_counter,
        running,
    })
}

/// Validates and reparses every equation that can affect the active render mode.
///
/// Coordinate equations are always checked. The scalar field is checked only in scalar mode,
/// the vector field only in vector mode, and neither while electromagnetism is enabled; the
/// inactive equations keep their previous parsed expression so a temporarily invalid draft in
/// a hidden section survives mode switches.
pub fn validate_ui_state<E>(state: GridUiDrafts<E>, parses: GridUiParses<E>) -> (r: Result<
    ValidatedUiState<E>,
    String,
>)
    ensures
        r is Err <==> ui_errors(state, parses).len() > 0,
        r matches Err(m) ==> m@ == error_summary(ui_errors(state, parses)),
        r matches Ok(v) ==> {
            let scalar = !state.em.enabled && state.field_kind == FieldKind::Scalar;
            let vector = !state.em.enabled && state.field_kind == FieldKind::Vector;
            &&& slot_value(true, state.coords_sys.x, parses.coords_sys.x, v.coords_sys.x)
            &&& slot_value(true, state.coords_sys.y, parses.coords_sys.y, v.coords_sys.y)
            &&& slot_value(true, state.coords_sys.z, parses.coords_sys.z, v.coords_sys.z)
            &&& slot_value(scalar, state.scalar_field, parses.scalar_field, v.scalar_field)
            &&& slot_value(vector, state.field.x, parses.field.x, v.field.x)
            &&& slot_value(vector, state.field.y, parses.field.y, v.field.y)
            &&& slot_value(vector, state.field.z, parses.field.z, v.field.z)
            &&& em_validated(state.em, parses.em, v.em)
        },
{
    let ghost st = state;
    let ghost ps = parses;
    let GridUiDrafts { coords_sys, field_kind, scalar_field, field, em, .. } = state;
    let GridUiParses { coords_sys: p_coords, scalar_field: p_scalar, field: p_field, em: p_em } =
        parses;
    let em_enabled = em.enabled;
    let scalar = !em_enabled && field_kind == FieldKind::Scalar;
    let vector = !em_enabled && field_kind == FieldKind::Vector;
    let coord_x = validate_slot(true, "Coordinate x", coords_sys.x, p_coords.x, false);
    let coord_y = validate_slot(true, "Coordinate y", coords_sys.y, p_coords.y, false);
    let coord_z = validate_slot(true, "Coordinate z", coords_sys.z, p_coords.z, false);
    let scalar_field = validate_slot(scalar, "Scalar field", scalar_field, p_scalar, false);
    let field_x = validate_slot(vector, "Field Fx", field.x, p_field.x, false);
    let field_y = validate_slot(vector, "Field Fy", field.y, p_field.y, false);
    let field_z = validate_slot(vector, "Field Fz", field.z, p_field.z, false);
    let em = validate_em_state(em, p_em);

    let mut errors: Vec<String> = Vec::new();
    assert(strings_view(errors@) =~= Seq::<Seq<char>>::empty());
    collect_error(&coord_x, &mut errors);
    collect_error(&coord_y, &mut errors);
    collect_error(&coord_z, &mut errors);
    collect_error(&scalar_field, &mut errors);
    collect_error(&field_x, &mut errors);
    collect_error(&field_y, &mut errors);
    collect_error(&field_z, &mut errors);
    collect_error(&em, &mut errors);
    assert(strings_view(errors@) =~= ui_errors(st, ps));

    if errors.len() > 0 {
        return Err(format_error_summary(errors.as_slice()));
    }
    assert(ui_errors(st, ps).len() == 0);
    Ok(ValidatedUiState {
        coords_sys: SpacialEqs { x: coord_x?, y: coord_y?, z: coord_z? },
        scalar_field: scalar_field?,
        field: SpacialEqs { x: field_x?, y: field_y?, z: field_z? },
        em: em?,
    })
}

/// Drafts in a hidden section never block applying: while electromagnetism is enabled the
/// scalar and vector field drafts and their parse outcomes do not affect the reported errors,
/// and in scalar mode the vector drafts do not, nor the scalar draft in vector mode.
pub proof fn lemma_hidden_drafts_do_not_matter<E>(
    s1: GridUiDrafts<E>,
    p1: GridUiParses<E>,
    s2: GridUiDrafts<E>,
    p2: GridUiParses<E>,
)
    requires
        s1.coords_sys == s2.coords_sys,
        p1.coords_sys == p2.coords_sys,
        s1.em == s2.em,
        p1.em == p2.em,
        s1.field_kind == s2.field_kind,
        !s1.em.enabled && s1.field_kind == FieldKind::Vector ==> s1.field == s2.field && p1.field
            == p2.field,
        !s1.em.enabled && s1.field_kind == FieldKind::Scalar ==> s1.scalar_field
            == s2.scalar_field && p1.scalar_field == p2.scalar_field,
    ensures
        ui_errors(s1, p1) == ui_errors(s2, p2),
{
}

/// Commits a validated state: the equations of the control window are replaced by their
/// validated versions and the apply counter moves on, which tells the render loop to apply it.
pub fn commit_validated<E>(
    state: &mut GridUiDrafts<E>,
    validated: ValidatedUiState<E>,
    apply_counter: &mut u64,
)
    requires
        *old(apply_counter) < u64::MAX,
    ensures
        final(state).coords_sys == validated.coords_sys,
        final(state).scalar_field == validated.scalar_field,
        final(state).field == validated.field,
        final(state).em == validated.em,
        final(state).render_3d == old(state).render_3d,
        final(state).field_kind == old(state).field_kind,
        final(state).render_d == old(state).render_d,
        final(state).normalize_field == old(state).normalize_field,
        *final(apply_counter) == *old(apply_counter) + 1,
{
    state.coords_sys = validated.coords_sys;
    state.scalar_field = validated.scalar_field;
    state.field = validated.field;
    state.em = validated.em;
    *apply_counter = *apply_counter + 1;
}

} // verus!
