use field_grid::presets::{EmPreset, FieldPreset};
use field_grid::ui_state::{
    EmGauge, EmLayerVisibility, EmMode, EmUiDrafts, EqRender, FieldKind, GridUiDrafts, SpacialEqs,
};
use field_grid::validation::{
    collect_error, commit_validated, format_allowed_variables, format_error_summary,
    validate_em_state, validate_equation, validate_ui_state, validate_xyz_equation,
    validate_xyzt_equation, EmParses, GridUiParses, ParseReport, SpacialParses,
};

fn v_eq(s: &str) -> EqRender<String> {
    EqRender::new(format!("old:{s}"), s.to_string())
}

fn v_eqs(x: &str, y: &str, z: &str) -> SpacialEqs<String> {
    SpacialEqs { x: v_eq(x), y: v_eq(y), z: v_eq(z) }
}

/// The parse outcome of the sources used below: the variables each one mentions, or a
/// failure for the malformed ones.
fn v_parse(src: &str) -> ParseReport<String> {
    if src.contains("invalid(") {
        return ParseReport::Failed("Syntax error: unexpected end of input".to_string());
    }
    let mut variables: Vec<String> = Vec::new();
    let mut word = String::new();
    for c in src.chars().chain(std::iter::once(' ')) {
        if c.is_ascii_alphabetic() {
            word.push(c);
        } else {
            if !word.is_empty() && !["sin", "cos", "exp"].contains(&word.as_str()) {
                if !variables.contains(&word) {
                    variables.push(word.clone());
                }
            }
            word.clear();
        }
    }
    ParseReport::Parsed { expr: format!("new:{src}"), variables }
}

fn v_parses_of(eqs: &SpacialEqs<String>) -> SpacialParses<String> {
    SpacialParses {
        x: v_parse(&eqs.x.eq_str),
        y: v_parse(&eqs.y.eq_str),
        z: v_parse(&eqs.z.eq_str),
    }
}

fn v_state() -> GridUiDrafts<String> {
    GridUiDrafts {
        render_3d: true,
        coords_sys: v_eqs("x*cos(y) * sin(z)", "x*sin(y) * sin(z)", "x * cos(z)"),
        field_kind: FieldKind::Vector,
        scalar_field: v_eq("x"),
        field: v_eqs("1", "0", "0"),
        render_d: false,
        normalize_field: false,
        em: EmUiDrafts {
            enabled: false,
            mode: EmMode::Potentials,
            gauge: EmGauge::Coulomb,
            phi: v_eq("0"),
            vector_potential: v_eqs("0", "sin(z - t)", "0"),
            electric_field: v_eqs("0", "cos(z - t)", "0"),
            magnetic_field: v_eqs("-cos(z - t)", "0", "0"),
            normalize_vectors: false,
            layers: EmLayerVisibility {
                scalar_potential: false,
                vector_potential: false,
                electric: true,
                magnetic: true,
            },
            reset_counter: 0,
            running: true,
        },
    }
}

fn v_parses(state: &GridUiDrafts<String>) -> GridUiParses<String> {
    GridUiParses {
        coords_sys: v_parses_of(&state.coords_sys),
        scalar_field: v_parse(&state.scalar_field.eq_str),
        field: v_parses_of(&state.field),
        em: EmParses {
            phi: v_parse(&state.em.phi.eq_str),
            vector_potential: v_parses_of(&state.em.vector_potential),
            electric_field: v_parses_of(&state.em.electric_field),
            magnetic_field: v_parses_of(&state.em.magnetic_field),
        },
    }
}

fn v_validate(state: GridUiDrafts<String>) -> Result<field_grid::validation::ValidatedUiState<String>, String> {
    let parses = v_parses(&state);
    validate_ui_state(state, parses)
}

#[test]
fn validate_ui_state_accepts_polynomial_expression() {
    let mut state = v_state();
    state.coords_sys.x.eq_str = "x + y * z".to_string();

    assert!(v_validate(state).is_ok());
}

#[test]
fn validate_ui_state_accepts_trigonometric_expression() {
    let mut state = v_state();
    state.field.x.eq_str = "sin(x) + cos(y) - z".to_string();

    assert!(v_validate(state).is_ok());
}

#[test]
fn validate_ui_state_rejects_empty_expression() {
    let mut state = v_state();
    state.coords_sys.x.eq_str.clear();

    let error = v_validate(state).err().unwrap();

    assert!(error.contains("Coordinate x: Equation cannot be empty"));
}

#[test]
fn validate_ui_state_uses_scalar_equation_in_scalar_mode() {
    let mut state = v_state();
    state.field_kind = FieldKind::Scalar;
    state.scalar_field.eq_str = "x * y + z".to_string();
    state.field.x.eq_str = "x + t".to_string();

    assert!(v_validate(state).is_ok());
}

#[test]
fn validate_ui_state_rejects_unknown_variable() {
    let mut state = v_state();
    state.field.y.eq_str = "x + t".to_string();

    let error = v_validate(state).err().unwrap();

    assert!(error.contains("Field Fy: Invalid variable 't'"));
}

#[test]
fn validate_ui_state_accepts_time_only_for_em_equations() {
    let mut state = v_state();
    state.em.enabled = true;
    state.em.mode = EmMode::Electric;
    state.em.electric_field.x.eq_str = "sin(t) + x".to_string();

    assert!(v_validate(state).is_ok());
}

#[test]
fn validate_ui_state_ignores_potential_drafts_in_electric_em_mode() {
    let mut state = v_state();
    state.em.enabled = true;
    state.em.mode = EmMode::Electric;
    state.em.phi.eq_str.clear();
    state.em.vector_potential.x.eq_str = "invalid(".to_string();

    assert!(v_validate(state).is_ok());
}

#[test]
fn validate_ui_state_ignores_regular_field_drafts_while_em_is_enabled() {
    let mut state = v_state();
    state.field_kind = FieldKind::Vector;
    state.field.x.eq_str = "invalid(".to_string();
    state.em.enabled = true;
    state.em.mode = EmMode::Electric;
    state.em.electric_field.y.eq_str = "cos(z - t)".to_string();

    assert!(v_validate(state).is_ok());
}

#[test]
fn format_error_summary_joins_multiple_lines() {
    let message = format_error_summary(&[
        "Coordinate x: bad".to_string(),
        "Field Fz: worse".to_string(),
    ]);

    assert_eq!(
        message,
        "Error in equation(s):\nCoordinate x: bad\nField Fz: worse"
    );
}

#[test]
fn validate_ui_state_lists_every_failing_equation_in_order() {
    let mut state = v_state();
    state.coords_sys.y.eq_str = "invalid(".to_string();
    state.field.z.eq_str = "w".to_string();
    state.coords_sys.x.eq_str.clear();

    let error = v_validate(state).err().unwrap();

    assert_eq!(
        error,
        "Error in equation(s):\nCoordinate x: Equation cannot be empty\n\
         Coordinate y: Invalid equation: Syntax error: unexpected end of input\n\
         Field Fz: Invalid variable 'w'. Only 'x', 'y', and 'z' are allowed."
    );
}

#[test]
fn validate_ui_state_keeps_inactive_drafts_and_reparses_active_ones() {
    let mut state = v_state();
    state.field_kind = FieldKind::Scalar;
    state.scalar_field.eq_str = "x * y".to_string();
    state.field.x.eq_str = "junk".to_string();

    let validated = v_validate(state).ok().unwrap();

    assert_eq!(validated.scalar_field.eq, "new:x * y");
    assert_eq!(validated.scalar_field.eq_str, "x * y");
    assert_eq!(validated.field.x.eq, "old:1");
    assert_eq!(validated.field.x.eq_str, "junk");
    assert_eq!(validated.coords_sys.z.eq, "new:x * cos(z)");
    assert_eq!(validated.em.phi.eq, "old:0");
}

#[test]
fn validate_em_state_reports_joined_errors_of_the_active_mode() {
    let mut state = v_state();
    state.em.enabled = true;
    state.em.mode = EmMode::Magnetic;
    state.em.magnetic_field.x.eq_str = "q".to_string();
    state.em.magnetic_field.z.eq_str.clear();
    state.em.electric_field.x.eq_str = "invalid(".to_string();
    let parses = v_parses(&state).em;

    let error = validate_em_state(state.em, parses).err().unwrap();

    assert_eq!(
        error,
        "EM Bx: Invalid variable 'q'. Only 'x', 'y', 'z', and 't' are allowed.\n\
         EM Bz: Equation cannot be empty"
    );
}

#[test]
fn validate_em_state_passes_through_when_disabled() {
    let mut state = v_state();
    state.em.phi.eq_str = "invalid(".to_string();
    let parses = v_parses(&state).em;

    let validated = validate_em_state(state.em, parses).ok().unwrap();

    assert_eq!(validated.phi.eq_str, "invalid(");
    assert_eq!(validated.phi.eq, "old:0");
}

#[test]
fn validate_equation_checks_empty_then_parse_then_variables() {
    let empty = validate_xyz_equation("L", "", v_parse("x"));
    assert_eq!(empty.err().unwrap(), "L: Equation cannot be empty");
    let bad = validate_xyz_equation("L", "invalid(", v_parse("invalid("));
    assert_eq!(bad.err().unwrap(), "L: Invalid equation: Syntax error: unexpected end of input");
    let time = validate_xyz_equation("L", "t", v_parse("t"));
    assert_eq!(
        time.err().unwrap(),
        "L: Invalid variable 't'. Only 'x', 'y', and 'z' are allowed."
    );
    let ok = validate_xyzt_equation("L", "t", v_parse("t")).ok().unwrap();
    assert_eq!(ok.eq, "new:t");
    assert_eq!(ok.eq_str, "t");
    let custom = validate_equation("L", "u", v_parse("u"), &["a", "b"]);
    assert_eq!(custom.err().unwrap(), "L: Invalid variable 'u'. Only 'a', 'b' are allowed.");
}

#[test]
fn allowed_variables_are_listed_for_messages() {
    assert_eq!(format_allowed_variables(&["x", "y", "z"]), "'x', 'y', and 'z'");
    assert_eq!(format_allowed_variables(&["x", "y", "z", "t"]), "'x', 'y', 'z', and 't'");
    assert_eq!(format_allowed_variables(&["u"]), "'u'");
    assert_eq!(format_allowed_variables(&[]), "");
    assert_eq!(format_allowed_variables(&["y", "x", "z"]), "'y', 'x', 'z'");
}

#[test]
fn collect_error_appends_only_errors() {
    let mut errors: Vec<String> = vec!["first".to_string()];
    collect_error(&Ok::<u8, String>(1), &mut errors);
    assert_eq!(errors, vec!["first".to_string()]);
    collect_error(&Err::<u8, String>("second".to_string()), &mut errors);
    assert_eq!(errors, vec!["first".to_string(), "second".to_string()]);
}

#[test]
fn commit_validated_replaces_equations_and_bumps_counter() {
    let mut state = v_state();
    let mut next = v_state();
    next.coords_sys.x.eq_str = "x + y * z".to_string();
    let validated = v_validate(next).ok().unwrap();
    let mut counter: u64 = 7;

    commit_validated(&mut state, validated, &mut counter);

    assert_eq!(counter, 8);
    assert_eq!(state.coords_sys.x.eq, "new:x + y * z");
    assert_eq!(state.coords_sys.x.eq_str, "x + y * z");
}

#[test]
fn field_presets_are_valid_after_apply() {
    for preset in FieldPreset::all() {
        let mut state = v_state();
        preset.apply(&mut state);

        let result = v_validate(state);

        assert!(result.is_ok(), "{} preset should validate", preset.label);
    }
}

#[test]
fn em_presets_are_valid_and_hide_potential_layers_after_apply() {
    for preset in EmPreset::all() {
        let mut state = v_state();
        state.em.enabled = true;
        state.em.layers.scalar_potential = true;
        state.em.layers.vector_potential = true;
        state.em.layers.electric = false;
        state.em.layers.magnetic = false;
        preset.apply(&mut state);

        assert!(!state.em.layers.scalar_potential);
        assert!(!state.em.layers.vector_potential);
        assert!(state.em.layers.electric);
        assert!(state.em.layers.magnetic);

        let result = v_validate(state);

        assert!(result.is_ok(), "{} preset should validate", preset.label);
    }
}

#[test]
fn field_preset_apply_writes_field_section_only() {
    let mut state = v_state();
    let preset = FieldPreset::all()[3];
    preset.apply(&mut state);
    assert_eq!(state.field_kind, FieldKind::Vector);
    assert_eq!(state.field.x.eq_str, "-y");
    assert_eq!(state.field.y.eq_str, "x");
    assert_eq!(state.field.z.eq_str, "0.5*z");
    assert_eq!(state.field.x.eq, "old:1");
    assert_eq!(state.scalar_field.eq_str, "x");
    assert_eq!(state.coords_sys.x.eq_str, "x*cos(y) * sin(z)");
}

#[test]
fn em_preset_apply_selects_potentials() {
    let mut state = v_state();
    state.em.mode = EmMode::Magnetic;
    let preset = EmPreset::all()[1];
    preset.apply(&mut state);
    assert_eq!(state.em.mode, EmMode::Potentials);
    assert_eq!(state.em.vector_potential.y.eq_str, "sin(z - t) + sin(z + t)");
    assert_eq!(state.em.magnetic_field.x.eq_str, "-cos(z - t) - cos(z + t)");
    assert_eq!(preset.label, "Standing wave");
}
