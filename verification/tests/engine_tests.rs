use form_tool::engine::{EngineState, FormEngine, InputOutcome, SubmitStart};
use form_tool::model::{Context, HelloWorldFormData};
use form_tool::schema::{FieldDescriptor, FieldKind, SelectOption};

fn model(first: &str, last: &str, age: u32, sport: &str) -> HelloWorldFormData {
    HelloWorldFormData {
        first: first.to_string(),
        last: last.to_string(),
        age,
        sport: sport.to_string(),
    }
}

fn ctx() -> Context {
    Context {}
}

fn engine_with(m: HelloWorldFormData) -> FormEngine {
    FormEngine::new(HelloWorldFormData::get_schema(), m)
}

#[test]
fn schema_has_seven_elements_in_render_order() {
    let schema = HelloWorldFormData::get_schema();
    let kinds: Vec<FieldKind> = schema.fields.iter().map(|f| f.kind).collect();
    assert_eq!(
        kinds,
        vec![
            FieldKind::Heading,
            FieldKind::TextInput,
            FieldKind::TextInput,
            FieldKind::Stepper,
            FieldKind::Select,
            FieldKind::Button,
            FieldKind::Submit,
        ]
    );
    assert_eq!(schema.fields[1].name, "data[first]");
    assert_eq!(schema.fields[2].name, "data[last]");
    assert_eq!(schema.fields[3].name, "data[age]");
    assert_eq!(schema.fields[4].name, "data[sport]");
}

#[test]
fn unparsable_numeric_input_leaves_model_unchanged_and_stores_parse_error() {
    let mut e = engine_with(model("John", "Doe", 25, "golf"));
    let r = e.on_field_input("data[age]", "abc");
    assert_eq!(r, InputOutcome::ParseFailed);
    assert_eq!(e.model.age, 25);
    assert_eq!(e.field_errors.len(), 1);
    assert_eq!(e.field_errors[0].0, "data[age]");
    assert_eq!(e.field_errors[0].1, "Age: invalid value");
}

#[test]
fn successful_numeric_input_trims_writes_and_clears_the_error() {
    let mut e = engine_with(model("John", "Doe", 25, "golf"));
    assert_eq!(e.on_field_input("data[age]", "x"), InputOutcome::ParseFailed);
    assert_eq!(e.on_field_input("data[age]", " 30 "), InputOutcome::Applied);
    assert_eq!(e.model.age, 30);
    assert!(e.field_errors.is_empty());
}

#[test]
fn text_input_is_trimmed_only_where_the_field_says_so() {
    let mut e = engine_with(model("John", "Doe", 25, "golf"));
    assert_eq!(e.on_field_input("data[first]", "  Jane  "), InputOutcome::Applied);
    assert_eq!(e.model.first, "Jane");
    assert_eq!(e.on_field_input("data[last]", "  Smith  "), InputOutcome::Applied);
    assert_eq!(e.model.last, "  Smith  ");
}

#[test]
fn unknown_wire_name_changes_nothing() {
    let mut e = engine_with(model("John", "Doe", 25, "golf"));
    assert_eq!(e.on_field_input("data[nope]", "x"), InputOutcome::UnknownField);
    assert_eq!(e.model, model("John", "Doe", 25, "golf"));
}

#[test]
fn submit_of_invalid_model_surfaces_errors_and_does_not_start_a_round_trip() {
    let mut e = engine_with(model("", "Doe", 25, "golf"));
    match e.on_submit(&ctx()) {
        SubmitStart::Invalid { errors } => {
            assert_eq!(errors.len(), 1);
            assert_eq!(errors[0].0, "data[first]");
        }
        _ => panic!("expected validation failure"),
    }
    assert!(matches!(e.state, EngineState::Invalid));
}

#[test]
fn submit_of_valid_model_serializes_with_bracketed_wire_keys() {
    let mut e = engine_with(model("John", "Doe", 25, "golf"));
    match e.on_submit(&ctx()) {
        SubmitStart::Started { payload } => {
            assert_eq!(
                payload,
                vec![
                    ("data[first]".to_string(), "John".to_string()),
                    ("data[last]".to_string(), "Doe".to_string()),
                    ("data[age]".to_string(), "25".to_string()),
                    ("data[sport]".to_string(), "golf".to_string()),
                ]
            );
        }
        _ => panic!("expected submission to start"),
    }
    assert!(matches!(e.state, EngineState::Submitting));
}

#[test]
fn second_submit_while_pending_is_rejected() {
    let mut e = engine_with(model("John", "Doe", 25, "golf"));
    let mut round_trips: u32 = 0;
    if let SubmitStart::Started { .. } = e.on_submit(&ctx()) {
        round_trips += 1;
    }
    // a second submit while the first is in flight must not start another
    if let SubmitStart::Started { .. } = e.on_submit(&ctx()) {
        round_trips += 1;
    }
    assert_eq!(round_trips, 1);
    assert!(matches!(e.state, EngineState::Submitting));
}

#[test]
fn edits_are_rejected_while_a_submission_is_in_flight() {
    let mut e = engine_with(model("John", "Doe", 25, "golf"));
    assert!(matches!(e.on_submit(&ctx()), SubmitStart::Started { .. }));
    assert_eq!(e.on_field_input("data[age]", "30"), InputOutcome::EditBlocked);
    assert_eq!(e.model.age, 25);
}

#[test]
fn resolving_a_round_trip_records_the_outcome() {
    let mut e = engine_with(model("John", "Doe", 25, "golf"));
    assert!(matches!(e.on_submit(&ctx()), SubmitStart::Started { .. }));
    e.resolve_submit(Ok("done".to_string()));
    match &e.state {
        EngineState::Submitted(s) => assert_eq!(s, "done"),
        _ => panic!("expected submitted state"),
    }
}

#[test]
fn remote_failure_is_form_level_not_field_level() {
    let mut e = engine_with(model("John", "Doe", 25, "golf"));
    assert!(matches!(e.on_submit(&ctx()), SubmitStart::Started { .. }));
    e.resolve_submit(Err("network down".to_string()));
    match &e.state {
        EngineState::RemoteFailed(msg) => assert_eq!(msg, "network down"),
        _ => panic!("expected remote failure state"),
    }
    assert!(e.field_errors.is_empty());
}

#[test]
fn outcome_of_a_discarded_round_trip_is_ignored() {
    let mut e = engine_with(model("John", "Doe", 25, "golf"));
    e.resolve_submit(Ok("stale".to_string()));
    assert!(matches!(e.state, EngineState::Editing));
    assert_eq!(e.model, model("John", "Doe", 25, "golf"));
}

#[test]
fn full_cycle_twice_on_unchanged_model_yields_equal_success_values() {
    let m = model("John", "Doe", 25, "football");
    let mut results: Vec<String> = Vec::new();
    for _ in 0..2 {
        let mut e = engine_with(m.clone());
        if let SubmitStart::Started { .. } = e.on_submit(&ctx()) {
            let out = form_tool::adapter::submit_hello_world_form(&e.model, &ctx()).unwrap();
            e.resolve_submit(Ok(out));
        }
        match e.state {
            EngineState::Submitted(s) => results.push(s),
            _ => panic!("expected success"),
        }
    }
    assert_eq!(results[0], results[1]);
    assert_eq!(results[0], "Hello John Doe (25), You must like football!");
}

#[test]
fn reset_button_restores_the_default_model() {
    let mut e = engine_with(model("John", "Doe", 25, "golf"));
    assert_eq!(e.on_field_input("data[age]", "x"), InputOutcome::ParseFailed);
    assert!(e.on_button_action(5));
    assert_eq!(e.model, HelloWorldFormData::default());
    assert!(e.field_errors.is_empty());
    assert!(matches!(e.state, EngineState::Editing));
}

#[test]
fn button_action_runs_only_on_button_elements() {
    let mut e = engine_with(model("John", "Doe", 25, "golf"));
    assert!(!e.on_button_action(1));
    assert!(!e.on_button_action(99));
    assert_eq!(e.model, model("John", "Doe", 25, "golf"));
}

#[test]
fn render_lists_every_element_with_current_values_and_errors() {
    let mut e = engine_with(model("John", "Doe", 25, "golf"));
    assert_eq!(e.on_field_input("data[age]", "x"), InputOutcome::ParseFailed);
    let views = e.render();
    assert_eq!(views.len(), 7);
    assert_eq!(views[0].label, "Welcome");
    assert_eq!(views[1].label, "First Name");
    assert_eq!(views[1].raw, "John");
    assert!(views[1].error.is_none());
    assert_eq!(views[3].raw, "25");
    assert_eq!(views[3].error.as_deref(), Some("Age: invalid value"));
    assert_eq!(views[4].options.len(), 4);
    assert_eq!(views[4].options[0].label, "Football");
    assert_eq!(views[4].options[0].value, "football");
}

#[test]
fn blank_option_is_prepended() {
    let d = FieldDescriptor::select()
        .with_options_valued(vec![SelectOption {
            label: "Golf".to_string(),
            value: "golf".to_string(),
        }])
        .with_blank_option();
    assert_eq!(d.options.len(), 2);
    assert_eq!(d.options[0].label, "");
    assert_eq!(d.options[0].value, "");
    assert_eq!(d.options[1].value, "golf");
}
