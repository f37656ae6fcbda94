use form_tool::adapter::submit_hello_world_form;
use form_tool::model::{Attr, Context, FieldValue, HelloWorldFormData};
use form_tool::validation::{eval_rules, Predicate, ValidationBuilder};

fn model(first: &str, last: &str, age: u32, sport: &str) -> HelloWorldFormData {
    HelloWorldFormData {
        first: first.to_string(),
        last: last.to_string(),
        age,
        sport: sport.to_string(),
    }
}

fn ctx() -> Context {
    Context {}
}

#[test]
fn empty_first_name_fails_with_first_name_error_only() {
    let m = model("", "Doe", 25, "golf");
    let errs = m.validate(&ctx()).unwrap_err();
    assert_eq!(errs.len(), 1);
    assert_eq!(errs[0].0, "data[first]");
    assert_eq!(errs[0].1, "First Name is required");
}

#[test]
fn short_first_name_fails_min_len_with_label_in_message() {
    let m = model("Jo", "Doe", 25, "golf");
    let errs = m.validate(&ctx()).unwrap_err();
    assert_eq!(errs.len(), 1);
    assert_eq!(errs[0].0, "data[first]");
    assert_eq!(errs[0].1, "First Name must be at least 4 characters");
}

#[test]
fn young_age_fails_only_on_age() {
    let m = model("John", "Doe", 10, "golf");
    let errs = m.validate(&ctx()).unwrap_err();
    assert_eq!(errs.len(), 1);
    assert_eq!(errs[0].0, "data[age]");
    assert_eq!(errs[0].1, "Too Young");
}

#[test]
fn empty_last_name_reports_its_own_message() {
    let m = model("John", "", 25, "golf");
    let errs = m.validate(&ctx()).unwrap_err();
    assert_eq!(errs.len(), 1);
    assert_eq!(errs[0].0, "data[last]");
    assert_eq!(errs[0].1, "Last Name must not be empty!");
}

#[test]
fn several_failing_fields_report_in_schema_order() {
    let m = model("", "", 10, "golf");
    let errs = m.validate(&ctx()).unwrap_err();
    assert_eq!(errs.len(), 3);
    assert_eq!(errs[0].0, "data[first]");
    assert_eq!(errs[1].0, "data[last]");
    assert_eq!(errs[2].0, "data[age]");
}

#[test]
fn valid_model_submits_and_greets() {
    let m = model("John", "Doe", 25, "football");
    assert!(m.validate(&ctx()).is_ok());
    let out = submit_hello_world_form(&m, &ctx()).unwrap();
    assert_eq!(out, "Hello John Doe (25), You must like football!");
}

#[test]
fn remote_side_revalidates_an_invalid_model() {
    let m = model("", "Doe", 25, "golf");
    let errs = submit_hello_world_form(&m, &ctx()).unwrap_err();
    assert_eq!(errs.len(), 1);
    assert_eq!(errs[0].0, "data[first]");
}

#[test]
fn submitting_unchanged_valid_model_twice_gives_equal_results() {
    let m = model("John", "Doe", 25, "football");
    let a = submit_hello_world_form(&m, &ctx()).unwrap();
    let b = submit_hello_world_form(&m, &ctx()).unwrap();
    assert_eq!(a, b);
}

#[test]
fn required_rule_fails_exactly_on_empty_text() {
    let rules = ValidationBuilder::for_field("First Name").required().build();
    assert_eq!(
        eval_rules(&rules, &FieldValue::Text(String::new())),
        Some("First Name is required".to_string())
    );
    assert_eq!(eval_rules(&rules, &FieldValue::Text("x".to_string())), None);
}

#[test]
fn rules_evaluate_in_attachment_order_and_stop_at_first_failure() {
    let rules = ValidationBuilder::for_field("First Name").required().min_len(4).build();
    assert_eq!(rules.len(), 2);
    assert!(matches!(rules[0].pred, Predicate::NonEmpty));
    assert!(matches!(rules[1].pred, Predicate::MinLen { n: 4 }));
    // empty text violates both; only the first rule's message is reported
    assert_eq!(
        eval_rules(&rules, &FieldValue::Text(String::new())),
        Some("First Name is required".to_string())
    );
    assert_eq!(
        eval_rules(&rules, &FieldValue::Text("Jo".to_string())),
        Some("First Name must be at least 4 characters".to_string())
    );
    assert_eq!(eval_rules(&rules, &FieldValue::Text("John".to_string())), None);
}

#[test]
fn bound_rule_checks_inclusive_range() {
    let rules = ValidationBuilder::for_field("Age").bound(14, 120).build();
    assert_eq!(
        eval_rules(&rules, &FieldValue::Num(13)),
        Some("Age must be between 14 and 120".to_string())
    );
    assert_eq!(eval_rules(&rules, &FieldValue::Num(14)), None);
    assert_eq!(eval_rules(&rules, &FieldValue::Num(120)), None);
    assert_eq!(
        eval_rules(&rules, &FieldValue::Num(121)),
        Some("Age must be between 14 and 120".to_string())
    );
}

#[test]
fn getter_setter_round_trip_is_a_no_op() {
    let m = model("John", "Doe", 25, "golf");
    for a in [Attr::First, Attr::Last, Attr::Age, Attr::Sport] {
        let mut m2 = m.clone();
        let v = m2.get_attr(a);
        m2.set_attr(a, v);
        assert_eq!(m2, m);
    }
}

#[test]
fn setter_ignores_a_value_of_the_wrong_raw_type() {
    let m = model("John", "Doe", 25, "golf");
    let mut m2 = m.clone();
    m2.set_attr(Attr::Age, FieldValue::Text("nope".to_string()));
    assert_eq!(m2, m);
}
