use form_tool::adapter::decode_hello_payload;
use form_tool::engine::encode_model;
use form_tool::model::HelloWorldFormData;

fn model(first: &str, last: &str, age: u32, sport: &str) -> HelloWorldFormData {
    HelloWorldFormData {
        first: first.to_string(),
        last: last.to_string(),
        age,
        sport: sport.to_string(),
    }
}

#[test]
fn encode_then_decode_restores_the_model() {
    let m = model("John", "Doe", 25, "golf");
    let payload = encode_model(&HelloWorldFormData::get_schema(), &m);
    let back = decode_hello_payload(&payload).unwrap();
    assert_eq!(back, m);
}

#[test]
fn decode_trims_the_trimmed_fields_only() {
    let payload = vec![
        ("data[first]".to_string(), "  John ".to_string()),
        ("data[last]".to_string(), " Doe ".to_string()),
        ("data[age]".to_string(), " 25 ".to_string()),
        ("data[sport]".to_string(), "golf".to_string()),
    ];
    let m = decode_hello_payload(&payload).unwrap();
    assert_eq!(m.first, "John");
    assert_eq!(m.last, " Doe ");
    assert_eq!(m.age, 25);
    assert_eq!(m.sport, "golf");
}

#[test]
fn decode_rejects_a_payload_with_a_missing_key() {
    let payload = vec![
        ("data[first]".to_string(), "John".to_string()),
        ("data[age]".to_string(), "25".to_string()),
        ("data[sport]".to_string(), "golf".to_string()),
    ];
    assert!(decode_hello_payload(&payload).is_err());
}

#[test]
fn decode_rejects_a_non_numeric_age() {
    let payload = vec![
        ("data[first]".to_string(), "John".to_string()),
        ("data[last]".to_string(), "Doe".to_string()),
        ("data[age]".to_string(), "old".to_string()),
        ("data[sport]".to_string(), "golf".to_string()),
    ];
    assert!(decode_hello_payload(&payload).is_err());
}
