//! The serialized reply payloads: exact shapes, the error-message round
//! trip, and byte-for-byte agreement with a generic JSON encoder.

use zoo_server::json::error_message;
use zoo_server::json::to_json;
use zoo_server::zoo::AnimalRecord;
use zoo_server::zoo::LookupResult;
use zoo_server::zoo::ZooServer;

#[test]
fn found_payload_shape() {
    let server = ZooServer::new();
    let result = server.get_animal_details("Lion".to_string());
    assert_eq!(to_json(&result), "{\"habitat\":\"savanna\",\"diet\":\"carnivore\"}");
    let result = server.get_animal_details("PENGUIN".to_string());
    assert_eq!(to_json(&result), "{\"habitat\":\"antarctica\",\"diet\":\"piscivore\"}");
}

#[test]
fn error_round_trip_for_dolphin() {
    let server = ZooServer::new();
    let result = server.get_animal_details("Dolphin".to_string());
    assert_eq!(to_json(&result), "{\"error\":\"Animal 'Dolphin' not found.\"}");
}

#[test]
fn error_message_embeds_the_original_input() {
    assert_eq!(error_message("Dolphin"), "Animal 'Dolphin' not found.");
    assert_eq!(error_message(""), "Animal '' not found.");
    assert_eq!(error_message("Lion "), "Animal 'Lion ' not found.");
}

fn serde_json_object(fields: &[(&str, &str)]) -> String {
    let mut object = serde_json::Map::new();
    for (key, value) in fields {
        object.insert(key.to_string(), serde_json::Value::String(value.to_string()));
    }
    serde_json::to_string(&serde_json::Value::Object(object)).unwrap()
}

#[test]
fn found_payload_parses_back_to_both_fields() {
    let record = AnimalRecord { habitat: "savanna".to_string(), diet: "herbivore".to_string() };
    let rendered = to_json(&LookupResult::Found(record));
    let value: serde_json::Value = serde_json::from_str(&rendered).unwrap();
    let object = value.as_object().unwrap();
    assert_eq!(object.len(), 2);
    assert_eq!(object["habitat"].as_str().unwrap(), "savanna");
    assert_eq!(object["diet"].as_str().unwrap(), "herbivore");
}

#[test]
fn miss_payload_agrees_with_a_generic_encoder() {
    let queried = "Do\"l\\ph\nin\u{1}\u{1f}";
    let result = LookupResult::NotFound { queried_name: queried.to_string() };
    let message = format!("Animal '{}' not found.", queried);
    assert_eq!(to_json(&result), serde_json_object(&[("error", &message)]));
}

#[test]
fn escaping_covers_quotes_backslashes_and_controls() {
    let queried = "\u{8}\t\n\u{c}\r\"\\\u{0}\u{10}";
    let result = LookupResult::NotFound { queried_name: queried.to_string() };
    let rendered = to_json(&result);
    assert_eq!(
        rendered,
        "{\"error\":\"Animal '\\b\\t\\n\\f\\r\\\"\\\\\\u0000\\u0010' not found.\"}"
    );
    let message = format!("Animal '{}' not found.", queried);
    assert_eq!(rendered, serde_json_object(&[("error", &message)]));
}

#[test]
fn rendered_misses_parse_back_to_the_message() {
    let server = ZooServer::new();
    let result = server.get_animal_details("Kra\"ken".to_string());
    let rendered = to_json(&result);
    let value: serde_json::Value = serde_json::from_str(&rendered).unwrap();
    assert_eq!(value["error"].as_str().unwrap(), "Animal 'Kra\"ken' not found.");
}
