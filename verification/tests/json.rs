use tpi::json::{get_json_num, get_json_str, get_param, same_text, Json, JsonNode};

#[test]
fn document_is_read_into_a_tree() {
    let j = Json::parse(b" {\"b\": [1, \"x\", null, true], \"a\": {\"n\": 42}} ").unwrap();
    assert_eq!(j.text, "{\"a\":{\"n\":42},\"b\":[1,\"x\",null,true]}");
    let members = j.as_object().unwrap();
    assert_eq!(members.len(), 2);
    assert_eq!(members[0].key, "a");
    assert_eq!(members[1].key, "b");
    let b = j.get("b").unwrap();
    let items = b.as_array().unwrap();
    assert_eq!(items.len(), 4);
    assert_eq!(items[0].as_u64(), Some(1));
    assert_eq!(items[0].text, "1");
    assert_eq!(items[1].as_str(), Some("x"));
    assert_eq!(items[1].text, "\"x\"");
    assert_eq!(items[2].node, JsonNode::Null);
    assert_eq!(items[3].node, JsonNode::Bool(true));
    assert_eq!(get_json_num(j.get("a").unwrap(), "n"), Some(42));
}

#[test]
fn what_is_no_json_is_refused() {
    assert_eq!(Json::parse(b""), None);
    assert_eq!(Json::parse(b"{\"a\":"), None);
    assert_eq!(Json::parse(b"Forbidden"), None);
    assert_eq!(Json::parse(b"{} trailing"), None);
}

#[test]
fn numbers_that_are_no_u64_are_kept_as_none() {
    let j = Json::parse(b"{\"neg\": -1, \"frac\": 1.5, \"big\": 18446744073709551615}").unwrap();
    assert_eq!(get_json_num(&j, "neg"), None);
    assert_eq!(get_json_num(&j, "frac"), None);
    assert_eq!(get_json_num(&j, "big"), Some(u64::MAX));
    assert_eq!(get_json_num(&j, "absent"), None);
    assert_eq!(j.get("neg").unwrap().node, JsonNode::Number(None));
}

#[test]
fn members_are_found_by_name() {
    let j = Json::parse(b"{\"id\": \"tok\", \"n\": 5}").unwrap();
    assert_eq!(get_json_str(&j, "id"), Some("tok"));
    assert_eq!(get_param(&j, "id"), Some(String::from("tok")));
    assert_eq!(get_json_str(&j, "n"), None);
    assert_eq!(get_param(&j, "n"), None);
    assert_eq!(get_param(&j, "ID"), None);
    assert!(j.get("missing").is_none());
    assert!(Json::parse(b"[1]").unwrap().get("id").is_none());
    assert_eq!(j.as_u64(), None);
    assert_eq!(j.as_str(), None);
    assert!(j.as_array().is_none());
    assert_eq!(j.get("id").unwrap().as_string(), Some(String::from("tok")));
}

#[test]
fn texts_compare_by_their_characters() {
    assert!(same_text("host", "host"));
    assert!(!same_text("host", "Host"));
    assert!(!same_text("host", "hos"));
    assert!(same_text("", ""));
}
