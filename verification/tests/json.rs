use voxtype::json::{parse_json, parse_json_bytes, Json};

#[test]
fn documents_are_read_whole() {
    let v = parse_json(r#"{"b":[null,true,1.5,"x\n"],"a":{"c":{}}}"#).unwrap();
    let list = v.get("b").unwrap();
    assert_eq!(list.as_array().unwrap().len(), 4);
    assert!(matches!(list.item(0), Some(Json::Null)));
    assert_eq!(list.item(1).unwrap().as_bool(), Some(true));
    assert!(matches!(list.item(2), Some(Json::Number)));
    assert_eq!(list.item(3).unwrap().as_str(), Some("x\n"));
    assert!(list.item(4).is_none());
    assert!(v.get("a").unwrap().get("c").unwrap().get("d").is_none());
    assert!(v.get("zzz").is_none());
    assert!(v.as_str().is_none());
    assert!(v.as_array().is_none());
    assert!(v.item(0).is_none());
}

#[test]
fn what_is_no_document() {
    assert!(parse_json("").is_none());
    assert!(parse_json("{} {}").is_none());
    assert!(parse_json("{\"a\":}").is_none());
    assert!(parse_json_bytes(b"\"\xff\"").is_none());
    assert!(parse_json_bytes(b"[1,").is_none());
}

#[test]
fn bytes_are_read_like_text() {
    let v = parse_json_bytes("{\"k\":\"ä\"}".as_bytes()).unwrap();
    assert_eq!(v.get("k").unwrap().as_str(), Some("ä"));
    // The last of two fields of one name counts.
    let v = parse_json_bytes(b"{\"k\":1,\"k\":true}").unwrap();
    assert_eq!(v.get("k").unwrap().as_bool(), Some(true));
}
