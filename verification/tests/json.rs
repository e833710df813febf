use memefs::json::Json;

fn object(members: Vec<(&str, Json)>) -> Json {
    Json::Object(members.into_iter().map(|(key, value)| (key.to_string(), value)).collect())
}

#[test]
fn member_of_an_object_is_found_by_its_key() {
    let value = object(vec![("a", Json::Bool(true)), ("b", Json::Number(Some(3)))]);
    assert!(matches!(value.member("a"), Some(Json::Bool(true))));
    assert!(matches!(value.member("b"), Some(Json::Number(Some(3)))));
}

#[test]
fn member_that_is_missing_is_not_found() {
    let value = object(vec![("a", Json::Null)]);
    assert!(value.member("b").is_none());
    assert!(value.member("A").is_none());
    assert!(value.member("").is_none());
    assert!(object(vec![]).member("a").is_none());
}

#[test]
fn member_of_what_is_no_object_is_not_found() {
    assert!(Json::Null.member("a").is_none());
    assert!(Json::Bool(false).member("a").is_none());
    assert!(Json::Number(Some(1)).member("a").is_none());
    assert!(Json::Text("a".to_string()).member("a").is_none());
    assert!(Json::Array(vec![Json::Null]).member("a").is_none());
}

#[test]
fn first_of_two_members_with_one_key_is_found() {
    let value = object(vec![("a", Json::Number(Some(1))), ("a", Json::Number(Some(2)))]);
    assert!(matches!(value.member("a"), Some(Json::Number(Some(1)))));
}

#[test]
fn elements_of_an_array() {
    let value = Json::Array(vec![Json::Null, Json::Bool(true)]);
    let elements = value.elements().unwrap();
    assert_eq!(elements.len(), 2);
    assert!(matches!(elements[0], Json::Null));
    assert!(matches!(elements[1], Json::Bool(true)));
    assert_eq!(Json::Array(vec![]).elements().unwrap().len(), 0);
}

#[test]
fn elements_of_what_is_no_array() {
    assert!(Json::Null.elements().is_none());
    assert!(object(vec![]).elements().is_none());
    assert!(Json::Text("[]".to_string()).elements().is_none());
}

#[test]
fn text_of_a_text() {
    assert_eq!(Json::Text("hello".to_string()).text(), Some("hello"));
    assert_eq!(Json::Text(String::new()).text(), Some(""));
}

#[test]
fn text_of_what_is_no_text() {
    assert_eq!(Json::Null.text(), None);
    assert_eq!(Json::Number(Some(5)).text(), None);
    assert_eq!(Json::Array(vec![]).text(), None);
}

#[test]
fn integer_of_a_number() {
    assert_eq!(Json::Number(Some(-3)).integer(), Some(-3));
    assert_eq!(Json::Number(Some(i64::MAX)).integer(), Some(i64::MAX));
}

#[test]
fn integer_of_what_is_no_integer() {
    assert_eq!(Json::Number(None).integer(), None);
    assert_eq!(Json::Text("5".to_string()).integer(), None);
    assert_eq!(Json::Null.integer(), None);
    assert_eq!(Json::Bool(true).integer(), None);
}
