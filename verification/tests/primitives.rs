use rustc_serialize::json::Json;
use std::collections::BTreeMap;
use tweet_decode::common::{field, field_or, optional_field, FromJson};
use tweet_decode::error::Error;

fn parse(text: &str) -> Json {
    Json::from_str(text).unwrap()
}

#[test]
fn signed_number_decodes_as_i64() {
    assert_eq!(i64::from_json(&Json::I64(-5)), Ok(-5));
    assert_eq!(i64::from_json(&Json::I64(i64::MAX)), Ok(i64::MAX));
    assert_eq!(i64::from_json(&Json::I64(i64::MIN)), Ok(i64::MIN));
}

#[test]
fn unsigned_number_decodes_as_i64_below_the_maximum() {
    assert_eq!(i64::from_json(&Json::U64(0)), Ok(0));
    assert_eq!(i64::from_json(&Json::U64(42)), Ok(42));
    assert_eq!(i64::from_json(&Json::U64(9223372036854775806)), Ok(9223372036854775806));
}

#[test]
fn unsigned_number_from_the_maximum_on_is_refused() {
    assert_eq!(i64::from_json(&Json::U64(9223372036854775807)), Err(Error::InvalidResponse));
    assert_eq!(i64::from_json(&Json::U64(u64::MAX)), Err(Error::InvalidResponse));
}

#[test]
fn parsed_numbers_decode_as_i64() {
    assert_eq!(i64::from_json(&parse("1050118621198921728")), Ok(1050118621198921728));
    assert_eq!(i64::from_json(&parse("-17")), Ok(-17));
}

#[test]
fn other_shapes_are_no_i64() {
    assert_eq!(i64::from_json(&parse("1.5")), Err(Error::InvalidResponse));
    assert_eq!(i64::from_json(&parse("\"12\"")), Err(Error::InvalidResponse));
    assert_eq!(i64::from_json(&parse("true")), Err(Error::InvalidResponse));
    assert_eq!(i64::from_json(&parse("null")), Err(Error::InvalidResponse));
    assert_eq!(i64::from_json(&parse("[1]")), Err(Error::InvalidResponse));
    assert_eq!(i64::from_json(&parse("{\"id\": 1}")), Err(Error::InvalidResponse));
}

#[test]
fn number_decodes_as_i32() {
    assert_eq!(i32::from_json(&parse("3")), Ok(3));
    assert_eq!(i32::from_json(&parse("-3")), Ok(-3));
    assert_eq!(i32::from_json(&parse("2147483647")), Ok(i32::MAX));
    assert_eq!(i32::from_json(&parse("-2147483648")), Ok(i32::MIN));
}

#[test]
fn wide_number_keeps_its_low_bits_as_i32() {
    assert_eq!(i32::from_json(&parse("4294967297")), Ok(1));
    assert_eq!(i32::from_json(&parse("2147483648")), Ok(i32::MIN));
    assert_eq!(i32::from_json(&parse("-4294967298")), Ok(-2));
}

#[test]
fn other_shapes_are_no_i32() {
    assert_eq!(i32::from_json(&parse("\"3\"")), Err(Error::InvalidResponse));
    assert_eq!(i32::from_json(&parse("2.0")), Err(Error::InvalidResponse));
    assert_eq!(i32::from_json(&Json::U64(u64::MAX)), Err(Error::InvalidResponse));
}

#[test]
fn flag_decodes_as_bool() {
    assert_eq!(bool::from_json(&parse("true")), Ok(true));
    assert_eq!(bool::from_json(&parse("false")), Ok(false));
}

#[test]
fn other_shapes_are_no_bool() {
    assert_eq!(bool::from_json(&parse("\"yes\"")), Err(Error::InvalidResponse));
    assert_eq!(bool::from_json(&parse("1")), Err(Error::InvalidResponse));
    assert_eq!(bool::from_json(&parse("null")), Err(Error::InvalidResponse));
}

#[test]
fn text_decodes_as_string() {
    assert_eq!(String::from_json(&parse("\"hello\"")), Ok(String::from("hello")));
    assert_eq!(String::from_json(&parse("\"\"")), Ok(String::new()));
    assert_eq!(String::from_json(&parse("\"caf\\u00e9 \\\"x\\\"\"")), Ok(String::from("café \"x\"")));
}

#[test]
fn other_shapes_are_no_string() {
    assert_eq!(String::from_json(&parse("12")), Err(Error::InvalidResponse));
    assert_eq!(String::from_json(&parse("null")), Err(Error::InvalidResponse));
    assert_eq!(String::from_json(&parse("[\"a\"]")), Err(Error::InvalidResponse));
}

#[test]
fn array_decodes_in_order() {
    assert_eq!(Vec::<i64>::from_json(&parse("[3, 1, 2]")), Ok(vec![3, 1, 2]));
    assert_eq!(
        Vec::<String>::from_json(&parse("[\"XX\", \"XY\"]")),
        Ok(vec![String::from("XX"), String::from("XY")])
    );
}

#[test]
fn empty_array_decodes_to_no_items() {
    assert_eq!(Vec::<i64>::from_json(&parse("[]")), Ok(Vec::new()));
}

#[test]
fn array_with_one_unfit_item_is_refused() {
    assert_eq!(Vec::<i64>::from_json(&parse("[1, \"2\", 3]")), Err(Error::InvalidResponse));
    assert_eq!(Vec::<i64>::from_json(&parse("[1, 2, null]")), Err(Error::InvalidResponse));
}

#[test]
fn other_shapes_are_no_array() {
    assert_eq!(Vec::<i64>::from_json(&parse("7")), Err(Error::InvalidResponse));
    assert_eq!(Vec::<i64>::from_json(&parse("{\"0\": 7}")), Err(Error::InvalidResponse));
}

#[test]
fn arrays_nest() {
    assert_eq!(
        Vec::<Vec<i64>>::from_json(&parse("[[1], [], [2, 3]]")),
        Ok(vec![vec![1], vec![], vec![2, 3]])
    );
}

#[test]
fn two_numbers_decode_as_pair() {
    assert_eq!(<(i32, i32)>::from_json(&parse("[5, 12]")), Ok((5, 12)));
    assert_eq!(<(i32, i32)>::from_json(&parse("[4294967297, -1]")), Ok((1, -1)));
}

#[test]
fn pair_needs_exactly_two_numbers() {
    assert_eq!(<(i32, i32)>::from_json(&parse("[]")), Err(Error::InvalidResponse));
    assert_eq!(<(i32, i32)>::from_json(&parse("[1]")), Err(Error::InvalidResponse));
    assert_eq!(<(i32, i32)>::from_json(&parse("[1, 2, 3]")), Err(Error::InvalidResponse));
    assert_eq!(<(i32, i32)>::from_json(&parse("[1, \"2\"]")), Err(Error::InvalidResponse));
    assert_eq!(<(i32, i32)>::from_json(&parse("{\"0\": 1, \"1\": 2}")), Err(Error::InvalidResponse));
}

#[test]
fn field_finds_a_member_by_name() {
    let doc = parse("{\"a\": 1, \"b\": \"two\", \"c\": [true, false]}");
    assert_eq!(field::<i64>(&doc, "a"), Ok(1));
    assert_eq!(field::<String>(&doc, "b"), Ok(String::from("two")));
    assert_eq!(field::<Vec<bool>>(&doc, "c"), Ok(vec![true, false]));
}

#[test]
fn field_refuses_an_absent_member() {
    let doc = parse("{\"a\": 1}");
    assert_eq!(field::<i64>(&doc, "b"), Err(Error::InvalidResponse));
    assert_eq!(field::<i64>(&doc, ""), Err(Error::InvalidResponse));
    assert_eq!(field::<i64>(&doc, "A"), Err(Error::InvalidResponse));
}

#[test]
fn field_refuses_a_member_of_another_shape() {
    let doc = parse("{\"a\": \"1\"}");
    assert_eq!(field::<i64>(&doc, "a"), Err(Error::InvalidResponse));
    assert_eq!(field::<bool>(&doc, "a"), Err(Error::InvalidResponse));
}

#[test]
fn field_of_what_is_no_object_is_refused() {
    assert_eq!(field::<i64>(&parse("[1, 2]"), "0"), Err(Error::InvalidResponse));
    assert_eq!(field::<i64>(&parse("\"a\""), "a"), Err(Error::InvalidResponse));
    assert_eq!(field::<i64>(&parse("null"), "a"), Err(Error::InvalidResponse));
}

#[test]
fn field_does_not_search_nested_objects() {
    let doc = parse("{\"outer\": {\"a\": 1}}");
    assert_eq!(field::<i64>(&doc, "a"), Err(Error::InvalidResponse));
}

#[test]
fn field_reads_a_document_built_by_hand() {
    let mut members = BTreeMap::new();
    members.insert(String::from("n"), Json::I64(-9));
    let doc = Json::Object(members);
    assert_eq!(field::<i64>(&doc, "n"), Ok(-9));
}

#[test]
fn optional_field_takes_what_decodes() {
    let doc = parse("{\"favorited\": true}");
    assert_eq!(optional_field::<bool>(&doc, "favorited"), Some(true));
}

#[test]
fn optional_field_is_absent_without_the_member() {
    let doc = parse("{}");
    assert_eq!(optional_field::<bool>(&doc, "favorited"), None);
}

#[test]
fn optional_field_is_absent_for_another_shape() {
    let doc = parse("{\"favorited\": \"yes\"}");
    assert_eq!(optional_field::<bool>(&doc, "favorited"), None);
    assert_eq!(optional_field::<bool>(&parse("[]"), "favorited"), None);
}

#[test]
fn field_or_takes_what_decodes() {
    let doc = parse("{\"favorite_count\": 12}");
    assert_eq!(field_or::<i32>(&doc, "favorite_count", 0), 12);
}

#[test]
fn field_or_falls_back_without_the_member() {
    assert_eq!(field_or::<i32>(&parse("{}"), "favorite_count", 0), 0);
    assert_eq!(field_or::<bool>(&parse("{}"), "withheld_copyright", false), false);
    assert_eq!(field_or::<i32>(&parse("{}"), "favorite_count", 7), 7);
}

#[test]
fn field_or_falls_back_for_another_shape() {
    let doc = parse("{\"favorite_count\": \"many\"}");
    assert_eq!(field_or::<i32>(&doc, "favorite_count", 0), 0);
}
