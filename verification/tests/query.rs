use std::cell::Cell;
use std::collections::BTreeMap;

use http::Request;
use serde::de::{DeserializeOwned, Deserializer, Error, IgnoredAny, MapAccess, Visitor};
use serde::Deserialize;
use web_routes::query::{deserialize_query, prefer_strict, Query, ServerFnError};

#[derive(Debug, PartialEq)]
struct RangeQuery {
    range: std::ops::Range<u32>,
}

struct RangeQueryVisitor;

impl<'de> Visitor<'de> for RangeQueryVisitor {
    type Value = RangeQuery;

    fn expecting(&self, f: &mut std::fmt::Formatter) -> std::fmt::Result {
        f.write_str("struct RangeQuery")
    }

    fn visit_map<A: MapAccess<'de>>(self, mut map: A) -> Result<RangeQuery, A::Error> {
        let mut range = None;
        while let Some(key) = map.next_key::<String>()? {
            if key == "range" {
                range = Some(map.next_value()?);
            } else {
                map.next_value::<IgnoredAny>()?;
            }
        }
        let range = range.ok_or_else(|| A::Error::missing_field("range"))?;
        Ok(RangeQuery { range })
    }
}

impl<'de> Deserialize<'de> for RangeQuery {
    fn deserialize<D: Deserializer<'de>>(deserializer: D) -> Result<Self, D::Error> {
        deserializer.deserialize_struct("RangeQuery", &["range"], RangeQueryVisitor)
    }
}

#[derive(Debug, PartialEq)]
struct ScalarQuery {
    value: String,
}

struct ScalarQueryVisitor;

impl<'de> Visitor<'de> for ScalarQueryVisitor {
    type Value = ScalarQuery;

    fn expecting(&self, f: &mut std::fmt::Formatter) -> std::fmt::Result {
        f.write_str("struct ScalarQuery")
    }

    fn visit_map<A: MapAccess<'de>>(self, mut map: A) -> Result<ScalarQuery, A::Error> {
        let mut value = None;
        while let Some(key) = map.next_key::<String>()? {
            if key == "value" {
                value = Some(map.next_value()?);
            } else {
                map.next_value::<IgnoredAny>()?;
            }
        }
        let value = value.ok_or_else(|| A::Error::missing_field("value"))?;
        Ok(ScalarQuery { value })
    }
}

impl<'de> Deserialize<'de> for ScalarQuery {
    fn deserialize<D: Deserializer<'de>>(deserializer: D) -> Result<Self, D::Error> {
        deserializer.deserialize_struct("ScalarQuery", &["value"], ScalarQueryVisitor)
    }
}

fn extract<T: DeserializeOwned>(query: &str) -> Result<T, ServerFnError> {
    let request = Request::builder()
        .uri(format!("/?{query}"))
        .body(())
        .unwrap();
    let (parts, _) = request.into_parts();

    Query::<T>::from_request_parts(&parts).map(|query| query.0)
}

#[test]
fn encoded_nested_struct_keys_match_raw_bracket_keys() {
    let raw = extract::<RangeQuery>("range[start]=10&range[end]=20").unwrap();
    let encoded = extract::<RangeQuery>("range%5Bstart%5D=10&range%5Bend%5D=20").unwrap();

    assert_eq!(encoded, raw);
}

#[test]
fn encoded_brackets_in_values_remain_value_data() {
    let query = extract::<ScalarQuery>("value=literal%5B0%5D").unwrap();

    assert_eq!(query.value, "literal[0]");
}

#[test]
fn a_nested_range_has_its_bounds() {
    let query = extract::<RangeQuery>("range[start]=10&range[end]=20").unwrap();
    assert_eq!(query, RangeQuery { range: 10..20 });
}

#[test]
fn a_strict_parse_is_preferred() {
    // Both modes succeed on this query, with different keys.
    let query: BTreeMap<String, String> = deserialize_query("a%5Bb%5D=1").unwrap();
    assert_eq!(query.get("a[b]").map(String::as_str), Some("1"));
}

#[test]
fn the_error_is_that_of_the_lenient_parse() {
    let query = "range%5Bstart%5D=x&range%5Bend%5D=20";
    let strict = serde_qs::from_str::<RangeQuery>(query).unwrap_err().to_string();
    let lenient = serde_qs::Config::new(5, false)
        .deserialize_str::<RangeQuery>(query)
        .unwrap_err()
        .to_string();
    assert_ne!(strict, lenient);
    assert_eq!(
        extract::<RangeQuery>(query),
        Err(ServerFnError::Deserialization(lenient))
    );
}

type Five = BTreeMap<
    String,
    BTreeMap<String, BTreeMap<String, BTreeMap<String, BTreeMap<String, BTreeMap<String, u8>>>>>,
>;

#[test]
fn a_key_below_the_depth_limit_is_flat() {
    let raw: Five = deserialize_query("a[b][c][d][e][f][g]=1").unwrap();
    assert_eq!(raw["a"]["b"]["c"]["d"]["e"]["[f][g]"], 1);
    // Strictly this is one flat key, so the limit is that of the second parse.
    let encoded: Five =
        deserialize_query("a%5Bb%5D%5Bc%5D%5Bd%5D%5Be%5D%5Bf%5D%5Bg%5D=1").unwrap();
    assert_eq!(encoded["a"]["b"]["c"]["d"]["e"].len(), 1);
}

#[test]
fn the_default_mode_is_strict_with_the_same_limit() {
    for query in ["a[b]=1", "a%5Bb%5D=1", "a[b][c][d][e][f][g]=1", "a[[b]=1", "a=%FF"] {
        let default = serde_qs::from_str::<BTreeMap<String, BTreeMap<String, u8>>>(query);
        let strict = serde_qs::Config::new(5, true)
            .deserialize_str::<BTreeMap<String, BTreeMap<String, u8>>>(query);
        assert_eq!(
            default.map_err(|error| error.to_string()),
            strict.map_err(|error| error.to_string())
        );
    }
}

#[test]
fn a_request_without_a_query_has_an_empty_one() {
    let (parts, _) = Request::builder().uri("/path").body(()).unwrap().into_parts();
    let none = Query::<BTreeMap<String, String>>::from_request_parts(&parts).unwrap();
    assert!(none.is_empty());
    let missing = Query::<ScalarQuery>::from_query(None).map(|query| query.0);
    let empty = Query::<ScalarQuery>::from_query(Some("")).map(|query| query.0);
    assert_eq!(missing, empty);
    assert!(matches!(missing, Err(ServerFnError::Deserialization(_))));
}

#[test]
fn only_the_query_of_the_uri_is_read() {
    let (parts, _) = Request::builder()
        .uri("http://example.org/value=1?value=2")
        .body(())
        .unwrap()
        .into_parts();
    let query = Query::<ScalarQuery>::from_request_parts(&parts).unwrap();
    assert_eq!(query.0.value, "2");
}

#[test]
fn a_parsed_value_is_extracted_and_an_error_is_told() {
    assert_eq!(Query::from_parsed(Ok(7)).map(|query| query.0), Ok(7));
    let error = Query::<u8>::from_parsed(Err(serde_qs::Error::Custom("no".to_string())));
    assert_eq!(
        error.map(|query| query.0),
        Err(ServerFnError::Deserialization("no".to_string()))
    );
}

#[test]
fn the_lenient_parse_runs_only_after_a_failure() {
    let calls = Cell::new(0);
    let lenient = || {
        calls.set(calls.get() + 1);
        Ok::<u8, u8>(2)
    };
    assert_eq!(prefer_strict(Ok(1), lenient), Ok(1));
    assert_eq!(calls.get(), 0);
    assert_eq!(prefer_strict(Err(9), lenient), Ok(2));
    assert_eq!(calls.get(), 1);
    assert_eq!(prefer_strict(Err(9), || Err::<u8, u8>(3)), Err(3));
}

#[test]
fn a_query_derefs_to_its_value() {
    let query = Query("text".to_string());
    assert_eq!(query.len(), 4);
    assert_eq!(*query, "text");
}

#[test]
fn requests_with_one_query_are_answered_alike() {
    let answer = |request: http::request::Builder| {
        let (parts, _) = request.body(()).unwrap().into_parts();
        Query::<ScalarQuery>::from_request_parts(&parts).map(|query| query.0)
    };
    for query in ["value=a%5B0%5D", "other=1"] {
        assert_eq!(
            answer(Request::get(format!("/?{query}"))),
            answer(
                Request::post(format!("http://example.org/path?{query}"))
                    .header("accept", "text/html")
            )
        );
    }
    assert_eq!(answer(Request::get("/")), answer(Request::get("/?")));
    let (parts, _) = Request::get("/?").body(()).unwrap().into_parts();
    assert!(Query::<BTreeMap<String, String>>::from_request_parts(&parts).unwrap().is_empty());
}
