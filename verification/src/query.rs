//! Reading the query of a request.

use serde::de::DeserializeOwned;
use vstd::prelude::*;

verus! {

/// The error of the `serde_qs` crate.
#[verifier::external_type_specification]
#[verifier::external_body]
pub struct ExQsError(serde_qs::Error);

/// The head of a request, of the `http` crate.
#[verifier::external_type_specification]
#[verifier::external_body]
pub struct ExRequestParts(http::request::Parts);

/// `Config::new` requires this value; five preserves the limit used by
/// `serde_qs::from_str`.
pub const SERDE_QS_DEFAULT_MAX_DEPTH: usize = 5;

/// An extractor that deserializes query parameters into the given type `T`.
///
/// This uses `serde_qs` under the hood to support complex query parameter
/// structures.
#[derive(Debug, Clone, Copy, Default)]
pub struct Query<T>(pub T);

/// Why a request could not be taken.
#[derive(Debug, PartialEq, Eq)]
pub enum ServerFnError {
    /// What the client sent does not deserialize.
    Deserialization(String),
}

/// Calls `serde_qs::Config::deserialize_str`, on the `Config` that
/// `serde_qs::Config::new` makes of `max_depth` and `strict`. It reads `query`
/// as a `T`.
///
/// What it reads is left unsaid: that rests on the `Deserialize` impl of `T`.
#[verifier::external_body]
fn qs_deserialize_str<T: DeserializeOwned>(max_depth: usize, strict: bool, query: &str) -> (parsed:
    Result<T, serde_qs::Error>) {
    serde_qs::Config::new(max_depth, strict).deserialize_str(query)
}

/// Calls `serde_qs::from_str`, which reads `query` as a `T`.
///
/// What is claimed: it reads as `deserialize_str` does in the strict mode, with
/// the limit `SERDE_QS_DEFAULT_MAX_DEPTH`. What it reads is left unsaid: that
/// rests on the `Deserialize` impl of `T`.
#[verifier::external_body]
fn qs_from_str<T: DeserializeOwned>(query: &str) -> (parsed: Result<T, serde_qs::Error>)
    ensures
        parsed_with(SERDE_QS_DEFAULT_MAX_DEPTH, true, query@, parsed),
{
    serde_qs::from_str(query)
}

/// Calls `http::Uri::query` on the URI of `parts`, which gives what follows the
/// `?` in it.
///
/// Nothing is claimed of the result: `parts` is opaque here.
#[verifier::external_body]
fn uri_query(parts: &http::request::Parts) -> (query: Option<&str>) {
    parts.uri.query()
}

/// `parsed` came from `deserialize_str` on the text `query`, with the given
/// limit and mode.
pub closed spec fn parsed_with<T: DeserializeOwned>(
    max_depth: usize,
    strict: bool,
    query: Seq<char>,
    parsed: Result<T, serde_qs::Error>,
) -> bool {
    exists|text: &str|
        text@ == query && #[trigger] call_ensures(
            qs_deserialize_str::<T>,
            (max_depth, strict, text),
            parsed,
        )
}

/// The text `query` came from `http::Uri::query` on the URI of `parts`.
pub closed spec fn has_query(parts: &http::request::Parts, query: Option<Seq<char>>) -> bool {
    exists|text: Option<&str>|
        text.deep_view() == query && #[trigger] call_ensures(uri_query, (parts,), text)
}

/// The query of a request. A request without one has an empty query.
pub open spec fn query_or_empty(query: Option<Seq<char>>) -> Seq<char> {
    match query {
        Some(query) => query,
        None => seq![],
    }
}

/// `parsed` is what `query` deserializes to: what a strict parse of it gave if
/// that went well, otherwise what a parse gave that tolerates encoded brackets.
/// Both are of the same text, and under the same limit.
pub open spec fn deserialized<T: DeserializeOwned>(
    query: Seq<char>,
    parsed: Result<T, serde_qs::Error>,
) -> bool {
    exists|strict: Result<T, serde_qs::Error>| #[trigger]
        parsed_with(SERDE_QS_DEFAULT_MAX_DEPTH, true, query, strict) && match strict {
            Ok(value) => parsed == Ok::<T, serde_qs::Error>(value),
            Err(_) => parsed_with(SERDE_QS_DEFAULT_MAX_DEPTH, false, query, parsed),
        }
}

/// `extracted` is what a request is answered with whose query deserializes to
/// `parsed`: the value, or the text of the error.
pub open spec fn extracted_from<T>(
    parsed: Result<T, serde_qs::Error>,
    extracted: Result<Query<T>, ServerFnError>,
) -> bool {
    match parsed {
        Ok(value) => extracted == Ok::<Query<T>, ServerFnError>(Query(value)),
        Err(error) => extracted matches Err(ServerFnError::Deserialization(message))
            && vstd::string::to_string_from_display_ensures(&error, message),
    }
}

/// A request with this query may be answered with `extracted`.
pub open spec fn answers_query<T: DeserializeOwned>(
    query: Option<Seq<char>>,
    extracted: Result<Query<T>, ServerFnError>,
) -> bool {
    exists|parsed: Result<T, serde_qs::Error>| #[trigger]
        deserialized(query_or_empty(query), parsed) && extracted_from(parsed, extracted)
}

/// The request that `parts` is the head of may be answered with `extracted`.
pub open spec fn answers_request<T: DeserializeOwned>(
    parts: &http::request::Parts,
    extracted: Result<Query<T>, ServerFnError>,
) -> bool {
    exists|query: Option<Seq<char>>| #[trigger]
        has_query(parts, query) && answers_query(query, extracted)
}

/// Two answers are alike: they hold the same value, or tell the same error.
pub open spec fn alike<T>(
    left: Result<Query<T>, ServerFnError>,
    right: Result<Query<T>, ServerFnError>,
) -> bool {
    exists|parsed: Result<T, serde_qs::Error>| #[trigger]
        extracted_from(parsed, left) && extracted_from(parsed, right)
}

/// The value of a strict parse if it went well, otherwise what `lenient` gives,
/// which is called only then.
pub fn prefer_strict<T, E, F: FnOnce() -> Result<T, E>>(strict: Result<T, E>, lenient: F) -> (parsed:
    Result<T, E>)
    requires
        strict is Err ==> call_requires(lenient, ()),
    ensures
        match strict {
            Ok(value) => parsed == Ok::<T, E>(value),
            Err(_) => call_ensures(lenient, (), parsed),
        },
{
    match strict {
        Ok(value) => Ok(value),
        Err(_) => lenient(),
    }
}

/// Preserve strict parsing for ordinary queries, then let `serde_qs` tolerate
/// structural brackets percent-encoded by clients such as URLSession without
/// rewriting the query or its values.
pub fn deserialize_query<T: DeserializeOwned>(query: &str) -> (parsed: Result<T, serde_qs::Error>)
    ensures
        deserialized(query@, parsed),
{
    let strict: Result<T, serde_qs::Error> = qs_from_str(query);
    let lenient = || -> (parsed: Result<T, serde_qs::Error>)
        ensures
            parsed_with(SERDE_QS_DEFAULT_MAX_DEPTH, false, query@, parsed),
        { qs_deserialize_str(SERDE_QS_DEFAULT_MAX_DEPTH, false, query) };
    prefer_strict(strict, lenient)
}

impl<T> Query<T> {
    /// What a request is answered with whose query deserializes to `parsed`.
    pub fn from_parsed(parsed: Result<T, serde_qs::Error>) -> (extracted: Result<
        Self,
        ServerFnError,
    >)
        ensures
            extracted_from(parsed, extracted),
    {
        match parsed {
            Ok(value) => Ok(Query(value)),
            Err(error) => Err(ServerFnError::Deserialization(error.to_string())),
        }
    }

    /// Deserializes the query of a request. A request without one has an empty
    /// query.
    pub fn from_query(query: Option<&str>) -> (extracted: Result<Self, ServerFnError>) where
        T: DeserializeOwned,

        ensures
            answers_query(query.deep_view(), extracted),
    {
        let text = query.unwrap_or_default();
        proof {
            reveal_strlit("");
            assert(text@ =~= query_or_empty(query.deep_view()));
        }
        let parsed = deserialize_query(text);
        Self::from_parsed(parsed)
    }

    /// Deserializes the query of the request that `parts` is the head of.
    pub fn from_request_parts(parts: &http::request::Parts) -> (extracted: Result<
        Self,
        ServerFnError,
    >) where T: DeserializeOwned
        ensures
            answers_request(parts, extracted),
    {
        let query = uri_query(parts);
        assert(has_query(parts, query.deep_view()));
        Self::from_query(query)
    }
}

/// What a request may be answered with depends on its query alone: if the
/// queries of one request are among those of another, so are its answers.
pub proof fn law_answers_depend_on_query_alone<T: DeserializeOwned>(
    first: &http::request::Parts,
    second: &http::request::Parts,
    extracted: Result<Query<T>, ServerFnError>,
)
    requires
        forall|query: Option<Seq<char>>| #[trigger]
            has_query(first, query) ==> exists|other: Option<Seq<char>>| #[trigger]
                has_query(second, other) && query_or_empty(other) == query_or_empty(query),
        answers_request(first, extracted),
    ensures
        answers_request(second, extracted),
{
    let query = choose|query: Option<Seq<char>>| #[trigger]
        has_query(first, query) && answers_query(query, extracted);
    let other = choose|other: Option<Seq<char>>| #[trigger]
        has_query(second, other) && query_or_empty(other) == query_or_empty(query);
    assert(answers_query(other, extracted));
}

/// Two requests with the same query are answered alike, whatever else they
/// hold, if each mode of parsing reads that query in one way only.
pub proof fn law_same_query_is_answered_alike<T: DeserializeOwned>(
    first: &http::request::Parts,
    second: &http::request::Parts,
    query: Seq<char>,
    left: Result<Query<T>, ServerFnError>,
    right: Result<Query<T>, ServerFnError>,
)
    requires
        forall|of_first: Option<Seq<char>>| #[trigger]
            has_query(first, of_first) ==> query_or_empty(of_first) == query,
        forall|of_second: Option<Seq<char>>| #[trigger]
            has_query(second, of_second) ==> query_or_empty(of_second) == query,
        forall|strict: bool, a: Result<T, serde_qs::Error>, b: Result<T, serde_qs::Error>|
            #[trigger] parsed_with(SERDE_QS_DEFAULT_MAX_DEPTH, strict, query, a)
                && #[trigger] parsed_with(SERDE_QS_DEFAULT_MAX_DEPTH, strict, query, b) ==> a == b,
        answers_request(first, left),
        answers_request(second, right),
    ensures
        alike(left, right),
        left is Ok || right is Ok ==> left == right,
        left is Err ==> right is Err && exists|error: serde_qs::Error| #[trigger]
            vstd::string::to_string_from_display_ensures(&error, left->Err_0->0)
                && vstd::string::to_string_from_display_ensures(&error, right->Err_0->0),
{
    let a = choose|parsed: Result<T, serde_qs::Error>| #[trigger]
        deserialized(query, parsed) && extracted_from(parsed, left);
    let b = choose|parsed: Result<T, serde_qs::Error>| #[trigger]
        deserialized(query, parsed) && extracted_from(parsed, right);
    assert(a == b);
}

/// A request without a query is answered as one with an empty query.
pub proof fn law_missing_query_is_empty<T: DeserializeOwned>(
    extracted: Result<Query<T>, ServerFnError>,
)
    ensures
        answers_query(None, extracted) == answers_query(Some(seq![]), extracted),
{
    assert(query_or_empty(None) == query_or_empty(Some(seq![])));
}

/// A parse is of the text itself, character for character.
proof fn law_parse_is_of_the_text<T: DeserializeOwned>(
    max_depth: usize,
    strict: bool,
    query: Seq<char>,
    parsed: Result<T, serde_qs::Error>,
)
    ensures
        parsed_with(max_depth, strict, query, parsed) <==> exists|text: &str|
            text@ == query && #[trigger] call_ensures(
                qs_deserialize_str::<T>,
                (max_depth, strict, text),
                parsed,
            ),
{
}

/// The query of a request is what its URI gives, character for character.
proof fn law_query_is_that_of_the_uri(parts: &http::request::Parts, query: Option<Seq<char>>)
    ensures
        has_query(parts, query) <==> exists|text: Option<&str>|
            {
                &&& #[trigger] call_ensures(uri_query, (parts,), text)
                &&& match text {
                    Some(text) => query == Some(text@),
                    None => query is None,
                }
            },
{
    assert forall|text: Option<&str>| #[trigger]
        call_ensures(uri_query, (parts,), text) implies (match text {
        Some(text) => query == Some(text@),
        None => query is None,
    } <==> text.deep_view() == query) by {}
}

/// The strict parse is preferred, and the second parse is of the same text, under
/// the same limit, and only where the strict one failed.
pub proof fn law_deserialize_query<T: DeserializeOwned>(
    query: &str,
    parsed: Result<T, serde_qs::Error>,
)
    requires
        call_ensures(deserialize_query::<T>, (query,), parsed),
    ensures
        (parsed is Ok && parsed_with(5usize, true, query@, parsed)) || (parsed_with(
            5usize,
            false,
            query@,
            parsed,
        ) && exists|error: serde_qs::Error| #[trigger]
            parsed_with(5usize, true, query@, Err::<T, serde_qs::Error>(error))),
{
    let strict = choose|strict: Result<T, serde_qs::Error>| #[trigger]
        parsed_with(SERDE_QS_DEFAULT_MAX_DEPTH, true, query@, strict) && match strict {
            Ok(value) => parsed == Ok::<T, serde_qs::Error>(value),
            Err(_) => parsed_with(SERDE_QS_DEFAULT_MAX_DEPTH, false, query@, parsed),
        };
    if let Err(error) = strict {
        assert(parsed_with(5usize, true, query@, Err::<T, serde_qs::Error>(error)));
    }
}

/// A request is answered by a parse of its query itself, character for character:
/// with the value of the strict parse, or, where that failed, with the value or
/// the error of the parse that tolerates encoded brackets. Every such answer is
/// possible, and no other.
pub proof fn law_answers_to_a_query<T: DeserializeOwned>(
    text: Seq<char>,
    extracted: Result<Query<T>, ServerFnError>,
)
    ensures
        answers_query(Some(text), extracted) <==> (exists|strict: Result<T, serde_qs::Error>|
            {
                &&& #[trigger] parsed_with(5usize, true, text, strict)
                &&& match strict {
                    Ok(value) => extracted matches Ok(query) && query.0 == value,
                    Err(_) => exists|lenient: Result<T, serde_qs::Error>|
                        {
                            &&& #[trigger] parsed_with(5usize, false, text, lenient)
                            &&& match lenient {
                                Ok(value) => extracted matches Ok(query) && query.0 == value,
                                Err(error) => extracted matches Err(
                                    ServerFnError::Deserialization(message),
                                ) && vstd::string::to_string_from_display_ensures(&error, message),
                            }
                        },
                }
            }),
{
    let query = query_or_empty(Some(text));
    if answers_query(Some(text), extracted) {
        let parsed = choose|parsed: Result<T, serde_qs::Error>| #[trigger]
            deserialized(query, parsed) && extracted_from(parsed, extracted);
        assert(deserialized(text, parsed));
    }
    assert forall|strict: Result<T, serde_qs::Error>|
        #[trigger] parsed_with(5usize, true, text, strict) && strict is Ok && extracted_from(
            strict,
            extracted,
        ) implies answers_query(Some(text), extracted) by {
        assert(deserialized(text, strict));
    }
    assert forall|
        strict: Result<T, serde_qs::Error>,
        lenient: Result<T, serde_qs::Error>,
    | #[trigger]
        parsed_with(5usize, true, text, strict) && strict is Err && #[trigger] parsed_with(
            5usize,
            false,
            text,
            lenient,
        ) && extracted_from(lenient, extracted) implies answers_query(Some(text), extracted) by {
        assert(deserialized(text, lenient));
    }
}

/// What is extracted from a query comes from a parse of that query itself; a
/// missing query is parsed as the empty text.
pub proof fn law_from_query<T: DeserializeOwned>(
    query: Option<&str>,
    text: Seq<char>,
    extracted: Result<Query<T>, ServerFnError>,
)
    requires
        call_ensures(Query::<T>::from_query, (query,), extracted),
        match query {
            Some(query) => query@ == text,
            None => text.len() == 0,
        },
    ensures
        exists|strict: Result<T, serde_qs::Error>|
            {
                &&& #[trigger] parsed_with(5usize, true, text, strict)
                &&& match strict {
                    Ok(value) => extracted matches Ok(query) && query.0 == value,
                    Err(_) => exists|lenient: Result<T, serde_qs::Error>|
                        {
                            &&& #[trigger] parsed_with(5usize, false, text, lenient)
                            &&& match lenient {
                                Ok(value) => extracted matches Ok(query) && query.0 == value,
                                Err(error) => extracted matches Err(
                                    ServerFnError::Deserialization(message),
                                ) && vstd::string::to_string_from_display_ensures(&error, message),
                            }
                        },
                }
            },
{
    if query is None {
        assert(text =~= seq![]);
        law_missing_query_is_empty(extracted);
    }
    law_answers_to_a_query(text, extracted);
}

/// What is extracted from a request comes from a parse of the query of its URI; a
/// missing query is parsed as the empty text.
pub proof fn law_from_request_parts<T: DeserializeOwned>(
    parts: &http::request::Parts,
    text: Seq<char>,
    extracted: Result<Query<T>, ServerFnError>,
)
    requires
        call_ensures(Query::<T>::from_request_parts, (parts,), extracted),
        forall|query: Option<Seq<char>>| #[trigger]
            has_query(parts, query) ==> match query {
                Some(query) => query == text,
                None => text.len() == 0,
            },
    ensures
        exists|strict: Result<T, serde_qs::Error>|
            {
                &&& #[trigger] parsed_with(5usize, true, text, strict)
                &&& match strict {
                    Ok(value) => extracted matches Ok(query) && query.0 == value,
                    Err(_) => exists|lenient: Result<T, serde_qs::Error>|
                        {
                            &&& #[trigger] parsed_with(5usize, false, text, lenient)
                            &&& match lenient {
                                Ok(value) => extracted matches Ok(query) && query.0 == value,
                                Err(error) => extracted matches Err(
                                    ServerFnError::Deserialization(message),
                                ) && vstd::string::to_string_from_display_ensures(&error, message),
                            }
                        },
                }
            },
{
    let query = choose|query: Option<Seq<char>>| #[trigger]
        has_query(parts, query) && answers_query(query, extracted);
    if query is None {
        assert(text =~= seq![]);
        law_missing_query_is_empty(extracted);
    }
    law_answers_to_a_query(text, extracted);
}

/// A parsed value is extracted as it is, and an error is told in its own words.
pub proof fn law_from_parsed<T>(
    parsed: Result<T, serde_qs::Error>,
    extracted: Result<Query<T>, ServerFnError>,
)
    requires
        call_ensures(Query::<T>::from_parsed, (parsed,), extracted),
    ensures
        parsed is Ok <==> extracted is Ok,
        parsed matches Ok(value) ==> (extracted matches Ok(query) && query.0 == value),
        parsed matches Err(error) ==> (extracted matches Err(
            ServerFnError::Deserialization(message),
        ) && vstd::string::to_string_from_display_ensures(&error, message)),
{
}

/// A strict value is never given up, and a strict error is never told.
pub proof fn law_prefer_strict<T, E, F: FnOnce() -> Result<T, E>>(
    strict: Result<T, E>,
    lenient: F,
    parsed: Result<T, E>,
)
    requires
        call_ensures(prefer_strict::<T, E, F>, (strict, lenient), parsed),
    ensures
        strict is Ok ==> parsed == strict,
        strict is Err ==> call_ensures(lenient, (), parsed),
{
}

impl<T> std::ops::Deref for Query<T> {
    type Target = T;

    fn deref(&self) -> (inner: &T)
        ensures
            *inner == self.0,
    {
        &self.0
    }
}

/// A query derefs to the value that was extracted.
pub proof fn law_query_deref<T>(query: &Query<T>, inner: &T)
    requires
        call_ensures(<Query<T> as std::ops::Deref>::deref, (query,), inner),
    ensures
        *inner == query.0,
{
}

} // verus!
