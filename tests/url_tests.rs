use atlas_url::bind::{bind, drops_query, query_pairs, render_path, BindError};
use atlas_url::plan::{analyze, BindingPlan};
use atlas_url::schema::{FieldValue, ParameterDescriptor, ParameterKind};
use atlas_url::schema::ParameterKind::{List, OptionalList, OptionalScalar, Scalar};
use atlas_url::template::TemplateError;
use url::Url;

const BASE: &str = "http://jeroenvervaeke.com";

fn plan(template: &str, fields: &[(&str, ParameterKind)]) -> BindingPlan {
    let descriptors = fields
        .iter()
        .map(|(name, kind)| ParameterDescriptor::new(name, *kind))
        .collect();
    analyze(template, descriptors).unwrap()
}

fn scalar(s: &str) -> FieldValue {
    FieldValue::Scalar(s.to_string())
}

fn some(s: &str) -> FieldValue {
    FieldValue::OptionalScalar(Some(s.to_string()))
}

fn list<T: ToString>(items: &[T]) -> FieldValue {
    FieldValue::List(items.iter().map(|i| i.to_string()).collect())
}

fn some_list<T: ToString>(items: &[T]) -> FieldValue {
    FieldValue::OptionalList(Some(items.iter().map(|i| i.to_string()).collect()))
}

fn pairs(url: &Url) -> Vec<(String, String)> {
    url.query_pairs()
        .map(|(k, v)| (k.into_owned(), v.into_owned()))
        .collect()
}

fn has_pair(pairs: &[(String, String)], k: &str, v: &str) -> bool {
    pairs.iter().any(|(a, b)| a == k && b == v)
}

#[test]
fn test_basic_url() {
    let p = plan(
        "/api/v2/cluster/{cluster_id}/query",
        &[("cluster_id", Scalar), ("foo", OptionalScalar), ("bar", Scalar)],
    );
    let values = vec![scalar("123"), some(&42.to_string()), scalar(&true.to_string())];
    let url = bind(&p, &values, BASE).unwrap();

    assert_eq!(url.path(), "/api/v2/cluster/123/query");
    let query_pairs = pairs(&url);
    assert_eq!(query_pairs.len(), 2);
    assert!(has_pair(&query_pairs, "foo", "42"));
    assert!(has_pair(&query_pairs, "bar", "true"));
}

#[test]
fn test_optional_query_params() {
    let p = plan("/api/test", &[("optional_param", ParameterKind::OptionalScalar)]);

    let url = bind(&p, &vec![some("test")], BASE).unwrap();
    assert!(has_pair(&pairs(&url), "optional_param", "test"));

    let url = bind(&p, &vec![FieldValue::OptionalScalar(None)], BASE).unwrap();
    assert_eq!(url.query(), None);
    assert_eq!(url.to_string(), "http://jeroenvervaeke.com/api/test");
}

#[test]
fn test_multiple_path_params() {
    let p = plan(
        "/api/{version}/users/{user_id}/posts/{post_id}",
        &[("version", Scalar), ("user_id", Scalar), ("post_id", Scalar)],
    );
    let values = vec![scalar("v1"), scalar(&123u32.to_string()), scalar("abc")];
    let url = bind(&p, &values, BASE).unwrap();

    assert_eq!(url.path(), "/api/v1/users/123/posts/abc");
}

#[test]
fn test_vec_path_params() {
    let p = plan("/api/v1/users/{user_ids}", &[("user_ids", ParameterKind::List)]);
    let url = bind(&p, &vec![list(&[1u32, 2, 3])], BASE).unwrap();

    assert_eq!(url.path(), "/api/v1/users/1,2,3");
}

#[test]
fn test_vec_query_params() {
    let p = plan("/api/{version}/users", &[("version", Scalar), ("filter", List)]);
    let values = vec![scalar("v1"), list(&["active", "verified"])];
    let url = bind(&p, &values, BASE).unwrap();

    assert_eq!(url.path(), "/api/v1/users");
    let query_pairs = pairs(&url);
    assert_eq!(query_pairs.len(), 2);
    assert!(has_pair(&query_pairs, "filter", "active"));
    assert!(has_pair(&query_pairs, "filter", "verified"));
}

#[test]
fn test_optional_vec_query_params() {
    let p = plan("/api/test", &[("filters", ParameterKind::OptionalList)]);

    let url = bind(&p, &vec![some_list(&["a", "b"])], BASE).unwrap();
    let query_pairs = pairs(&url);
    assert_eq!(query_pairs.len(), 2);
    assert!(has_pair(&query_pairs, "filters", "a"));
    assert!(has_pair(&query_pairs, "filters", "b"));

    let url = bind(&p, &vec![FieldValue::OptionalList(None)], BASE).unwrap();
    assert_eq!(url.query(), None);
    assert_eq!(url.to_string(), "http://jeroenvervaeke.com/api/test");
}

#[test]
fn test_basic_types_path_params() {
    let p = plan(
        "/api/{str}/{u32}/{i32}/{bool}/{float}",
        &[("str", Scalar), ("u32", Scalar), ("i32", Scalar), ("bool", Scalar), ("float", Scalar)],
    );
    let values = vec![
        scalar("test"),
        scalar(&42u32.to_string()),
        scalar(&(-42i32).to_string()),
        scalar(&true.to_string()),
        scalar(&3.14f64.to_string()),
    ];
    let url = bind(&p, &values, BASE).unwrap();

    assert_eq!(url.path(), "/api/test/42/-42/true/3.14");
}

#[test]
fn test_basic_types_query_params() {
    let p = plan(
        "/api/test",
        &[("str", Scalar), ("u32", Scalar), ("i32", Scalar), ("bool", Scalar), ("float", Scalar)],
    );
    let values = vec![
        scalar("test"),
        scalar(&42u32.to_string()),
        scalar(&(-42i32).to_string()),
        scalar(&true.to_string()),
        scalar(&3.14f64.to_string()),
    ];
    let url = bind(&p, &values, BASE).unwrap();

    let query_pairs = pairs(&url);
    assert_eq!(query_pairs.len(), 5);
    assert!(has_pair(&query_pairs, "str", "test"));
    assert!(has_pair(&query_pairs, "u32", "42"));
    assert!(has_pair(&query_pairs, "i32", "-42"));
    assert!(has_pair(&query_pairs, "bool", "true"));
    assert!(has_pair(&query_pairs, "float", "3.14"));
}

#[test]
fn test_vec_types_path_params() {
    let p = plan(
        "/api/{strings}/{u32s}/{i32s}/{bools}/{floats}",
        &[("strings", List), ("u32s", List), ("i32s", List), ("bools", List), ("floats", List)],
    );
    let values = vec![
        list(&["a", "b"]),
        list(&[1u32, 2]),
        list(&[-1i32, -2]),
        list(&[true, false]),
        list(&[1.1f64, 2.2]),
    ];
    let url = bind(&p, &values, BASE).unwrap();

    assert_eq!(url.path(), "/api/a,b/1,2/-1,-2/true,false/1.1,2.2");
}

#[test]
fn test_vec_types_query_params() {
    let p = plan(
        "/api/test",
        &[("strings", List), ("u32s", List), ("i32s", List), ("bools", List), ("floats", List)],
    );
    let values = vec![
        list(&["a", "b"]),
        list(&[1u32, 2]),
        list(&[-1i32, -2]),
        list(&[true, false]),
        list(&[1.1f64, 2.2]),
    ];
    let url = bind(&p, &values, BASE).unwrap();

    let query_pairs = pairs(&url);
    assert_eq!(query_pairs.len(), 10);
    assert!(has_pair(&query_pairs, "strings", "a"));
    assert!(has_pair(&query_pairs, "strings", "b"));
    assert!(has_pair(&query_pairs, "u32s", "1"));
    assert!(has_pair(&query_pairs, "u32s", "2"));
    assert!(has_pair(&query_pairs, "i32s", "-1"));
    assert!(has_pair(&query_pairs, "i32s", "-2"));
    assert!(has_pair(&query_pairs, "bools", "true"));
    assert!(has_pair(&query_pairs, "bools", "false"));
    assert!(has_pair(&query_pairs, "floats", "1.1"));
    assert!(has_pair(&query_pairs, "floats", "2.2"));
}

#[test]
fn test_optional_basic_types() {
    let p = plan(
        "/api/test",
        &[
            ("str", OptionalScalar),
            ("u32", OptionalScalar),
            ("i32", OptionalScalar),
            ("bool", OptionalScalar),
            ("float", OptionalScalar),
        ],
    );
    let values = vec![
        some("test"),
        some(&42u32.to_string()),
        some(&(-42i32).to_string()),
        some(&true.to_string()),
        some(&3.14f64.to_string()),
    ];
    let url = bind(&p, &values, BASE).unwrap();

    let query_pairs = pairs(&url);
    assert_eq!(query_pairs.len(), 5);
    assert!(has_pair(&query_pairs, "str", "test"));
    assert!(has_pair(&query_pairs, "u32", "42"));
    assert!(has_pair(&query_pairs, "i32", "-42"));
    assert!(has_pair(&query_pairs, "bool", "true"));
    assert!(has_pair(&query_pairs, "float", "3.14"));

    let absent = (0..5).map(|_| FieldValue::OptionalScalar(None)).collect();
    let url = bind(&p, &absent, BASE).unwrap();

    assert_eq!(url.query(), None);
}

#[test]
fn test_optional_vec_types() {
    let p = plan(
        "/api/test",
        &[
            ("strings", OptionalList),
            ("u32s", OptionalList),
            ("i32s", OptionalList),
            ("bools", OptionalList),
            ("floats", OptionalList),
        ],
    );
    let values = vec![
        some_list(&["a", "b"]),
        some_list(&[1u32, 2]),
        some_list(&[-1i32, -2]),
        some_list(&[true, false]),
        some_list(&[1.1f64, 2.2]),
    ];
    let url = bind(&p, &values, BASE).unwrap();

    let query_pairs = pairs(&url);
    assert_eq!(query_pairs.len(), 10);
    assert!(has_pair(&query_pairs, "strings", "a"));
    assert!(has_pair(&query_pairs, "strings", "b"));
    assert!(has_pair(&query_pairs, "u32s", "1"));
    assert!(has_pair(&query_pairs, "u32s", "2"));
    assert!(has_pair(&query_pairs, "i32s", "-1"));
    assert!(has_pair(&query_pairs, "i32s", "-2"));
    assert!(has_pair(&query_pairs, "bools", "true"));
    assert!(has_pair(&query_pairs, "bools", "false"));
    assert!(has_pair(&query_pairs, "floats", "1.1"));
    assert!(has_pair(&query_pairs, "floats", "2.2"));

    let absent = (0..5).map(|_| FieldValue::OptionalList(None)).collect();
    let url = bind(&p, &absent, BASE).unwrap();

    assert_eq!(url.query(), None);
}

#[test]
fn query_pairs_follow_declaration_order() {
    let p = plan(
        "/api/v2/cluster/{cluster_id}/query",
        &[("cluster_id", Scalar), ("foo", OptionalScalar), ("bar", Scalar)],
    );
    let values = vec![scalar("123"), some("42"), scalar("true")];
    let url = bind(&p, &values, "http://example.com").unwrap();
    assert_eq!(url.as_str(), "http://example.com/api/v2/cluster/123/query?foo=42&bar=true");
    assert_eq!(
        query_pairs(&p, &values).unwrap(),
        vec![("foo".to_string(), "42".to_string()), ("bar".to_string(), "true".to_string())]
    );
}

#[test]
fn absent_optional_leaves_no_question_mark() {
    let p = plan("/api/test", &[("optional_param", ParameterKind::OptionalScalar)]);
    let url = bind(&p, &vec![FieldValue::OptionalScalar(None)], "http://example.com").unwrap();
    assert_eq!(url.as_str(), "http://example.com/api/test");
}

#[test]
fn list_in_path_is_comma_joined() {
    let p = plan("/api/v1/users/{user_ids}", &[("user_ids", ParameterKind::List)]);
    let values = vec![list(&[1, 2, 3])];
    assert_eq!(render_path(&p, &values).unwrap(), "/api/v1/users/1,2,3");
    let url = bind(&p, &values, "http://example.com").unwrap();
    assert_eq!(url.path(), "/api/v1/users/1,2,3");
}

#[test]
fn list_in_query_repeats_the_key_in_order() {
    let p = plan("/api/{version}/users", &[("version", Scalar), ("filter", List)]);
    let values = vec![scalar("v1"), list(&["active", "verified"])];
    let url = bind(&p, &values, "http://example.com").unwrap();
    assert_eq!(url.path(), "/api/v1/users");
    assert_eq!(
        pairs(&url),
        vec![
            ("filter".to_string(), "active".to_string()),
            ("filter".to_string(), "verified".to_string())
        ]
    );
}

#[test]
fn unterminated_placeholder_is_refused() {
    let descriptors = vec![ParameterDescriptor::new("id", ParameterKind::Scalar)];
    let r = analyze("/api/{id", descriptors);
    assert!(matches!(r, Err(TemplateError::UnterminatedPlaceholder)));
}

#[test]
fn open_brace_before_closing_one_is_refused() {
    let descriptors = vec![ParameterDescriptor::new("a", ParameterKind::Scalar)];
    let r = analyze("/x/{a{b}", descriptors);
    assert!(matches!(r, Err(TemplateError::UnterminatedPlaceholder)));
}

#[test]
fn undeclared_placeholder_is_refused_with_its_name() {
    let descriptors = vec![ParameterDescriptor::new("id", ParameterKind::Scalar)];
    let r = analyze("/api/{id}/{other}/{third}", descriptors);
    assert_eq!(r.err(), Some(TemplateError::UndeclaredField("other".to_string())));
}

#[test]
fn template_without_placeholders_makes_every_field_a_query_field() {
    let p = plan("/plain", &[("a", Scalar), ("b", Scalar)]);
    let qf = p.query_fields();
    assert_eq!(qf.len(), 2);
    assert_eq!(qf[0].name, "a");
    assert_eq!(qf[1].name, "b");
    let url = bind(&p, &vec![scalar("1"), scalar("2")], "http://example.com").unwrap();
    assert_eq!(url.as_str(), "http://example.com/plain?a=1&b=2");
}

#[test]
fn binding_twice_gives_the_same_url() {
    let p = plan("/api/{v}/items", &[("v", Scalar), ("tag", List), ("q", OptionalScalar)]);
    let values = vec![scalar("v2"), list(&["x y", "z&w"]), some("ä")];
    let first = bind(&p, &values, "http://example.com").unwrap();
    let second = bind(&p, &values, "http://example.com").unwrap();
    assert_eq!(first.as_str(), second.as_str());
}

#[test]
fn only_path_fields_give_no_query() {
    let p = plan("/a/{x}/b/{y}", &[("x", Scalar), ("y", List)]);
    let values = vec![scalar("1"), list(&["2", "3"])];
    assert!(query_pairs(&p, &values).unwrap().is_empty());
    let url = bind(&p, &values, "http://example.com").unwrap();
    assert_eq!(url.query(), None);
    assert_eq!(url.as_str(), "http://example.com/a/1/b/2,3");
}

#[test]
fn query_values_are_percent_encoded() {
    let p = plan("/search", &[("q", ParameterKind::Scalar)]);
    let url = bind(&p, &vec![scalar("a b&c=d")], "http://example.com").unwrap();
    assert_eq!(url.query(), Some("q=a+b%26c%3Dd"));
}

#[test]
fn empty_list_in_query_is_omitted() {
    let p = plan("/x", &[("tags", List)]);
    let url = bind(&p, &vec![FieldValue::List(vec![])], "http://example.com").unwrap();
    assert_eq!(url.query(), None);
}

#[test]
fn absent_optional_in_path_renders_empty() {
    let p = plan("/api/{id}/query", &[("id", ParameterKind::OptionalScalar)]);
    let values = vec![FieldValue::OptionalScalar(None)];
    assert_eq!(render_path(&p, &values).unwrap(), "/api//query");
}

#[test]
fn absent_optional_list_in_path_renders_empty() {
    let p = plan("/api/{ids}", &[("ids", ParameterKind::OptionalList)]);
    let values = vec![FieldValue::OptionalList(None)];
    assert_eq!(render_path(&p, &values).unwrap(), "/api/");
    let values = vec![some_list(&["p", "q"])];
    assert_eq!(render_path(&p, &values).unwrap(), "/api/p,q");
}

#[test]
fn values_of_the_wrong_kind_are_a_schema_mismatch() {
    let p = plan("/api/{id}", &[("id", ParameterKind::Scalar)]);
    let r = bind(&p, &vec![list(&["1"])], "http://example.com");
    assert!(matches!(r, Err(BindError::SchemaMismatch)));
    let r = bind(&p, &vec![], "http://example.com");
    assert!(matches!(r, Err(BindError::SchemaMismatch)));
}

#[test]
fn base_without_scheme_is_a_url_parse_error() {
    let p = plan("/api/{id}", &[("id", ParameterKind::Scalar)]);
    let r = bind(&p, &vec![scalar("1")], "example.com");
    assert!(matches!(r, Err(BindError::UrlParse(_))));
}

#[test]
fn only_a_present_empty_query_is_dropped() {
    assert!(drops_query(&Some(String::new())));
    assert!(!drops_query(&Some("a=1".to_string())));
    assert!(!drops_query(&None));
}

#[test]
fn template_with_empty_query_mark_loses_it() {
    let p = plan("/api/test?", &[("opt", ParameterKind::OptionalScalar)]);
    let url = bind(&p, &vec![FieldValue::OptionalScalar(None)], "http://example.com").unwrap();
    assert_eq!(url.as_str(), "http://example.com/api/test");
}
