use openapi_ir::strutil::{
    count_matches_exec, find_char_exec, get_schema_name, split3_exec, str_eq, str_lt,
    template_params_exec,
};

#[test]
fn str_eq_compares_content() {
    assert!(str_eq("abc", "abc"));
    assert!(!str_eq("abc", "abd"));
    assert!(!str_eq("abc", "abcd"));
    assert!(str_eq("", ""));
}

#[test]
fn str_lt_is_lexicographic() {
    assert!(str_lt("abc", "abd"));
    assert!(str_lt("ab", "abc"));
    assert!(!str_lt("abc", "abc"));
    assert!(!str_lt("b", "ab"));
    assert!(str_lt("", "a"));
    assert!(str_lt("Application", "application"));
}

#[test]
fn find_char_finds_first() {
    assert_eq!(find_char_exec("a.b.c", '.'), Some(1));
    assert_eq!(find_char_exec("abc", '.'), None);
    assert_eq!(find_char_exec("", '.'), None);
}

#[test]
fn split3_wants_exactly_three_segments() {
    assert_eq!(
        split3_exec("v1.foo.get"),
        Some(("v1".to_string(), "foo".to_string(), "get".to_string()))
    );
    assert_eq!(split3_exec("v1.foo"), None);
    assert_eq!(split3_exec("v1.foo.get.extra"), None);
    assert_eq!(split3_exec("nodots"), None);
    assert_eq!(
        split3_exec("v1..get"),
        Some(("v1".to_string(), "".to_string(), "get".to_string()))
    );
}

#[test]
fn schema_name_needs_component_prefix() {
    assert_eq!(
        get_schema_name(&Some("#/components/schemas/Foo".to_string())),
        Some("Foo".to_string())
    );
    assert_eq!(get_schema_name(&Some("#/definitions/Foo".to_string())), None);
    assert_eq!(get_schema_name(&Some("Foo".to_string())), None);
    assert_eq!(get_schema_name(&None), None);
    assert_eq!(
        get_schema_name(&Some("#/components/schemas/".to_string())),
        Some("".to_string())
    );
}

#[test]
fn template_params_are_extracted_in_order() {
    assert_eq!(
        template_params_exec("/foo/{id}/bar/{name}"),
        vec!["id".to_string(), "name".to_string()]
    );
    assert_eq!(template_params_exec("/foo/bar"), Vec::<String>::new());
    assert_eq!(template_params_exec("/foo/{unclosed"), Vec::<String>::new());
}

#[test]
fn count_matches_counts_content() {
    let names = vec!["id".to_string(), "name".to_string(), "id".to_string()];
    assert_eq!(count_matches_exec(&names, "id"), 2);
    assert_eq!(count_matches_exec(&names, "name"), 1);
    assert_eq!(count_matches_exec(&names, "missing"), 0);
}
