use sitesearch::fields::{default_fields, lookup_field, roles_from, FieldInfo};
use sitesearch::ConfigError;

fn info(id: u32, name: &str, is_text: bool, indexed: bool) -> FieldInfo {
    FieldInfo { id, name: String::from(name), is_text, indexed }
}

#[test]
fn the_scope_keeps_indexed_text_fields_in_schema_order() {
    let fields = vec![
        info(0, "title", true, true),
        info(1, "count", false, false),
        info(2, "description", true, true),
        info(3, "permalink", true, false),
    ];
    let scope = default_fields(&fields).unwrap();
    assert_eq!(scope, vec![0, 2]);
}

#[test]
fn an_empty_scope_is_a_configuration_error() {
    let fields = vec![info(0, "permalink", true, false), info(1, "count", false, true)];
    assert!(matches!(default_fields(&fields), Err(ConfigError::NoSearchableFields)));
    assert!(matches!(default_fields(&Vec::new()), Err(ConfigError::NoSearchableFields)));
}

#[test]
fn lookup_finds_the_first_field_of_a_name() {
    let fields = vec![info(7, "title", true, true), info(9, "title", true, false)];
    assert_eq!(lookup_field(&fields, &String::from("title")), Some(7));
    assert_eq!(lookup_field(&fields, &String::from("missing")), None);
}

#[test]
fn roles_resolve_by_their_fixed_names() {
    let fields = vec![
        info(0, "datetime", false, false),
        info(1, "title", true, true),
        info(2, "description", true, true),
    ];
    let roles = roles_from(&fields);
    assert_eq!(roles.title, Some(1));
    assert_eq!(roles.description, Some(2));
    assert_eq!(roles.link, None);
    assert_eq!(roles.date, Some(0));
}
