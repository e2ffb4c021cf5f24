use sitesearch::fields::FieldRoles;
use sitesearch::page::{project, StoredValue};

fn roles() -> FieldRoles {
    FieldRoles { title: Some(0), description: Some(1), link: Some(2), date: Some(3) }
}

fn full_doc() -> Vec<(u32, StoredValue)> {
    vec![
        (0, StoredValue::Text(String::from("A title"))),
        (1, StoredValue::Text(String::from("A description"))),
        (2, StoredValue::Text(String::from("https://example.org/a"))),
        (3, StoredValue::Temporal(1683676800)),
    ]
}

#[test]
fn a_full_document_fills_every_role() {
    let page = project(&full_doc(), &roles());
    assert_eq!(page.title, Some(String::from("A title")));
    assert_eq!(page.description, Some(String::from("A description")));
    assert_eq!(page.link, Some(String::from("https://example.org/a")));
    assert_eq!(page.date, Some(String::from("Wed 10 May")));
}

#[test]
fn a_missing_description_leaves_only_that_role_empty() {
    let fields = vec![
        (0, StoredValue::Text(String::from("A title"))),
        (2, StoredValue::Text(String::from("https://example.org/a"))),
        (3, StoredValue::Temporal(1683676800)),
    ];
    let page = project(&fields, &roles());
    assert_eq!(page.description, None);
    assert_eq!(page.title, Some(String::from("A title")));
    assert_eq!(page.link, Some(String::from("https://example.org/a")));
    assert_eq!(page.date, Some(String::from("Wed 10 May")));
}

#[test]
fn a_wrongly_typed_value_degrades_to_an_empty_role() {
    let fields = vec![
        (0, StoredValue::Temporal(12345)),
        (1, StoredValue::Other),
        (2, StoredValue::Text(String::from("https://example.org/a"))),
        (3, StoredValue::Text(String::from("2023-05-10"))),
    ];
    let page = project(&fields, &roles());
    assert_eq!(page.title, None);
    assert_eq!(page.description, None);
    assert_eq!(page.link, Some(String::from("https://example.org/a")));
    assert_eq!(page.date, None);
}

#[test]
fn an_absent_role_stays_empty() {
    let no_roles = FieldRoles { title: None, description: None, link: None, date: None };
    let page = project(&full_doc(), &no_roles);
    assert_eq!(page.title, None);
    assert_eq!(page.description, None);
    assert_eq!(page.link, None);
    assert_eq!(page.date, None);
}

#[test]
fn the_first_stored_value_of_a_field_wins() {
    let fields = vec![
        (0, StoredValue::Text(String::from("first"))),
        (0, StoredValue::Text(String::from("second"))),
    ];
    let page = project(&fields, &roles());
    assert_eq!(page.title, Some(String::from("first")));
}

#[test]
fn a_document_without_stored_fields_projects_to_an_empty_record() {
    let page = project(&Vec::new(), &roles());
    assert_eq!(page.title, None);
    assert_eq!(page.description, None);
    assert_eq!(page.link, None);
    assert_eq!(page.date, None);
}

#[test]
fn dates_before_the_epoch_still_render() {
    let fields = vec![(3, StoredValue::Temporal(-6106060800))];
    let page = project(&fields, &roles());
    assert_eq!(page.date, Some(String::from("Thu 4 Jul")));
}

#[test]
fn dates_out_of_the_rendered_range_degrade_to_empty() {
    let fields = vec![(3, StoredValue::Temporal(-11676096001))];
    let page = project(&fields, &roles());
    assert_eq!(page.date, None);
    let fields = vec![(3, StoredValue::Temporal(i64::MIN))];
    let page = project(&fields, &roles());
    assert_eq!(page.date, None);
    let fields = vec![(3, StoredValue::Temporal(i64::MAX))];
    let page = project(&fields, &roles());
    assert_eq!(page.date, None);
}
