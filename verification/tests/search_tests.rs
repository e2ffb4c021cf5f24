use sitesearch::service::IndexService;
use sitesearch::{ConfigError, QueryError};
use tantivy::schema::{Schema, STORED, TEXT};
use tantivy::{DateTime, Index, TantivyDocument};

struct Doc<'a> {
    title: &'a str,
    description: Option<&'a str>,
    permalink: &'a str,
    datetime: Option<i64>,
}

fn sample_index(docs: &[Doc]) -> Index {
    let mut builder = Schema::builder();
    let title = builder.add_text_field("title", TEXT | STORED);
    let description = builder.add_text_field("description", TEXT | STORED);
    let permalink = builder.add_text_field("permalink", STORED);
    let datetime = builder.add_date_field("datetime", STORED);
    let schema = builder.build();
    let index = Index::create_in_ram(schema);
    let mut writer = index.writer_with_num_threads(1, 20_000_000).unwrap();
    for doc in docs {
        let mut d = TantivyDocument::default();
        d.add_text(title, doc.title);
        if let Some(text) = doc.description {
            d.add_text(description, text);
        }
        d.add_text(permalink, doc.permalink);
        if let Some(secs) = doc.datetime {
            d.add_date(datetime, DateTime::from_timestamp_secs(secs));
        }
        writer.add_document(d).unwrap();
    }
    writer.commit().unwrap();
    index
}

fn three_pages() -> Vec<Doc<'static>> {
    vec![
        Doc {
            title: "The diary of a programmer",
            description: Some("Notes on verification"),
            permalink: "https://example.org/one",
            datetime: Some(1683676800),
        },
        Doc {
            title: "A diary of long walks",
            description: None,
            permalink: "https://example.org/two",
            datetime: None,
        },
        Doc {
            title: "Another diary",
            description: Some("diary diary diary"),
            permalink: "https://example.org/three",
            datetime: Some(0),
        },
        Doc {
            title: "A cookbook",
            description: Some("Recipes"),
            permalink: "https://example.org/four",
            datetime: None,
        },
    ]
}

#[test]
fn search_returns_min_of_limit_and_matches_and_the_exact_total() {
    let service = IndexService::from_index(sample_index(&three_pages())).unwrap();

    let result = service.search(String::from("diary"), 2).unwrap();
    assert_eq!(result.total, 3);
    assert_eq!(result.hits.len(), 2);

    let result = service.search(String::from("diary"), 100).unwrap();
    assert_eq!(result.total, 3);
    assert_eq!(result.hits.len(), 3);

    let result = service.search(String::from("nothing_matches_this"), 10).unwrap();
    assert_eq!(result.total, 0);
    assert_eq!(result.hits.len(), 0);
}

#[test]
fn hits_come_in_non_increasing_score_order() {
    let service = IndexService::from_index(sample_index(&three_pages())).unwrap();
    let result = service.search(String::from("diary"), 100).unwrap();
    assert_eq!(result.hits.len(), 3);
    for pair in result.hits.windows(2) {
        assert!(pair[0].score_key >= pair[1].score_key);
    }
    // the document that repeats the term scores highest
    let top = service.project_hit(&result.hits[0]);
    assert_eq!(top.title, Some(String::from("Another diary")));
}

#[test]
fn a_malformed_query_is_a_request_error_not_a_crash() {
    let service = IndexService::from_index(sample_index(&three_pages())).unwrap();
    let result = service.search(String::from("\"hello"), 10);
    assert!(matches!(result, Err(QueryError::MalformedQuery)));
    let result = service.search(String::from("nosuchfield:walks"), 10);
    assert!(matches!(result, Err(QueryError::MalformedQuery)));
}

#[test]
fn phrase_and_field_qualified_queries() {
    let service = IndexService::from_index(sample_index(&three_pages())).unwrap();
    let result = service.search(String::from("\"long walks\""), 10).unwrap();
    assert_eq!(result.total, 1);
    let result = service.search(String::from("title:cookbook"), 10).unwrap();
    assert_eq!(result.total, 1);
}

#[test]
fn an_index_without_searchable_text_fields_is_refused_at_load() {
    let mut builder = Schema::builder();
    builder.add_text_field("title", STORED);
    builder.add_u64_field("count", STORED);
    let index = Index::create_in_ram(builder.build());
    let result = IndexService::from_index(index);
    assert!(matches!(result, Err(ConfigError::NoSearchableFields)));
}

#[test]
fn the_discovered_scope_holds_the_indexed_text_fields_only() {
    let service = IndexService::from_index(sample_index(&three_pages())).unwrap();
    // title and description are indexed text; permalink and datetime are
    // stored only
    assert_eq!(service.scope, vec![0, 1]);
    assert_eq!(service.roles.title, Some(0));
    assert_eq!(service.roles.description, Some(1));
    assert_eq!(service.roles.link, Some(2));
    assert_eq!(service.roles.date, Some(3));
}

#[test]
fn projection_degrades_missing_fields_and_renders_dates() {
    let service = IndexService::from_index(sample_index(&three_pages())).unwrap();
    let result = service.search(String::from("walks"), 10).unwrap();
    assert_eq!(result.hits.len(), 1);
    let page = service.project_hit(&result.hits[0]);
    assert_eq!(page.title, Some(String::from("A diary of long walks")));
    assert_eq!(page.description, None);
    assert_eq!(page.link, Some(String::from("https://example.org/two")));
    assert_eq!(page.date, None);

    let result = service.search(String::from("programmer"), 10).unwrap();
    let page = service.project_hit(&result.hits[0]);
    assert_eq!(page.description, Some(String::from("Notes on verification")));
    assert_eq!(page.date, Some(String::from("Wed 10 May")));
}

#[test]
fn loading_a_directory_without_an_index_fails() {
    let result = IndexService::load("this-directory-does-not-exist");
    assert!(matches!(result, Err(ConfigError::InvalidIndex)));
}
