use vstd::prelude::*;

use crate::analyzer::{build_analyzer, StemLanguage, ANALYZER_NAME};
use crate::engine;
use crate::engine::SearchErr;
use crate::fields::{default_fields, roles_from, scope_of, spec_lookup, FieldInfo, FieldRoles};
use crate::page::{page_of, project, Page, StoredValue};
use crate::{ConfigError, QueryError};

verus! {

/// One retrieved document: an order-preserving key for its relevance score
/// (higher key, higher score), its address within the snapshot that produced
/// it, and its stored field values. The address is not stable across index
/// reopenings.
pub struct Hit {
    pub score_key: u32,
    pub segment: u32,
    pub doc_id: u32,
    pub fields: Vec<(u32, StoredValue)>,
}

/// What one query returned: the query text, the exact number of matching
/// documents regardless of how many were returned, and the retrieved hits in
/// descending score order.
pub struct ResultSet {
    pub query: String,
    pub total: usize,
    pub hits: Vec<Hit>,
}

/// Hits stand in non-increasing score order.
pub open spec fn sorted_by_score(hits: Seq<Hit>) -> bool {
    forall|i: int, j: int| 0 <= i <= j < hits.len() ==> hits[i].score_key >= hits[j].score_key
}

/// Orders retrieval triples by non-increasing score key, by insertion: a
/// triple goes after every one whose key is at least its own, so a list the
/// engine already ordered comes out unchanged, and triples of equal key
/// keep their arriving order. This establishes the order of the result set
/// whatever the engine emitted.
fn sort_by_key(items: &Vec<(u32, u32, u32)>) -> (out: Vec<(u32, u32, u32)>)
    ensures
        out@.len() == items@.len(),
        forall|a: int, b: int| 0 <= a <= b < out@.len() ==> out@[a].0 >= out@[b].0,
{
    let mut out: Vec<(u32, u32, u32)> = Vec::new();
    let n = items.len();
    for i in 0..n
        invariant
            n == items@.len(),
            out@.len() == i,
            forall|a: int, b: int| 0 <= a <= b < out@.len() ==> out@[a].0 >= out@[b].0,
    {
        let x = items[i];
        let mut pos: usize = 0;
        while pos < out.len() && out[pos].0 >= x.0
            invariant
                pos <= out@.len(),
                forall|a: int, b: int| 0 <= a <= b < out@.len() ==> out@[a].0 >= out@[b].0,
                forall|a: int| 0 <= a < pos ==> out@[a].0 >= x.0,
            decreases out@.len() - pos,
        {
            pos = pos + 1;
        }
        let ghost prev = out@;
        out.insert(pos, x);
        proof {
            prev.insert_ensures(pos as int, x);
            assert forall|a: int, b: int| 0 <= a <= b < out@.len() implies out@[a].0
                >= out@[b].0 by {
                let s = prev.insert(pos as int, x);
                assert(out@ == s);
                if a < pos {
                    assert(s[a] == prev[a]);
                } else if a > pos {
                    assert(s[a] == prev[a - 1]);
                }
                if b < pos {
                    assert(s[b] == prev[b]);
                } else if b > pos {
                    assert(s[b] == prev[b - 1]);
                }
            }
        }
    }
    out
}

/// The query service: an open index, its reader snapshot, a query parser
/// bound to the searchable fields, and the discovered field scope. All of it
/// is computed once at load time and read-only afterwards.
pub struct IndexService {
    pub index: tantivy::Index,
    pub reader: tantivy::IndexReader,
    pub parser: tantivy::query::QueryParser,
    pub fields: Vec<FieldInfo>,
    pub scope: Vec<u32>,
    pub roles: FieldRoles,
}

impl IndexService {
    /// The scope is exactly the searchable fields of the discovered schema,
    /// it is never empty, and the four record roles are resolved by name.
    pub open spec fn wf(self) -> bool {
        &&& self.scope@ == scope_of(self.fields@)
        &&& self.scope@.len() > 0
        &&& self.roles.title == spec_lookup(self.fields@, "title"@)
        &&& self.roles.description == spec_lookup(self.fields@, "description"@)
        &&& self.roles.link == spec_lookup(self.fields@, "permalink"@)
        &&& self.roles.date == spec_lookup(self.fields@, "datetime"@)
    }

    /// Builds the service around an index that is already open: registers
    /// the analyzer, discovers the searchable field scope, binds the query
    /// parser to it, and acquires a reader snapshot. Fails when the scope is
    /// empty or no reader can be acquired; a service is never handed out
    /// without a usable, non-empty scope.
    pub fn from_index(index: tantivy::Index) -> (r: Result<IndexService, ConfigError>)
        ensures
            match r {
                Ok(s) => s.wf(),
                Err(e) => e == ConfigError::NoSearchableFields || e == ConfigError::InvalidIndex,
            },
    {
        let spec = build_analyzer(40, StemLanguage::English);
        engine::register_analyzer(&index, ANALYZER_NAME, &spec);
        let schema = engine::index_schema(&index);
        let fields = engine::schema_field_infos(&schema);
        let scope = match default_fields(&fields) {
            Ok(scope) => scope,
            Err(e) => return Err(e),
        };
        let roles = roles_from(&fields);
        let parser = engine::new_query_parser(&index, &schema, &scope);
        let reader = match engine::index_reader(&index) {
            Ok(reader) => reader,
            Err(_) => return Err(ConfigError::InvalidIndex),
        };
        Ok(IndexService { index, reader, parser, fields, scope, roles })
    }

    /// Opens the index stored at `path` and builds the service around it.
    /// Fails when the path holds no valid index or the index has no
    /// searchable text field; either is fatal to the caller, which should
    /// refuse to serve.
    pub fn load(path: &str) -> (r: Result<IndexService, ConfigError>)
        ensures
            match r {
                Ok(s) => s.wf(),
                Err(e) => e == ConfigError::NoSearchableFields || e == ConfigError::InvalidIndex,
            },
    {
        match engine::open_index(path) {
            Ok(index) => Self::from_index(index),
            Err(_) => Err(ConfigError::InvalidIndex),
        }
    }

    /// Runs one query: parses `q` against the field scope and collects the
    /// top `limit` hits together with the exact total match count. Exactly
    /// `min(limit, total)` hits come back, in non-increasing score order —
    /// an order this library establishes itself over the score keys, so it
    /// holds whatever the engine emitted. Malformed query text is a
    /// request-level error, never a crash; a retrieval failure inside the
    /// engine is reported separately and is not a malformed query.
    pub fn search(&self, q: String, limit: usize) -> (r: Result<ResultSet, QueryError>)
        requires
            limit >= 1,
        ensures
            match r {
                Ok(rs) => {
                    &&& rs.query@ == q@
                    &&& rs.hits@.len() == vstd::math::min(limit as int, rs.total as int)
                    &&& sorted_by_score(rs.hits@)
                },
                Err(e) => e == QueryError::MalformedQuery || e == QueryError::SearchFailed,
            },
    {
        let searcher = engine::reader_searcher(&self.reader);
        let (found, total) = match engine::run_query(&searcher, &self.parser, q.as_str(), limit) {
            Ok(pair) => pair,
            Err(SearchErr::Parse(_)) => return Err(QueryError::MalformedQuery),
            Err(SearchErr::Search(_)) => return Err(QueryError::SearchFailed),
        };
        let top = sort_by_key(&found);
        let mut hits: Vec<Hit> = Vec::new();
        let n = top.len();
        for i in 0..n
            invariant
                n == top@.len(),
                hits@.len() == i,
                forall|k: int| 0 <= k < i ==> hits@[k].score_key == top@[k].0,
                forall|k: int, l: int| 0 <= k <= l < top@.len() ==> top@[k].0 >= top@[l].0,
        {
            let (score_key, segment, doc_id) = top[i];
            // A document that cannot be read back keeps its place with no
            // stored fields; projection will degrade its record to empty
            // roles rather than fail the query.
            let fields = match engine::fetch_doc(&searcher, segment, doc_id) {
                Some(fields) => fields,
                None => Vec::new(),
            };
            hits.push(Hit { score_key, segment, doc_id, fields });
        }
        Ok(ResultSet { query: q, total, hits })
    }

    /// Projects one hit of this service onto a display-ready record.
    pub fn project_hit(&self, hit: &Hit) -> (page: Page)
        ensures
            page_of(hit.fields@, self.roles, page),
    {
        project(&hit.fields, &self.roles)
    }

    /// Projects every hit of a result in order: one record per hit, each
    /// the projection of the hit in its place, so the score order of the
    /// hits is the order of the records.
    pub fn project_hits(&self, hits: &Vec<Hit>) -> (pages: Vec<Page>)
        ensures
            pages@.len() == hits@.len(),
            forall|k: int| 0 <= k < hits@.len() ==> page_of(
                hits@[k].fields@,
                self.roles,
                #[trigger] pages@[k],
            ),
    {
        let mut pages: Vec<Page> = Vec::new();
        let n = hits.len();
        for i in 0..n
            invariant
                n == hits@.len(),
                pages@.len() == i,
                forall|k: int| 0 <= k < i ==> page_of(
                    hits@[k].fields@,
                    self.roles,
                    #[trigger] pages@[k],
                ),
        {
            pages.push(self.project_hit(&hits[i]));
        }
        pages
    }
}

} // verus!
