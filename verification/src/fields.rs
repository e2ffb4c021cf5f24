use vstd::prelude::*;

use crate::ConfigError;

verus! {

/// What the index schema records of one field: its numeric identifier, its
/// name, whether its values are free text, and whether the field was indexed
/// for full-text search (as opposed to merely stored).
pub struct FieldInfo {
    pub id: u32,
    pub name: String,
    pub is_text: bool,
    pub indexed: bool,
}

/// A field answers unqualified query terms exactly when it holds free text
/// and the index was built to search it.
pub open spec fn searchable(f: FieldInfo) -> bool {
    f.is_text && f.indexed
}

/// The identifiers of the searchable fields, in schema order.
pub open spec fn scope_of(fields: Seq<FieldInfo>) -> Seq<u32>
    decreases fields.len(),
{
    if fields.len() == 0 {
        Seq::empty()
    } else {
        let rest = scope_of(fields.drop_last());
        if searchable(fields.last()) {
            rest.push(fields.last().id)
        } else {
            rest
        }
    }
}

/// The default query scope: every text field whose indexing options are
/// enabled. An index without any such field cannot answer free-text queries,
/// and that is reported at load time rather than as an eternally empty
/// result set.
pub fn default_fields(fields: &Vec<FieldInfo>) -> (r: Result<Vec<u32>, ConfigError>)
    ensures
        match r {
            Ok(scope) => scope@ == scope_of(fields@) && scope@.len() > 0,
            Err(e) => e == ConfigError::NoSearchableFields && scope_of(fields@).len() == 0,
        },
{
    let mut scope: Vec<u32> = Vec::new();
    let n = fields.len();
    for i in 0..n
        invariant
            n == fields@.len(),
            scope@ == scope_of(fields@.take(i as int)),
    {
        proof {
            assert(fields@.take(i + 1).drop_last() =~= fields@.take(i as int));
            assert(fields@.take(i + 1).last() == fields@[i as int]);
        }
        if fields[i].is_text && fields[i].indexed {
            scope.push(fields[i].id);
        }
    }
    proof {
        assert(fields@.take(n as int) =~= fields@);
    }
    if scope.len() == 0 {
        Err(ConfigError::NoSearchableFields)
    } else {
        Ok(scope)
    }
}

/// The query scope holds exactly the identifiers of the searchable fields:
/// nothing else answers unqualified terms, and no searchable field is left
/// out.
pub proof fn lemma_scope_members(fields: Seq<FieldInfo>)
    ensures
        forall|id: u32| #[trigger] scope_of(fields).contains(id) <==> exists|i: int|
            0 <= i < fields.len() && searchable(#[trigger] fields[i]) && fields[i].id == id,
    decreases fields.len(),
{
    if fields.len() > 0 {
        lemma_scope_members(fields.drop_last());
        assert forall|id: u32| #[trigger] scope_of(fields).contains(id) implies exists|i: int|
            0 <= i < fields.len() && searchable(#[trigger] fields[i]) && fields[i].id == id by {
            let rest = scope_of(fields.drop_last());
            if rest.contains(id) {
                let i = choose|i: int|
                    0 <= i < fields.drop_last().len() && searchable(
                        #[trigger] fields.drop_last()[i],
                    ) && fields.drop_last()[i].id == id;
                assert(fields[i] == fields.drop_last()[i]);
            } else {
                assert(searchable(fields.last()) && fields.last().id == id);
                assert(fields[fields.len() - 1] == fields.last());
            }
        }
        assert forall|id: u32|
            exists|i: int|
                0 <= i < fields.len() && searchable(#[trigger] fields[i]) && fields[i].id
                    == id implies #[trigger] scope_of(fields).contains(id) by {
            let i = choose|i: int|
                0 <= i < fields.len() && searchable(#[trigger] fields[i]) && fields[i].id == id;
            if i < fields.len() - 1 {
                assert(fields.drop_last()[i] == fields[i]);
                assert(scope_of(fields.drop_last()).contains(id));
                if searchable(fields.last()) {
                    let s = scope_of(fields.drop_last());
                    let j = choose|j: int| 0 <= j < s.len() && s[j] == id;
                    assert(s.push(fields.last().id)[j] == id);
                    assert(scope_of(fields).contains(id));
                }
            } else {
                assert(fields[i] == fields.last());
                assert(scope_of(fields).last() == id);
            }
        }
    }
}

/// The identifier of the first field bearing the given name, if any.
pub open spec fn spec_lookup(fields: Seq<FieldInfo>, name: Seq<char>) -> Option<u32>
    decreases fields.len(),
{
    if fields.len() == 0 {
        None
    } else if fields.first().name@ == name {
        Some(fields.first().id)
    } else {
        spec_lookup(fields.drop_first(), name)
    }
}

/// Finds the first field bearing the given name.
pub fn lookup_field(fields: &Vec<FieldInfo>, name: &String) -> (r: Option<u32>)
    ensures
        r == spec_lookup(fields@, name@),
{
    let n = fields.len();
    proof {
        assert(fields@.skip(0) =~= fields@);
    }
    for i in 0..n
        invariant
            n == fields@.len(),
            spec_lookup(fields@, name@) == spec_lookup(fields@.skip(i as int), name@),
    {
        proof {
            assert(fields@.skip(i as int).first() == fields@[i as int]);
            assert(fields@.skip(i as int).drop_first() =~= fields@.skip(i + 1));
        }
        if fields[i].name.eq(name) {
            return Some(fields[i].id);
        }
    }
    proof {
        assert(fields@.skip(n as int) =~= Seq::<FieldInfo>::empty());
    }
    None
}

/// The fields that fill the four roles of a projected record, found by name.
/// A role whose field the schema lacks is absent, and projection leaves it
/// empty.
pub struct FieldRoles {
    pub title: Option<u32>,
    pub description: Option<u32>,
    pub link: Option<u32>,
    pub date: Option<u32>,
}

/// Resolves the four record roles against the schema by their fixed names.
pub fn roles_from(fields: &Vec<FieldInfo>) -> (r: FieldRoles)
    ensures
        r.title == spec_lookup(fields@, "title"@),
        r.description == spec_lookup(fields@, "description"@),
        r.link == spec_lookup(fields@, "permalink"@),
        r.date == spec_lookup(fields@, "datetime"@),
{
    FieldRoles {
        title: lookup_field(fields, &String::from_str("title")),
        description: lookup_field(fields, &String::from_str("description")),
        link: lookup_field(fields, &String::from_str("permalink")),
        date: lookup_field(fields, &String::from_str("datetime")),
    }
}

} // verus!
