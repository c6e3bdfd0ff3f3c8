//! What holds of table extraction for every query: each law is stated over
//! the meaning of the tree and proved from it.

use vstd::prelude::*;

use crate::ast::{reference_views, QualifiedName, Query};
use crate::collect::{
    distinct, extract_table_names, lemma_concat_contains, lemma_distinct_concat, lemma_distinct_is_a_set,
    lemma_distinct_of_duplicate_free, lemma_merged_one, merged, with_item,
};
use crate::model::{
    core_references, source_references, JoinClauseModel, QueryBodyModel, QueryCoreModel, QueryModel,
    SourceModel, TableRef,
};
use crate::names::{table_string, table_strings, SEPARATOR};
use crate::query_table_strings;

verus! {

/// Whether `source` stands in the clause `from`: as its primary source or as
/// one of the joined sources.
pub open spec fn has_source(from: JoinClauseModel, source: SourceModel) -> bool {
    ||| from.select == Some(Box::new(source))
    ||| from.joins is Some && from.joins->0.contains(source)
}

/// Whether `core` is a branch of `body`: its first core or one of the
/// compound branches.
pub open spec fn has_core(body: QueryBodyModel, core: QueryCoreModel) -> bool {
    ||| body.select == core
    ||| body.compounds is Some && body.compounds->0.contains(core)
}

/// A list of sources refers to a table exactly when one of the sources does.
pub proof fn lemma_source_references_contains(sources: Seq<SourceModel>, table: TableRef)
    ensures
        source_references(sources).contains(table) <==> exists|i: int|
            0 <= i < sources.len() && (#[trigger] sources[i]).references().contains(table),
    decreases sources.len(),
{
    if sources.len() > 0 {
        let front = sources.drop_last();
        let last = sources.last();
        lemma_source_references_contains(front, table);
        lemma_concat_contains(source_references(front), last.references(), table);
        if exists|i: int| 0 <= i < front.len() && (#[trigger] front[i]).references().contains(table) {
            let i = choose|i: int|
                0 <= i < front.len() && (#[trigger] front[i]).references().contains(table);
            assert(sources[i].references().contains(table));
        }
        if exists|i: int|
            0 <= i < sources.len() && (#[trigger] sources[i]).references().contains(table) {
            let i = choose|i: int|
                0 <= i < sources.len() && (#[trigger] sources[i]).references().contains(table);
            if i < front.len() {
                assert(front[i].references().contains(table));
            }
        }
        assert(sources[sources.len() - 1] == last);
    }
}

/// A list of query cores refers to a table exactly when one of the cores
/// does.
pub proof fn lemma_core_references_contains(cores: Seq<QueryCoreModel>, table: TableRef)
    ensures
        core_references(cores).contains(table) <==> exists|i: int|
            0 <= i < cores.len() && (#[trigger] cores[i]).references().contains(table),
    decreases cores.len(),
{
    if cores.len() > 0 {
        let front = cores.drop_last();
        let last = cores.last();
        lemma_core_references_contains(front, table);
        lemma_concat_contains(core_references(front), last.references(), table);
        if exists|i: int| 0 <= i < front.len() && (#[trigger] front[i]).references().contains(table) {
            let i = choose|i: int|
                0 <= i < front.len() && (#[trigger] front[i]).references().contains(table);
            assert(cores[i].references().contains(table));
        }
        if exists|i: int| 0 <= i < cores.len() && (#[trigger] cores[i]).references().contains(table) {
            let i = choose|i: int|
                0 <= i < cores.len() && (#[trigger] cores[i]).references().contains(table);
            if i < front.len() {
                assert(front[i].references().contains(table));
            }
        }
        assert(cores[cores.len() - 1] == last);
    }
}

/// Extraction reports the tables that the query refers to, each exactly once
/// and nothing else. Where the query names no table twice, the report is the
/// list of its references as it stands, however long; a query made of a
/// single `VALUES` list reports nothing.
pub proof fn law_reports_exactly_the_tables(query: QueryModel)
    ensures
        distinct(query.references()).no_duplicates(),
        distinct(query.references()).to_set() == query.references().to_set(),
        query.references().no_duplicates() ==> distinct(query.references()) == query.references(),
        query.body.select is Values && query.body.compounds is None ==> distinct(
            query.references(),
        ) == Seq::<TableRef>::empty(),
{
    lemma_distinct_is_a_set(query.references());
    if query.references().no_duplicates() {
        lemma_distinct_of_duplicate_free(query.references());
    }
    if query.body.select is Values && query.body.compounds is None {
        assert(query.references() =~= Seq::<TableRef>::empty());
    }
}

/// Two calls of `extract_table_names` on the same query report the same
/// tables in the same order: whatever the function may return on a query by
/// its contract, it may return nothing else on it.
pub proof fn law_extraction_repeats(
    query: Query,
    first: Vec<QualifiedName>,
    second: Vec<QualifiedName>,
)
    requires
        call_ensures(extract_table_names, (&query,), first),
        call_ensures(extract_table_names, (&query,), second),
    ensures
        reference_views(first@) == reference_views(second@),
        reference_views(first@).to_set() == reference_views(second@).to_set(),
{
}

/// A table that the references name, however often, is reported at exactly
/// one place.
pub proof fn law_repeated_table_is_reported_once(references: Seq<TableRef>, table: TableRef)
    requires
        references.contains(table),
    ensures
        distinct(references).contains(table),
        forall|i: int, j: int|
            0 <= i < distinct(references).len() && 0 <= j < distinct(references).len()
                && distinct(references)[i] == table && distinct(references)[j] == table ==> i
                == j,
{
    lemma_distinct_is_a_set(references);
}

/// A table joined to itself is reported once.
pub proof fn law_self_join_is_one_table(table: TableRef)
    ensures
        distinct(
            (JoinClauseModel {
                select: Some(Box::new(SourceModel::Table(table))),
                joins: Some(seq![SourceModel::Table(table)]),
            }).references(),
        ) == seq![table],
{
    let from = JoinClauseModel {
        select: Some(Box::new(SourceModel::Table(table))),
        joins: Some(seq![SourceModel::Table(table)]),
    };
    let joined = seq![SourceModel::Table(table)];
    assert(source_references(joined) =~= seq![table]) by {
        reveal_with_fuel(source_references, 2);
        assert(joined.drop_last() =~= Seq::<SourceModel>::empty());
    }
    assert(from.references() =~= seq![table, table]);
    let twice = seq![table, table];
    assert(twice.drop_last() =~= seq![table]);
    lemma_merged_one(Seq::<TableRef>::empty(), table);
    assert(seq![table].contains(table)) by {
        assert(seq![table][0] == table);
    }
    assert(Seq::<TableRef>::empty().push(table) =~= seq![table]);
}

/// The tables of a compound select of two branches are those of the one
/// branch together with those of the other.
pub proof fn law_compound_select_is_a_union(first: QueryCoreModel, second: QueryCoreModel)
    ensures
        distinct(
            (QueryBodyModel { select: first, compounds: Some(seq![second]) }).references(),
        ).to_set() == distinct(first.references()).to_set().union(
            distinct(second.references()).to_set(),
        ),
{
    let branches = seq![second];
    assert(core_references(branches) =~= second.references()) by {
        reveal_with_fuel(core_references, 2);
        assert(branches.drop_last() =~= Seq::<QueryCoreModel>::empty());
    }
    lemma_distinct_concat(first.references(), second.references());
}

/// A table of any branch of a compound select is reported, and every table
/// reported is one of some branch.
pub proof fn law_every_branch_is_reported(body: QueryBodyModel, table: TableRef)
    ensures
        distinct(body.references()).contains(table) <==> exists|core: QueryCoreModel|
            has_core(body, core) && core.references().contains(table),
{
    lemma_distinct_is_a_set(body.references());
    lemma_concat_contains(body.select.references(), body.compound_references(), table);
    if body.compounds is Some {
        let cores = body.compounds->0;
        lemma_core_references_contains(cores, table);
        if core_references(cores).contains(table) {
            let i = choose|i: int|
                0 <= i < cores.len() && (#[trigger] cores[i]).references().contains(table);
            assert(has_core(body, cores[i]));
        }
    }
    if body.select.references().contains(table) {
        assert(has_core(body, body.select));
    }
    if exists|core: QueryCoreModel| has_core(body, core) && core.references().contains(table) {
        let core = choose|core: QueryCoreModel|
            has_core(body, core) && core.references().contains(table);
        if body.select != core {
            let cores = body.compounds->0;
            let i = choose|i: int| 0 <= i < cores.len() && cores[i] == core;
            assert(cores[i].references().contains(table));
        }
    }
}

/// A table of a source is a table of the clause that the source stands in.
pub proof fn law_every_source_is_reported(
    from: JoinClauseModel,
    source: SourceModel,
    table: TableRef,
)
    requires
        has_source(from, source),
        source.references().contains(table),
    ensures
        from.references().contains(table),
{
    lemma_concat_contains(from.primary_references(), from.join_references(), table);
    if from.select != Some(Box::new(source)) {
        let joined = from.joins->0;
        let i = choose|i: int| 0 <= i < joined.len() && joined[i] == source;
        lemma_source_references_contains(joined, table);
        assert(joined[i].references().contains(table));
    }
}

/// A table that is named only inside a subquery used as a source is
/// reported for the query around it. The subquery may stand in any `FROM`
/// position of any branch; as its own tables may come from a subquery in
/// turn, this holds at every depth.
pub proof fn law_subquery_tables_are_reported(
    outer: QueryModel,
    from: JoinClauseModel,
    inner: QueryModel,
    table: TableRef,
)
    requires
        has_core(outer.body, QueryCoreModel::Rows { from: Some(from) }),
        has_source(from, SourceModel::Subquery(inner)),
        inner.references().contains(table),
    ensures
        distinct(outer.references()).contains(table),
{
    let core = QueryCoreModel::Rows { from: Some(from) };
    law_every_source_is_reported(from, SourceModel::Subquery(inner), table);
    assert(core.references().contains(table));
    law_every_branch_is_reported(outer.body, table);
}

/// A table under a schema and the table of the same identifier without one
/// are two tables: both are reported, and under different strings.
pub proof fn law_schema_makes_another_table(schema: Seq<char>, name: Seq<char>)
    ensures
        TableRef::qualified(schema, name) != TableRef::bare(name),
        distinct(seq![TableRef::qualified(schema, name), TableRef::bare(name)]) == seq![
            TableRef::qualified(schema, name),
            TableRef::bare(name),
        ],
        table_string(TableRef::qualified(schema, name)) != table_string(TableRef::bare(name)),
{
    let qualified = TableRef::qualified(schema, name);
    let bare = TableRef::bare(name);
    let both = seq![qualified, bare];
    assert(both.no_duplicates());
    lemma_distinct_of_duplicate_free(both);
    assert(table_string(qualified).len() == schema.len() + 1 + name.len());
}

/// Whether a reference keeps the separator out of its schema and its
/// identifier.
pub open spec fn is_plain(reference: TableRef) -> bool {
    &&& !reference.name.contains(SEPARATOR)
    &&& reference.schema matches Some(schema) ==> !schema.contains(SEPARATOR)
}

/// Where no identifier holds the separator, the string tells the reference:
/// two references with the same string are the same reference.
pub proof fn law_strings_tell_tables_apart(first: TableRef, second: TableRef)
    requires
        is_plain(first),
        is_plain(second),
        table_string(first) == table_string(second),
    ensures
        first == second,
{
    let text = table_string(first);
    match (first.schema, second.schema) {
        (None, None) => {},
        (Some(a), None) => {
            assert(text[a.len() as int] == SEPARATOR);
            assert(second.name.contains(SEPARATOR));
        },
        (None, Some(b)) => {
            assert(text[b.len() as int] == SEPARATOR);
            assert(first.name.contains(SEPARATOR));
        },
        (Some(a), Some(b)) => {
            assert(text[a.len() as int] == SEPARATOR);
            assert(text[b.len() as int] == SEPARATOR);
            if a.len() < b.len() {
                assert(b[a.len() as int] == text[a.len() as int]);
                assert(b.contains(SEPARATOR));
            }
            if b.len() < a.len() {
                assert(a[b.len() as int] == text[b.len() as int]);
                assert(a.contains(SEPARATOR));
            }
            assert(a =~= b) by {
                assert forall|i: int| 0 <= i < a.len() implies a[i] == b[i] by {
                    assert(a[i] == text[i]);
                    assert(b[i] == text[i]);
                }
            }
            assert(first.name =~= second.name) by {
                assert(text.len() == a.len() + 1 + first.name.len());
                assert(table_string(second).len() == b.len() + 1 + second.name.len());
                assert forall|i: int| 0 <= i < first.name.len() implies first.name[i]
                    == second.name[i] by {
                    assert(first.name[i] == text[a.len() + 1 + i]);
                    assert(second.name[i] == text[b.len() + 1 + i]);
                }
            }
        },
    }
}

/// Where no identifier of a query holds the separator, the query has one
/// string for each of its tables: no two tables share a string.
pub proof fn law_one_string_for_each_table(query: QueryModel)
    requires
        forall|i: int|
            0 <= i < query.references().len() ==> is_plain(#[trigger] query.references()[i]),
    ensures
        query_table_strings(query) == table_strings(distinct(query.references())),
        query_table_strings(query).len() == distinct(query.references()).len(),
{
    let tables = distinct(query.references());
    let strings = table_strings(tables);
    lemma_distinct_is_a_set(query.references());
    assert forall|i: int, j: int|
        0 <= i < strings.len() && 0 <= j < strings.len() && i != j implies strings[i]
        != strings[j] by {
        assert(query.references().contains(tables[i]));
        assert(query.references().contains(tables[j]));
        if strings[i] == strings[j] {
            law_strings_tell_tables_apart(tables[i], tables[j]);
        }
    }
    lemma_distinct_of_duplicate_free(strings);
}

/// What was collected before a walk stays where it was: a walk only appends.
pub proof fn law_merging_keeps_what_was_seen<A>(seen: Seq<A>, items: Seq<A>)
    ensures
        seen.len() <= merged(seen, items).len(),
        merged(seen, items).take(seen.len() as int) == seen,
    decreases items.len(),
{
    if items.len() > 0 {
        law_merging_keeps_what_was_seen(seen, items.drop_last());
        let before = merged(seen, items.drop_last());
        assert(before.push(items.last()).take(seen.len() as int) =~= before.take(
            seen.len() as int,
        ));
    } else {
        assert(seen.take(seen.len() as int) =~= seen);
    }
}

/// Taking the distinct items of a list that is already distinct changes
/// nothing.
pub proof fn law_distinct_is_idempotent<A>(items: Seq<A>)
    ensures
        distinct(distinct(items)) == distinct(items),
{
    lemma_distinct_is_a_set(items);
    lemma_distinct_of_duplicate_free(distinct(items));
}

/// The distinct items stand in the order of their first occurrence: of two
/// of them, the one that stands first occurs in `items` before the other
/// occurs at all. The places handed back are such occurrences.
pub proof fn law_distinct_keeps_the_order_of_first_occurrence<A>(
    items: Seq<A>,
    i: int,
    j: int,
) -> (places: (int, int))
    requires
        0 <= i < j < distinct(items).len(),
    ensures
        0 <= places.0 < places.1 < items.len(),
        items[places.0] == distinct(items)[i],
        items[places.1] == distinct(items)[j],
        !items.take(places.1).contains(distinct(items)[j]),
    decreases items.len(),
{
    if items.len() == 0 {
        (0, 0)
    } else {
        let front = items.drop_last();
        let last = items.last();
        let found = distinct(front);
        lemma_distinct_is_a_set(front);
        assert(distinct(items) == with_item(found, last));
        if j < found.len() {
            let (p, q) = law_distinct_keeps_the_order_of_first_occurrence(front, i, j);
            assert(items.take(q) =~= front.take(q));
            (p, q)
        } else {
            let q = items.len() - 1;
            assert(found.contains(found[i]));
            assert(front.contains(found[i]));
            let p = choose|p: int| 0 <= p < front.len() && front[p] == found[i];
            assert(items.take(q) =~= front);
            (p, q)
        }
    }
}

} // verus!
