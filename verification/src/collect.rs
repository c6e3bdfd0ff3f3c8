//! Collecting the tables of a query: the walk over the tree, and the
//! sequence without repetition that it builds.

use vstd::prelude::*;

use crate::ast::{
    lemma_query_core_views, lemma_source_views, query_core_views, reference_views,
    source_views, JoinClause, QueryCore, QualifiedName, Query, QueryBody, Source,
};
use crate::model::{core_references, source_references, QueryCoreModel, SourceModel, TableRef};

verus! {

/// `seen` with `item` appended, unless `seen` already holds it.
pub open spec fn with_item<A>(seen: Seq<A>, item: A) -> Seq<A> {
    if seen.contains(item) {
        seen
    } else {
        seen.push(item)
    }
}

/// `seen` extended by the items of `items`, taken in order, each appended
/// unless it is already there.
pub open spec fn merged<A>(seen: Seq<A>, items: Seq<A>) -> Seq<A>
    decreases items.len(),
{
    if items.len() == 0 {
        seen
    } else {
        with_item(merged(seen, items.drop_last()), items.last())
    }
}

/// The items of `items` in the order of their first occurrence, each once.
pub open spec fn distinct<A>(items: Seq<A>) -> Seq<A> {
    merged(Seq::empty(), items)
}

/// Merging a single item appends it unless it is already there.
pub proof fn lemma_merged_one<A>(seen: Seq<A>, item: A)
    ensures
        merged(seen, seq![item]) == with_item(seen, item),
{
    let one = seq![item];
    assert(one.drop_last() =~= Seq::<A>::empty());
    assert(merged(seen, one.drop_last()) == seen);
}

/// Merging a concatenation is merging its parts one after the other.
pub proof fn lemma_merged_concat<A>(seen: Seq<A>, first: Seq<A>, second: Seq<A>)
    ensures
        merged(seen, first + second) == merged(merged(seen, first), second),
    decreases second.len(),
{
    if second.len() == 0 {
        assert(first + second =~= first);
    } else {
        lemma_merged_concat(seen, first, second.drop_last());
        assert((first + second).drop_last() =~= first + second.drop_last());
        assert((first + second).last() == second.last());
    }
}

/// An item is in a merged sequence exactly when it was there before or is
/// among the merged items: merging omits nothing and invents nothing.
pub proof fn lemma_merged_contains<A>(seen: Seq<A>, items: Seq<A>, item: A)
    ensures
        merged(seen, items).contains(item) <==> seen.contains(item) || items.contains(item),
    decreases items.len(),
{
    if items.len() > 0 {
        let front = items.drop_last();
        let before = merged(seen, front);
        lemma_merged_contains(seen, front, item);
        if items.contains(item) {
            let i = choose|i: int| 0 <= i < items.len() && items[i] == item;
            if i < items.len() - 1 {
                assert(front[i] == item);
            }
        }
        if front.contains(item) {
            let i = choose|i: int| 0 <= i < front.len() && front[i] == item;
            assert(items[i] == item);
        }
        assert(items[items.len() - 1] == items.last());
        if !before.contains(items.last()) {
            let after = before.push(items.last());
            assert(after[before.len() as int] == items.last());
            if before.contains(item) {
                let i = choose|i: int| 0 <= i < before.len() && before[i] == item;
                assert(after[i] == item);
            }
        }
    }
}

/// Merging into a sequence without repetition gives one without repetition.
pub proof fn lemma_merged_no_duplicates<A>(seen: Seq<A>, items: Seq<A>)
    requires
        seen.no_duplicates(),
    ensures
        merged(seen, items).no_duplicates(),
    decreases items.len(),
{
    if items.len() > 0 {
        lemma_merged_no_duplicates(seen, items.drop_last());
    }
}

/// The distinct items of a sequence are its items, each exactly once.
pub proof fn lemma_distinct_is_a_set<A>(items: Seq<A>)
    ensures
        distinct(items).no_duplicates(),
        distinct(items).to_set() == items.to_set(),
        forall|item: A| distinct(items).contains(item) <==> items.contains(item),
{
    lemma_merged_no_duplicates(Seq::<A>::empty(), items);
    assert forall|item: A| distinct(items).contains(item) <==> items.contains(item) by {
        lemma_merged_contains(Seq::<A>::empty(), items, item);
    }
    assert(distinct(items).to_set() =~= items.to_set());
}

/// A sequence without repetition is its own sequence of distinct items.
pub proof fn lemma_distinct_of_duplicate_free<A>(items: Seq<A>)
    requires
        items.no_duplicates(),
    ensures
        distinct(items) == items,
    decreases items.len(),
{
    if items.len() > 0 {
        let front = items.drop_last();
        lemma_distinct_of_duplicate_free(front);
        if front.contains(items.last()) {
            let i = choose|i: int| 0 <= i < front.len() && front[i] == items.last();
            assert(items[i] == items[items.len() - 1]);
        }
        assert(front.push(items.last()) =~= items);
    } else {
        assert(items =~= Seq::<A>::empty());
    }
}

/// An item is in a concatenation exactly when it is in one of the parts.
pub proof fn lemma_concat_contains<A>(first: Seq<A>, second: Seq<A>, item: A)
    ensures
        (first + second).contains(item) <==> first.contains(item) || second.contains(item),
{
    let whole = first + second;
    if first.contains(item) {
        let i = choose|i: int| 0 <= i < first.len() && first[i] == item;
        assert(whole[i] == item);
    }
    if second.contains(item) {
        let i = choose|i: int| 0 <= i < second.len() && second[i] == item;
        assert(whole[first.len() + i] == item);
    }
    if whole.contains(item) {
        let i = choose|i: int| 0 <= i < whole.len() && whole[i] == item;
        if i < first.len() {
            assert(first[i] == item);
        } else {
            assert(second[i - first.len()] == item);
        }
    }
}

/// The distinct items of a concatenation are, as a set, those of its parts
/// taken together.
pub proof fn lemma_distinct_concat<A>(first: Seq<A>, second: Seq<A>)
    ensures
        distinct(first + second).to_set() == distinct(first).to_set().union(
            distinct(second).to_set(),
        ),
{
    let whole = first + second;
    lemma_distinct_is_a_set(first);
    lemma_distinct_is_a_set(second);
    lemma_distinct_is_a_set(whole);
    assert forall|item: A| whole.contains(item) <==> first.contains(item) || second.contains(
        item,
    ) by {
        lemma_concat_contains(first, second, item);
    }
    assert(whole.to_set() =~= first.to_set().union(second.to_set()));
}

/// Appends `new_name` to `table_names` unless an equal reference is already
/// there.
pub fn add_unique_qualified_name(table_names: &mut Vec<QualifiedName>, new_name: &QualifiedName)
    ensures
        reference_views(final(table_names)@) == with_item(
            reference_views(old(table_names)@),
            new_name@,
        ),
{
    let ghost seen = reference_views(table_names@);
    let mut found = false;
    let mut i: usize = 0;
    while i < table_names.len() && !found
        invariant
            i <= table_names.len(),
            seen == reference_views(table_names@),
            found ==> seen.contains(new_name@),
            !found ==> forall|j: int| 0 <= j < i ==> seen[j] != new_name@,
        decreases table_names.len() - i + if found { 0int } else { 1int },
    {
        if table_names[i].same_table(new_name) {
            assert(seen[i as int] == new_name@);
            found = true;
        } else {
            i += 1;
        }
    }
    if !found {
        table_names.push(new_name.duplicate());
        assert(reference_views(table_names@) =~= seen.push(new_name@));
    }
}

/// Collects the tables under one source: a table or a table-valued function
/// gives its name; a subquery and a group of joins are walked in turn.
pub fn extract_table_names_from_select_table(
    select_table: &Source,
    table_names: &mut Vec<QualifiedName>,
)
    ensures
        reference_views(final(table_names)@) == merged(
            reference_views(old(table_names)@),
            select_table@.references(),
        ),
    decreases *select_table,
{
    match select_table {
        Source::Table(qualified_name) => {
            proof {
                lemma_merged_one(reference_views(table_names@), qualified_name@);
            }
            add_unique_qualified_name(table_names, qualified_name);
        },
        Source::TableCall(qualified_name) => {
            proof {
                lemma_merged_one(reference_views(table_names@), qualified_name@);
            }
            add_unique_qualified_name(table_names, qualified_name);
        },
        Source::Subquery(select) => {
            extract_table_names_from_select(select, table_names);
        },
        Source::Group(from_clause) => {
            extract_table_names_from_from_clause(from_clause, table_names);
        },
    }
}

/// Collects the tables of a `FROM` clause: those of the primary source, then
/// those of each joined source in the order of the clause.
pub fn extract_table_names_from_from_clause(
    from_clause: &JoinClause,
    table_names: &mut Vec<QualifiedName>,
)
    ensures
        reference_views(final(table_names)@) == merged(
            reference_views(old(table_names)@),
            from_clause@.references(),
        ),
    decreases *from_clause,
{
    let ghost before = reference_views(table_names@);
    if let Some(select_table) = &from_clause.select {
        extract_table_names_from_select_table(select_table, table_names);
    }
    let ghost primary = from_clause@.primary_references();
    if let Some(joins) = &from_clause.joins {
        let ghost sources = source_views(joins@);
        proof {
            lemma_source_views(joins@);
            assert(sources.take(0) =~= Seq::<SourceModel>::empty());
        }
        let mut i: usize = 0;
        while i < joins.len()
            invariant
                i <= joins.len(),
                from_clause.joins == Some(*joins),
                sources.len() == joins.len(),
                forall|j: int| 0 <= j < joins.len() ==> #[trigger] sources[j] == joins[j]@,
                reference_views(table_names@) == merged(
                    merged(before, primary),
                    source_references(sources.take(i as int)),
                ),
            decreases joins.len() - i,
        {
            proof {
                let next = sources.take(i + 1);
                assert(next.drop_last() =~= sources.take(i as int));
                assert(next.last() == sources[i as int]);
                lemma_merged_concat(
                    merged(before, primary),
                    source_references(sources.take(i as int)),
                    sources[i as int].references(),
                );
                assert(decreases_to!(*joins => joins[i as int]));
                assert(decreases_to!(from_clause.joins => from_clause.joins->0));
            }
            extract_table_names_from_select_table(&joins[i], table_names);
            i += 1;
        }
        assert(sources.take(i as int) =~= sources);
    }
    proof {
        lemma_merged_concat(before, primary, from_clause@.join_references());
    }
}

/// Collects the tables of one query core: those of its `FROM` clause. A
/// `VALUES` list, and a `SELECT` without `FROM`, give none.
pub fn extract_table_names_from_one_select(
    one_select: &QueryCore,
    table_names: &mut Vec<QualifiedName>,
)
    ensures
        reference_views(final(table_names)@) == merged(
            reference_views(old(table_names)@),
            one_select@.references(),
        ),
    decreases *one_select,
{
    match one_select {
        QueryCore::Rows { from } => {
            if let Some(from_clause) = from {
                extract_table_names_from_from_clause(from_clause, table_names);
            }
        },
        QueryCore::Values => {},
    }
}

/// Collects the tables of a query body: those of the first core, then those
/// of every compound branch, into the same list.
pub fn extract_table_names_from_select_body(body: &QueryBody, table_names: &mut Vec<QualifiedName>)
    ensures
        reference_views(final(table_names)@) == merged(
            reference_views(old(table_names)@),
            body@.references(),
        ),
    decreases *body,
{
    let ghost before = reference_views(table_names@);
    let ghost first = body.select@.references();
    extract_table_names_from_one_select(&body.select, table_names);
    if let Some(compounds) = &body.compounds {
        let ghost cores = query_core_views(compounds@);
        proof {
            lemma_query_core_views(compounds@);
            assert(cores.take(0) =~= Seq::<QueryCoreModel>::empty());
        }
        let mut i: usize = 0;
        while i < compounds.len()
            invariant
                i <= compounds.len(),
                body.compounds == Some(*compounds),
                cores.len() == compounds.len(),
                forall|j: int| 0 <= j < compounds.len() ==> #[trigger] cores[j] == compounds[j]@,
                reference_views(table_names@) == merged(
                    merged(before, first),
                    core_references(cores.take(i as int)),
                ),
            decreases compounds.len() - i,
        {
            proof {
                let next = cores.take(i + 1);
                assert(next.drop_last() =~= cores.take(i as int));
                assert(next.last() == cores[i as int]);
                lemma_merged_concat(
                    merged(before, first),
                    core_references(cores.take(i as int)),
                    cores[i as int].references(),
                );
                assert(decreases_to!(*compounds => compounds[i as int]));
                assert(decreases_to!(body.compounds => body.compounds->0));
            }
            extract_table_names_from_one_select(&compounds[i], table_names);
            i += 1;
        }
        assert(cores.take(i as int) =~= cores);
    }
    proof {
        lemma_merged_concat(before, first, body@.compound_references());
    }
}

/// Collects the tables of a statement, which are those of its body.
pub fn extract_table_names_from_select(select: &Query, table_names: &mut Vec<QualifiedName>)
    ensures
        reference_views(final(table_names)@) == merged(
            reference_views(old(table_names)@),
            select@.references(),
        ),
    decreases *select,
{
    extract_table_names_from_select_body(&select.body, table_names);
}

/// The distinct tables that a `SELECT` statement reads from, at any depth of
/// joins, subqueries and compound branches, in the order of first occurrence.
/// Every table that the statement refers to is in the list, no table is in
/// it twice, and nothing else is in it.
pub fn extract_table_names(select: &Query) -> (table_names: Vec<QualifiedName>)
    ensures
        reference_views(table_names@) == distinct(select@.references()),
        reference_views(table_names@).no_duplicates(),
        forall|table: TableRef|
            reference_views(table_names@).contains(table) <==> select@.references().contains(
                table,
            ),
{
    let mut table_names = Vec::new();
    assert(reference_views(table_names@) =~= Seq::<TableRef>::empty());
    extract_table_names_from_select(select, &mut table_names);
    proof {
        lemma_distinct_is_a_set(select@.references());
    }
    table_names
}

} // verus!
