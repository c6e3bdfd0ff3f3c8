//! The query tree as data: the parts of a `SELECT` statement that decide
//! which tables it reads. Each type has the node of `model` as its view.

use vstd::prelude::*;

use crate::model::{
    JoinClauseModel, QueryCoreModel, QueryBodyModel, SourceModel, QueryModel, TableRef,
};

verus! {

/// A table reference: `name`, or `schema.name`.
///
/// The type keeps each identifier as it is given: nothing is folded, trimmed
/// or unquoted, so quoting characters that come with an identifier stay.
#[derive(Clone, Debug, PartialEq, Eq, Hash)]
pub struct QualifiedName {
    pub schema: Option<String>,
    pub name: String,
}

/// A source in a `FROM` or `JOIN` position.
#[derive(Debug, PartialEq, Eq)]
pub enum Source {
    /// A plain table.
    Table(QualifiedName),
    /// A call of a table-valued function.
    TableCall(QualifiedName),
    /// A parenthesized subquery used as a source.
    Subquery(Query),
    /// A parenthesized group of joined sources.
    Group(JoinClause),
}

/// A `FROM` clause: a primary source and the sources joined to it.
#[derive(Debug, PartialEq, Eq)]
pub struct JoinClause {
    pub select: Option<Box<Source>>,
    pub joins: Option<Vec<Source>>,
}

/// One query core: a `SELECT` with an optional `FROM` clause, or a `VALUES`
/// list, which reads no table.
#[derive(Debug, PartialEq, Eq)]
pub enum QueryCore {
    Rows { from: Option<JoinClause> },
    Values,
}

/// A query core followed by the cores that compound operators link to it.
#[derive(Debug, PartialEq, Eq)]
pub struct QueryBody {
    pub select: QueryCore,
    pub compounds: Option<Vec<QueryCore>>,
}

/// A `SELECT` statement.
#[derive(Debug, PartialEq, Eq)]
pub struct Query {
    pub body: QueryBody,
}

impl View for QualifiedName {
    type V = TableRef;

    open spec fn view(&self) -> TableRef {
        TableRef {
            schema: match self.schema {
                Some(s) => Some(s@),
                None => None,
            },
            name: self.name@,
        }
    }
}

impl QualifiedName {
    /// Whether two references name the same table: the same identifier under
    /// the same schema, or both without one. Nothing is ignored.
    pub fn same_table(&self, other: &QualifiedName) -> (same: bool)
        ensures
            same == (self@ == other@),
    {
        let same_schema = match (&self.schema, &other.schema) {
            (Some(a), Some(b)) => *a == *b,
            (None, None) => true,
            _ => false,
        };
        same_schema && self.name == other.name
    }

    /// A copy that names the same table.
    pub fn duplicate(&self) -> (copy: QualifiedName)
        ensures
            copy == *self,
    {
        let schema = match &self.schema {
            Some(s) => Some(s.clone()),
            None => None,
        };
        QualifiedName { schema, name: self.name.clone() }
    }
}

/// The mathematical values of a list of references, item by item.
pub open spec fn reference_views(names: Seq<QualifiedName>) -> Seq<TableRef> {
    names.map_values(|q: QualifiedName| q@)
}

/// The view of a source.
pub open spec fn source_view(table: Source) -> SourceModel
    decreases table,
{
    match table {
        Source::Table(q) => SourceModel::Table(q@),
        Source::TableCall(q) => SourceModel::TableCall(q@),
        Source::Subquery(s) => SourceModel::Subquery(query_view(s)),
        Source::Group(f) => SourceModel::Group(join_clause_view(f)),
    }
}

/// The views of a list of sources, item by item.
pub open spec fn source_views(tables: Seq<Source>) -> Seq<SourceModel>
    decreases tables,
{
    if tables.len() == 0 {
        Seq::empty()
    } else {
        source_views(tables.drop_last()).push(source_view(tables.last()))
    }
}

/// The view of a `FROM` clause.
pub open spec fn join_clause_view(from: JoinClause) -> JoinClauseModel
    decreases from,
{
    JoinClauseModel {
        select: match from.select {
            Some(t) => Some(Box::new(source_view(*t))),
            None => None,
        },
        joins: match from.joins {
            Some(js) => Some(source_views(js@)),
            None => None,
        },
    }
}

/// The view of a query core.
pub open spec fn query_core_view(core: QueryCore) -> QueryCoreModel
    decreases core,
{
    match core {
        QueryCore::Rows { from: Some(f) } => QueryCoreModel::Rows {
            from: Some(join_clause_view(f)),
        },
        QueryCore::Rows { from: None } => QueryCoreModel::Rows { from: None },
        QueryCore::Values => QueryCoreModel::Values,
    }
}

/// The views of a list of query cores, item by item.
pub open spec fn query_core_views(cores: Seq<QueryCore>) -> Seq<QueryCoreModel>
    decreases cores,
{
    if cores.len() == 0 {
        Seq::empty()
    } else {
        query_core_views(cores.drop_last()).push(query_core_view(cores.last()))
    }
}

/// The view of a query body.
pub open spec fn query_body_view(body: QueryBody) -> QueryBodyModel
    decreases body,
{
    QueryBodyModel {
        select: query_core_view(body.select),
        compounds: match body.compounds {
            Some(cs) => Some(query_core_views(cs@)),
            None => None,
        },
    }
}

/// The view of a statement.
pub open spec fn query_view(select: Query) -> QueryModel
    decreases select,
{
    QueryModel { body: query_body_view(select.body) }
}

impl View for Source {
    type V = SourceModel;

    open spec fn view(&self) -> SourceModel {
        source_view(*self)
    }
}

impl View for JoinClause {
    type V = JoinClauseModel;

    open spec fn view(&self) -> JoinClauseModel {
        join_clause_view(*self)
    }
}

impl View for QueryCore {
    type V = QueryCoreModel;

    open spec fn view(&self) -> QueryCoreModel {
        query_core_view(*self)
    }
}

impl View for QueryBody {
    type V = QueryBodyModel;

    open spec fn view(&self) -> QueryBodyModel {
        query_body_view(*self)
    }
}

impl View for Query {
    type V = QueryModel;

    open spec fn view(&self) -> QueryModel {
        query_view(*self)
    }
}

/// The views of a list of sources have its length and hold, at each place,
/// the view of the source at that place.
pub proof fn lemma_source_views(tables: Seq<Source>)
    ensures
        source_views(tables).len() == tables.len(),
        forall|i: int|
            0 <= i < tables.len() ==> #[trigger] source_views(tables)[i] == tables[i]@,
    decreases tables.len(),
{
    if tables.len() > 0 {
        lemma_source_views(tables.drop_last());
    }
}

/// The views of a list of query cores have its length and hold, at each
/// place, the view of the core at that place.
pub proof fn lemma_query_core_views(cores: Seq<QueryCore>)
    ensures
        query_core_views(cores).len() == cores.len(),
        forall|i: int| 0 <= i < cores.len() ==> #[trigger] query_core_views(cores)[i] == cores[i]@,
    decreases cores.len(),
{
    if cores.len() > 0 {
        lemma_query_core_views(cores.drop_last());
    }
}

} // verus!
