//! The query tree as mathematics: what each node of a `SELECT` statement is,
//! and which tables it refers to.

use vstd::prelude::*;

verus! {

/// A table reference: the optional schema qualifier and the table
/// identifier, each as the sequence of its characters. Two references are
/// equal when both parts are; a missing schema differs from every schema,
/// the empty one included.
pub struct TableRef {
    pub schema: Option<Seq<char>>,
    pub name: Seq<char>,
}

impl TableRef {
    /// The reference `name`, without a schema.
    pub open spec fn bare(name: Seq<char>) -> TableRef {
        TableRef { schema: None, name }
    }

    /// The reference `schema.name`.
    pub open spec fn qualified(schema: Seq<char>, name: Seq<char>) -> TableRef {
        TableRef { schema: Some(schema), name }
    }
}

/// A source in a `FROM` or `JOIN` position.
pub enum SourceModel {
    Table(TableRef),
    TableCall(TableRef),
    Subquery(QueryModel),
    Group(JoinClauseModel),
}

/// A `FROM` clause: the primary source and the joined sources.
pub struct JoinClauseModel {
    pub select: Option<Box<SourceModel>>,
    pub joins: Option<Seq<SourceModel>>,
}

/// One query core.
pub enum QueryCoreModel {
    Rows { from: Option<JoinClauseModel> },
    Values,
}

/// A query core and the compound branches that follow it.
pub struct QueryBodyModel {
    pub select: QueryCoreModel,
    pub compounds: Option<Seq<QueryCoreModel>>,
}

/// A `SELECT` statement.
pub struct QueryModel {
    pub body: QueryBodyModel,
}

impl SourceModel {
    /// The table references under this source, in the order in which the
    /// query lists them. A table that is named twice occurs twice.
    pub open spec fn references(self) -> Seq<TableRef>
        decreases self,
    {
        match self {
            SourceModel::Table(r) => seq![r],
            SourceModel::TableCall(r) => seq![r],
            SourceModel::Subquery(s) => s.references(),
            SourceModel::Group(f) => f.references(),
        }
    }
}

/// The table references under a list of sources, source after source.
pub open spec fn source_references(sources: Seq<SourceModel>) -> Seq<TableRef>
    decreases sources,
{
    if sources.len() == 0 {
        Seq::empty()
    } else {
        source_references(sources.drop_last()) + sources.last().references()
    }
}

impl JoinClauseModel {
    /// The references of the primary source, if there is one.
    pub open spec fn primary_references(self) -> Seq<TableRef>
        decreases self, 0nat,
    {
        match self.select {
            Some(t) => t.references(),
            None => Seq::empty(),
        }
    }

    /// The references of the joined sources, if there are any.
    pub open spec fn join_references(self) -> Seq<TableRef>
        decreases self, 0nat,
    {
        match self.joins {
            Some(js) => source_references(js),
            None => Seq::empty(),
        }
    }

    /// The table references of the clause: those of the primary source, then
    /// those of each joined source in turn.
    pub open spec fn references(self) -> Seq<TableRef>
        decreases self, 1nat,
    {
        self.primary_references() + self.join_references()
    }
}

impl QueryCoreModel {
    /// The table references of the `FROM` clause; none for `VALUES`, and none
    /// where the clause is missing.
    pub open spec fn references(self) -> Seq<TableRef>
        decreases self,
    {
        match self {
            QueryCoreModel::Rows { from: Some(f) } => f.references(),
            QueryCoreModel::Rows { from: None } => Seq::empty(),
            QueryCoreModel::Values => Seq::empty(),
        }
    }
}

/// The table references under a list of query cores, core after core.
pub open spec fn core_references(cores: Seq<QueryCoreModel>) -> Seq<TableRef>
    decreases cores,
{
    if cores.len() == 0 {
        Seq::empty()
    } else {
        core_references(cores.drop_last()) + cores.last().references()
    }
}

impl QueryBodyModel {
    /// The references of the compound branches after the first core.
    pub open spec fn compound_references(self) -> Seq<TableRef>
        decreases self, 0nat,
    {
        match self.compounds {
            Some(cs) => core_references(cs),
            None => Seq::empty(),
        }
    }

    /// The table references of the body: those of the first core, then those
    /// of each compound branch in turn.
    pub open spec fn references(self) -> Seq<TableRef>
        decreases self, 1nat,
    {
        self.select.references() + self.compound_references()
    }
}

impl QueryModel {
    /// The table references of the statement, which are those of its body.
    pub open spec fn references(self) -> Seq<TableRef>
        decreases self,
    {
        self.body.references()
    }
}

/// A parsed command, as far as table extraction tells commands apart.
pub enum CommandModel {
    /// A plain `SELECT` statement.
    Query(QueryModel),
    /// A statement under `EXPLAIN`.
    Explain,
    /// A statement under `EXPLAIN QUERY PLAN`.
    ExplainQueryPlan,
    /// Any other statement.
    Other,
}

} // verus!
