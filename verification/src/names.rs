//! Table names as strings: one string for each reference, with the schema
//! set off from the identifier by a control character.

use vstd::prelude::*;

use crate::ast::{reference_views, QualifiedName};
use crate::collect::{distinct, lemma_distinct_is_a_set, with_item};
use crate::model::TableRef;

verus! {

/// The character between a schema and a table identifier: the ASCII unit
/// separator, which no identifier is expected to hold.
pub const SEPARATOR: char = '\x1F';

/// The string for a reference: the identifier alone, or the schema, the
/// separator and the identifier.
pub open spec fn table_string(reference: TableRef) -> Seq<char> {
    match reference.schema {
        Some(schema) => schema.push(SEPARATOR) + reference.name,
        None => reference.name,
    }
}

/// The strings for a list of references, item by item.
pub open spec fn table_strings(references: Seq<TableRef>) -> Seq<Seq<char>> {
    references.map_values(|r: TableRef| table_string(r))
}

/// The characters of each string of a list.
pub open spec fn string_views(strings: Seq<String>) -> Seq<Seq<char>> {
    strings.map_values(|s: String| s@)
}

impl QualifiedName {
    /// The string for this reference.
    pub fn table_string(&self) -> (string: String)
        ensures
            string@ == table_string(self@),
    {
        match &self.schema {
            Some(schema) => {
                let mut string = schema.clone();
                proof {
                    reveal_strlit("\x1F");
                    assert("\x1F"@ =~= seq![SEPARATOR]);
                }
                string.append("\x1F");
                string.append(self.name.as_str());
                assert(string@ =~= schema@.push(SEPARATOR) + self.name@);
                string
            },
            None => self.name.clone(),
        }
    }
}

/// Appends `string` to `strings` unless an equal string is already there.
pub fn add_unique_string(strings: &mut Vec<String>, string: String)
    ensures
        string_views(final(strings)@) == with_item(string_views(old(strings)@), string@),
{
    let ghost seen = string_views(strings@);
    let mut found = false;
    let mut i: usize = 0;
    while i < strings.len() && !found
        invariant
            i <= strings.len(),
            seen == string_views(strings@),
            found ==> seen.contains(string@),
            !found ==> forall|j: int| 0 <= j < i ==> seen[j] != string@,
        decreases strings.len() - i + if found { 0int } else { 1int },
    {
        if strings[i] == string {
            assert(seen[i as int] == string@);
            found = true;
        } else {
            i += 1;
        }
    }
    if !found {
        strings.push(string);
        assert(string_views(strings@) =~= seen.push(string@));
    }
}

/// The strings for a list of references, each string once, in the order of
/// first occurrence.
pub fn extract_table_name_strings(qualified_names: &[QualifiedName]) -> (strings: Vec<String>)
    ensures
        string_views(strings@) == distinct(table_strings(reference_views(qualified_names@))),
        string_views(strings@).no_duplicates(),
{
    let ghost all = table_strings(reference_views(qualified_names@));
    let mut strings: Vec<String> = Vec::new();
    let mut i: usize = 0;
    assert(string_views(strings@) =~= Seq::<Seq<char>>::empty());
    assert(all.take(0) =~= Seq::<Seq<char>>::empty());
    while i < qualified_names.len()
        invariant
            i <= qualified_names.len(),
            all == table_strings(reference_views(qualified_names@)),
            string_views(strings@) == distinct(all.take(i as int)),
        decreases qualified_names.len() - i,
    {
        proof {
            let next = all.take(i + 1);
            assert(next.drop_last() =~= all.take(i as int));
            assert(next.last() == table_string(qualified_names@[i as int]@));
        }
        add_unique_string(&mut strings, qualified_names[i].table_string());
        i += 1;
    }
    proof {
        assert(all.take(i as int) =~= all);
        lemma_distinct_is_a_set(all);
    }
    strings
}

} // verus!
