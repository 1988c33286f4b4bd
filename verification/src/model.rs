//! A row of an entity as the admin pages handle it: its key, its values by
//! column, and the errors found on it.

use vstd::prelude::*;

use crate::form::{decode_pairs, pairs_map, pairs_view, urlencoded_pairs};
use crate::keyed::{assoc_map, get_value, insert_value, remove_value, unique_keys};

verus! {

/// A row: primary key, values by column name, validation errors by column,
/// and the name it is shown under.
#[derive(Debug)]
pub struct ActixAdminModel {
    pub primary_key: Option<String>,
    pub values: Vec<(String, String)>,
    pub errors: Vec<(String, String)>,
    pub custom_errors: Vec<(String, String)>,
    pub fk_values: Vec<(String, String)>,
    pub display_name: Option<String>,
}

/// The values of a list of (column, value) entries, by column.
pub open spec fn string_map(entries: Seq<(String, String)>) -> Map<Seq<char>, Seq<char>> {
    Map::new(
        |k: Seq<char>| assoc_map(entries).contains_key(k),
        |k: Seq<char>| assoc_map(entries)[k]@,
    )
}

/// What the form-encoded text `input` decodes to: the last value under a
/// column wins, and undecodable text gives no values.
pub open spec fn form_values_map(input: Seq<char>) -> Map<Seq<char>, Seq<char>> {
    match urlencoded_pairs(input) {
        Some(pairs) => pairs_map(pairs),
        None => Map::empty(),
    }
}

/// The values that decoded form pairs give, by column: inserted one after
/// the other, so the last value under a column wins.
pub fn values_from_pairs(pairs: &Vec<(String, String)>) -> (values: Vec<(String, String)>)
    ensures
        unique_keys(values@),
        string_map(values@) == pairs_map(pairs_view(pairs@)),
{
    let mut values: Vec<(String, String)> = Vec::new();
    let ghost pv = pairs_view(pairs@);
    assert(string_map(values@) =~= pairs_map(pv.take(0)));
    let mut i: usize = 0;
    while i < pairs.len()
        invariant
            i <= pairs@.len(),
            pv == pairs_view(pairs@),
            unique_keys(values@),
            string_map(values@) == pairs_map(pv.take(i as int)),
        decreases pairs@.len() - i,
    {
        let k = pairs[i].0.clone();
        let v = pairs[i].1.clone();
        insert_value(&mut values, k, v);
        assert(pv.take(i + 1).drop_last() =~= pv.take(i as int));
        i = i + 1;
        assert(string_map(values@) =~= pairs_map(pv.take(i as int)));
    }
    assert(pv.take(pairs@.len() as int) =~= pv);
    values
}

/// A copy of a list of (key, value) pairs.
pub fn clone_pairs(v: &Vec<(String, String)>) -> (r: Vec<(String, String)>)
    ensures
        r@ == v@,
{
    let mut out: Vec<(String, String)> = Vec::new();
    let mut i: usize = 0;
    while i < v.len()
        invariant
            i <= v@.len(),
            out@ == v@.take(i as int),
        decreases v@.len() - i,
    {
        out.push((v[i].0.clone(), v[i].1.clone()));
        i = i + 1;
        assert(out@ =~= v@.take(i as int));
    }
    assert(v@.take(v@.len() as int) =~= v@);
    out
}

impl ActixAdminModel {
    /// No column occurs twice in the values or errors.
    pub open spec fn wf(&self) -> bool {
        &&& unique_keys(self.values@)
        &&& unique_keys(self.errors@)
        &&& unique_keys(self.custom_errors@)
        &&& unique_keys(self.fk_values@)
    }

    /// The values by column.
    pub open spec fn value_map(&self) -> Map<Seq<char>, Seq<char>> {
        string_map(self.values@)
    }

    /// A row with no key, no values and no errors.
    pub fn create_empty() -> (m: ActixAdminModel)
        ensures
            m.wf(),
            m.primary_key is None,
            m.display_name is None,
            m.values@.len() == 0,
            m.errors@.len() == 0,
            m.custom_errors@.len() == 0,
            m.fk_values@.len() == 0,
    {
        ActixAdminModel {
            primary_key: None,
            values: Vec::new(),
            errors: Vec::new(),
            custom_errors: Vec::new(),
            fk_values: Vec::new(),
            display_name: None,
        }
    }

    /// A row whose values are decoded from a form-encoded body, the last
    /// value under a column winning; a body that does not decode gives a row
    /// without values.
    pub fn from(string: String) -> (m: ActixAdminModel)
        ensures
            m.wf(),
            m.value_map() == form_values_map(string@),
            m.primary_key is None,
            m.display_name is None,
            m.errors@.len() == 0,
            m.custom_errors@.len() == 0,
            m.fk_values@.len() == 0,
    {
        let values = match decode_pairs(string.as_str()) {
            Some(pairs) => values_from_pairs(&pairs),
            None => {
                let v: Vec<(String, String)> = Vec::new();
                assert(string_map(v@) =~= Map::<Seq<char>, Seq<char>>::empty());
                v
            },
        };
        ActixAdminModel {
            primary_key: None,
            values,
            errors: Vec::new(),
            custom_errors: Vec::new(),
            fk_values: Vec::new(),
            display_name: None,
        }
    }

    /// The value stored under `column`.
    pub fn get_value(&self, column: &str) -> (r: Option<&String>)
        requires
            self.wf(),
        ensures
            match r {
                Some(v) => self.value_map().contains_key(column@) && v@ == self.value_map()[column@],
                None => !self.value_map().contains_key(column@),
            },
    {
        let key = String::from_str(column);
        get_value(&self.values, &key)
    }

    /// Stores `value` under `column`.
    pub fn set_value(&mut self, column: String, value: String)
        requires
            old(self).wf(),
        ensures
            final(self).wf(),
            final(self).value_map() == old(self).value_map().insert(column@, value@),
            final(self).primary_key == old(self).primary_key,
            final(self).display_name == old(self).display_name,
            final(self).errors == old(self).errors,
            final(self).custom_errors == old(self).custom_errors,
            final(self).fk_values == old(self).fk_values,
    {
        insert_value(&mut self.values, column, value);
        assert(self.value_map() =~= old(self).value_map().insert(column@, value@));
    }

    /// Drops the value under `column`.
    pub fn remove_value(&mut self, column: &str)
        requires
            old(self).wf(),
        ensures
            final(self).wf(),
            final(self).value_map() == old(self).value_map().remove(column@),
            final(self).primary_key == old(self).primary_key,
            final(self).display_name == old(self).display_name,
            final(self).errors == old(self).errors,
            final(self).custom_errors == old(self).custom_errors,
            final(self).fk_values == old(self).fk_values,
    {
        let key = String::from_str(column);
        let _ = remove_value(&mut self.values, &key);
        assert(self.value_map() =~= old(self).value_map().remove(column@));
    }

    /// Both rows hold the same key, values, errors, foreign-key values and
    /// display name.
    pub open spec fn same_row(&self, other: ActixAdminModel) -> bool {
        &&& self.primary_key == other.primary_key
        &&& self.values@ == other.values@
        &&& self.errors@ == other.errors@
        &&& self.custom_errors@ == other.custom_errors@
        &&& self.fk_values@ == other.fk_values@
        &&& self.display_name == other.display_name
    }

    /// A copy of the row.
    pub fn clone_row(&self) -> (r: ActixAdminModel)
        ensures
            r.same_row(*self),
            self.wf() ==> r.wf(),
    {
        ActixAdminModel {
            primary_key: crate::view_model::clone_opt_string(&self.primary_key),
            values: clone_pairs(&self.values),
            errors: clone_pairs(&self.errors),
            custom_errors: clone_pairs(&self.custom_errors),
            fk_values: clone_pairs(&self.fk_values),
            display_name: crate::view_model::clone_opt_string(&self.display_name),
        }
    }

    /// Whether validation found any error on the row.
    pub fn has_errors(&self) -> (r: bool)
        ensures
            r == (self.errors@.len() > 0 || self.custom_errors@.len() > 0),
    {
        self.errors.len() > 0 || self.custom_errors.len() > 0
    }
}

/// A value stored under a column is what reading the column gives back.
pub proof fn law_value_read_after_write(
    before: Map<Seq<char>, Seq<char>>,
    after: Map<Seq<char>, Seq<char>>,
    column: Seq<char>,
    value: Seq<char>,
)
    requires
        after == before.insert(column, value),
    ensures
        after.contains_key(column),
        after[column] == value,
        forall|c: Seq<char>| c != column ==> (after.contains_key(c) == before.contains_key(c)),
{
}

/// A removed column reads as absent; the other columns are unchanged.
pub proof fn law_value_gone_after_remove(
    before: Map<Seq<char>, Seq<char>>,
    after: Map<Seq<char>, Seq<char>>,
    column: Seq<char>,
)
    requires
        after == before.remove(column),
    ensures
        !after.contains_key(column),
        forall|c: Seq<char>|
            c != column && before.contains_key(c) ==> after.contains_key(c) && after[c] == before[c],
{
}

} // verus!
