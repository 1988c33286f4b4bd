//! The search route: its query parameter and the label/value items it
//! answers with.

use vstd::prelude::*;

use crate::error::{ActixAdminError, ActixAdminErrorType};
use crate::form::{decode_pairs, form_values, pairs_view, urlencoded_pairs, values_for};
use crate::view_model::ActixAdminViewModel;
use crate::model::ActixAdminModel;

verus! {

/// The query of the search route: `q`, the text searched for.
#[derive(Debug)]
pub struct SearchParam {
    pub q: String,
}

impl Default for SearchParam {
    fn default() -> (r: Self)
        ensures
            r.q@ == Seq::<char>::empty(),
    {
        SearchParam { q: String::new() }
    }
}

/// The search text that a raw query string gives: the value of its single
/// `q` parameter; no `q`, a repeated `q` or an undecodable query give the
/// empty text.
pub open spec fn search_text(raw_query: Seq<char>) -> Seq<char> {
    match urlencoded_pairs(raw_query) {
        Some(pairs) => search_text_of(pairs),
        None => Seq::empty(),
    }
}

/// The search text that decoded query pairs give: the value of the single
/// `q` pair; no `q` or a repeated one gives the empty text.
pub open spec fn search_text_of(pairs: Seq<(Seq<char>, Seq<char>)>) -> Seq<char> {
    if values_for(pairs, "q"@).len() == 1 {
        values_for(pairs, "q"@)[0]
    } else {
        Seq::empty()
    }
}

/// The search text that decoded query pairs give: the value of the single
/// `q` pair, else the empty text.
pub fn search_text_from_pairs(pairs: &Vec<(String, String)>) -> (r: String)
    ensures
        r@ == search_text_of(pairs_view(pairs@)),
{
    let qs = form_values(pairs, "q");
    if qs.len() == 1 {
        assert(qs@.map_values(|s: String| s@)[0] == qs@[0]@);
        qs[0].clone()
    } else {
        String::new()
    }
}

impl SearchParam {
    /// Reads the search parameters from the raw query string, falling back
    /// to the defaults where it does not decode.
    pub fn from_query(raw_query: &str) -> (r: SearchParam)
        ensures
            r.q@ == search_text(raw_query@),
    {
        match decode_pairs(raw_query) {
            Some(pairs) => SearchParam { q: search_text_from_pairs(&pairs) },
            None => SearchParam::default(),
        }
    }
}

/// The direction of a listing's order.
#[derive(Clone, Copy, Debug, PartialEq, Eq, Structural)]
pub enum SortOrder {
    Asc,
    Desc,
}

/// What an entity's listing is asked for: page and page size, filters,
/// search text, order, and the tenant whose rows are listed.
#[derive(Debug)]
pub struct ActixAdminViewModelParams {
    pub page: Option<u64>,
    pub entities_per_page: Option<u64>,
    pub viewmodel_filter: Vec<(String, String)>,
    pub search: String,
    pub sort_by: String,
    pub sort_order: SortOrder,
    pub tenant_ref: Option<i32>,
}

/// The listing that the search route asks for: every row (no paging, no
/// filter) matching the search text, ordered by the primary key ascending,
/// for the caller's tenant.
pub fn search_params(view_model: &ActixAdminViewModel, search: String, tenant_ref: Option<i32>) -> (r:
    ActixAdminViewModelParams)
    ensures
        r.page is None,
        r.entities_per_page is None,
        r.viewmodel_filter@.len() == 0,
        r.search == search,
        r.sort_by@ == view_model.primary_key@,
        r.sort_order == SortOrder::Asc,
        r.tenant_ref == tenant_ref,
{
    ActixAdminViewModelParams {
        page: None,
        entities_per_page: None,
        viewmodel_filter: Vec::new(),
        search,
        sort_by: view_model.primary_key.clone(),
        sort_order: SortOrder::Asc,
        tenant_ref,
    }
}

/// One answer of the search route.
#[derive(Debug)]
pub struct LabelValue {
    pub label: String,
    pub value: String,
}

/// The items that a list of rows gives: one per row with a primary key, in
/// order, its value the key and its label the display name (empty when the
/// row has none).
pub open spec fn label_items(rows: Seq<ActixAdminModel>) -> Seq<(Seq<char>, Seq<char>)>
    decreases rows.len(),
{
    if rows.len() == 0 {
        Seq::empty()
    } else {
        let rest = label_items(rows.drop_last());
        let row = rows.last();
        match row.primary_key {
            Some(pk) => rest.push(
                (
                    match row.display_name {
                        Some(d) => d@,
                        None => Seq::empty(),
                    },
                    pk@,
                ),
            ),
            None => rest,
        }
    }
}

/// Each item as (label, value).
pub open spec fn items_view(items: Seq<LabelValue>) -> Seq<(Seq<char>, Seq<char>)> {
    items.map_values(|i: LabelValue| (i.label@, i.value@))
}

/// The search answer for the rows found: rows without a primary key are
/// left out.
pub fn label_values(rows: Vec<ActixAdminModel>) -> (r: Vec<LabelValue>)
    ensures
        items_view(r@) == label_items(rows@),
{
    let mut out: Vec<LabelValue> = Vec::new();
    let mut i: usize = 0;
    while i < rows.len()
        invariant
            i <= rows@.len(),
            items_view(out@) == label_items(rows@.take(i as int)),
        decreases rows@.len() - i,
    {
        let row = &rows[i];
        assert(rows@.take(i + 1).drop_last() =~= rows@.take(i as int));
        match &row.primary_key {
            Some(pk) => {
                let label = match &row.display_name {
                    Some(d) => d.clone(),
                    None => String::new(),
                };
                out.push(LabelValue { label, value: pk.clone() });
            },
            None => {},
        }
        i = i + 1;
        assert(items_view(out@) =~= label_items(rows@.take(i as int)));
    }
    assert(rows@.take(rows@.len() as int) =~= rows@);
    out
}

/// The search answer for the listing's outcome: the items of the rows found,
/// or an internal error carrying the listing's message.
pub fn search_result(listing: Result<Vec<ActixAdminModel>, ActixAdminError>) -> (r: Result<
    Vec<LabelValue>,
    ActixAdminError,
>)
    ensures
        match listing {
            Ok(rows) => r matches Ok(items) && items_view(items@) == label_items(rows@),
            Err(e) => r matches Err(err) && err.ty == ActixAdminErrorType::InternalError && err.msg
                == e.msg,
        },
{
    match listing {
        Ok(rows) => Ok(label_values(rows)),
        Err(e) => Err(ActixAdminError::internal(e.msg)),
    }
}

/// A key that no pair has has no values.
pub proof fn lemma_values_for_absent(pairs: Seq<(Seq<char>, Seq<char>)>, key: Seq<char>)
    requires
        forall|j: int| 0 <= j < pairs.len() ==> (#[trigger] pairs[j]).0 != key,
    ensures
        values_for(pairs, key) == Seq::<Seq<char>>::empty(),
    decreases pairs.len(),
{
    if pairs.len() > 0 {
        assert forall|j: int| 0 <= j < pairs.drop_last().len() implies (
        #[trigger] pairs.drop_last()[j]).0 != key by {
            assert(pairs.drop_last()[j] == pairs[j]);
        }
        lemma_values_for_absent(pairs.drop_last(), key);
        assert(pairs.last() == pairs[pairs.len() - 1]);
    }
}

/// A key that exactly one pair has has that pair's value alone.
pub proof fn lemma_values_for_single(pairs: Seq<(Seq<char>, Seq<char>)>, i: int, key: Seq<char>)
    requires
        0 <= i < pairs.len(),
        pairs[i].0 == key,
        forall|j: int| 0 <= j < pairs.len() && j != i ==> (#[trigger] pairs[j]).0 != key,
    ensures
        values_for(pairs, key) == seq![pairs[i].1],
    decreases pairs.len(),
{
    let d = pairs.drop_last();
    if i == pairs.len() - 1 {
        assert forall|j: int| 0 <= j < d.len() implies (#[trigger] d[j]).0 != key by {
            assert(d[j] == pairs[j]);
        }
        lemma_values_for_absent(d, key);
        assert(values_for(pairs, key) =~= seq![pairs[i].1]);
    } else {
        assert forall|j: int| 0 <= j < d.len() && j != i implies (#[trigger] d[j]).0 != key by {
            assert(d[j] == pairs[j]);
        }
        assert(d[i] == pairs[i]);
        lemma_values_for_single(d, i, key);
        assert(pairs.last() == pairs[pairs.len() - 1]);
    }
}

/// The search text is the value of the query's only `q` pair, wherever that
/// pair stands among the others.
pub proof fn law_search_text_is_the_only_q(pairs: Seq<(Seq<char>, Seq<char>)>, i: int)
    requires
        0 <= i < pairs.len(),
        pairs[i].0 == "q"@,
        forall|j: int| 0 <= j < pairs.len() && j != i ==> (#[trigger] pairs[j]).0 != "q"@,
    ensures
        search_text_of(pairs) == pairs[i].1,
{
    lemma_values_for_single(pairs, i, "q"@);
}

/// A query without a `q` pair searches for the empty text.
pub proof fn law_search_text_without_q(pairs: Seq<(Seq<char>, Seq<char>)>)
    requires
        forall|j: int| 0 <= j < pairs.len() ==> (#[trigger] pairs[j]).0 != "q"@,
    ensures
        search_text_of(pairs) == Seq::<char>::empty(),
{
    lemma_values_for_absent(pairs, "q"@);
}

} // verus!
