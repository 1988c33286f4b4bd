//! Decoding of `application/x-www-form-urlencoded` text into key/value pairs.

use vstd::prelude::*;

verus! {

/// The pairs that `serde_urlencoded` decodes from `input`, keys and values
/// percent-decoded, in the order in which they stand; `None` where it fails.
pub uninterp spec fn urlencoded_pairs(input: Seq<char>) -> Option<Seq<(Seq<char>, Seq<char>)>>;

/// Each pair as two character sequences.
pub open spec fn pairs_view(v: Seq<(String, String)>) -> Seq<(Seq<char>, Seq<char>)> {
    v.map_values(|p: (String, String)| (p.0@, p.1@))
}

/// The decoded pairs, or `None`, as character sequences.
pub open spec fn decoded_view(r: Option<Vec<(String, String)>>) -> Option<Seq<(Seq<char>, Seq<char>)>> {
    match r {
        Some(v) => Some(pairs_view(v@)),
        None => None,
    }
}

/// Decodes a query string or form body with
/// `serde_urlencoded::from_str::<Vec<(String, String)>>`. The contract
/// names the decoded pairs `urlencoded_pairs(input)` and claims nothing of
/// their content: percent-decoding and the splitting on `&`, `=` and `+`
/// are the outside crate's.
#[verifier::external_body]
pub(crate) fn decode_pairs(input: &str) -> (r: Option<Vec<(String, String)>>)
    ensures
        decoded_view(r) == urlencoded_pairs(input@),
{
    serde_urlencoded::from_str::<Vec<(String, String)>>(input).ok()
}

/// The values that stand under `key`, in order.
pub open spec fn values_for(pairs: Seq<(Seq<char>, Seq<char>)>, key: Seq<char>) -> Seq<Seq<char>>
    decreases pairs.len(),
{
    if pairs.len() == 0 {
        Seq::empty()
    } else if pairs.last().0 == key {
        values_for(pairs.drop_last(), key).push(pairs.last().1)
    } else {
        values_for(pairs.drop_last(), key)
    }
}

/// The map that inserting the pairs one by one builds: the last value under
/// a key wins.
pub open spec fn pairs_map(pairs: Seq<(Seq<char>, Seq<char>)>) -> Map<Seq<char>, Seq<char>>
    decreases pairs.len(),
{
    if pairs.len() == 0 {
        Map::empty()
    } else {
        pairs_map(pairs.drop_last()).insert(pairs.last().0, pairs.last().1)
    }
}

/// The values of the pairs whose key is `key`, in order (the form's
/// repeated fields, such as the `ids` of a bulk delete).
pub fn form_values(form: &Vec<(String, String)>, key: &str) -> (r: Vec<String>)
    ensures
        r@.map_values(|s: String| s@) == values_for(pairs_view(form@), key@),
{
    let k = String::from_str(key);
    let mut out: Vec<String> = Vec::new();
    let mut i: usize = 0;
    while i < form.len()
        invariant
            i <= form@.len(),
            k@ == key@,
            out@.map_values(|s: String| s@) == values_for(pairs_view(form@).take(i as int), key@),
        decreases form@.len() - i,
    {
        let ghost pv = pairs_view(form@);
        assert(pv.take(i + 1).drop_last() =~= pv.take(i as int));
        if form[i].0 == k {
            out.push(form[i].1.clone());
        }
        i = i + 1;
        assert(out@.map_values(|s: String| s@) =~= values_for(pv.take(i as int), key@));
    }
    assert(pairs_view(form@).take(form@.len() as int) =~= pairs_view(form@));
    out
}

/// The kept values, in order: those that parsed.
pub open spec fn parsed_values<T>(parsed: Seq<Option<T>>) -> Seq<T>
    decreases parsed.len(),
{
    if parsed.len() == 0 {
        Seq::empty()
    } else {
        match parsed[0] {
            Some(v) => seq![v] + parsed_values(parsed.skip(1)),
            None => parsed_values(parsed.skip(1)),
        }
    }
}

/// The values that parsed, in the order of the form, the others skipped
/// without error (the ids of a bulk delete, each parsed as the entity's id).
pub fn kept_ids<T>(parsed: Vec<Option<T>>) -> (ids: Vec<T>)
    ensures
        ids@ == parsed_values(parsed@),
{
    let mut ids: Vec<T> = Vec::new();
    let mut rest = parsed;
    assert(ids@ + parsed_values(rest@) =~= parsed_values(parsed@));
    while rest.len() > 0
        invariant
            ids@ + parsed_values(rest@) == parsed_values(parsed@),
        decreases rest@.len(),
    {
        let ghost before = rest@;
        let ghost before_ids = ids@;
        let x = rest.remove(0);
        assert(rest@ =~= before.skip(1));
        match x {
            Some(v) => {
                ids.push(v);
                assert(ids@ + parsed_values(rest@) =~= before_ids + parsed_values(before));
            },
            None => {},
        }
    }
    assert(ids@ + parsed_values(rest@) =~= ids@);
    ids
}

} // verus!
