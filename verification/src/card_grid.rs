//! The card grid pages: which grid a request path asks for, and the menu
//! entry it is shown under.

use vstd::prelude::*;

use crate::builder::{card_grid_key, ActixAdmin};
use crate::error::{ActixAdminError, ActixAdminErrorType};
use crate::keyed::{assoc_map, get_value};
use crate::menu::{ActixAdminMenuElement, Menu};
use crate::text::{contains, occurs_at, remove_all, remove_all_exec, remove_first};

verus! {

/// The key that a request path asks for: the path with every occurrence of
/// the base path removed, then every `/`.
pub open spec fn card_grid_lookup_key(uri_path: Seq<char>, base_path: Seq<char>) -> Seq<char> {
    remove_all(remove_all(uri_path, base_path), "/"@)
}

/// The menu entries, category after category.
pub open spec fn flat_elements(menu: Seq<(String, Vec<ActixAdminMenuElement>)>) -> Seq<
    ActixAdminMenuElement,
>
    decreases menu.len(),
{
    if menu.len() == 0 {
        Seq::empty()
    } else {
        flat_elements(menu.drop_last()) + menu.last().1@
    }
}

/// The name of the first entry linking to `link`; empty when there is none.
pub open spec fn link_name(elements: Seq<ActixAdminMenuElement>, link: Seq<char>) -> Seq<char>
    decreases elements.len(),
{
    if elements.len() == 0 {
        Seq::empty()
    } else if elements[0].link@ == link {
        elements[0].name@
    } else {
        link_name(elements.skip(1), link)
    }
}

/// All menu entries, category after category.
fn menu_entries(menu: &Menu) -> (r: Vec<ActixAdminMenuElement>)
    ensures
        r@ == flat_elements(menu@),
{
    let mut out: Vec<ActixAdminMenuElement> = Vec::new();
    let mut ci: usize = 0;
    assert(menu@.take(0) =~= Seq::<(String, Vec<ActixAdminMenuElement>)>::empty());
    while ci < menu.len()
        invariant
            ci <= menu@.len(),
            out@ == flat_elements(menu@.take(ci as int)),
        decreases menu@.len() - ci,
    {
        let list = &menu[ci].1;
        let ghost start = out@;
        let mut ei: usize = 0;
        while ei < list.len()
            invariant
                ei <= list@.len(),
                out@ == start + list@.take(ei as int),
            decreases list@.len() - ei,
        {
            out.push(list[ei].clone());
            ei = ei + 1;
            assert(out@ =~= start + list@.take(ei as int));
        }
        assert(list@.take(list@.len() as int) =~= list@);
        assert(menu@.take(ci + 1).drop_last() =~= menu@.take(ci as int));
        ci = ci + 1;
    }
    assert(menu@.take(menu@.len() as int) =~= menu@);
    out
}

/// The name of the first entry linking to `link`.
fn name_for_link(elements: &Vec<ActixAdminMenuElement>, link: &String) -> (r: String)
    ensures
        r@ == link_name(elements@, link@),
{
    let mut i: usize = 0;
    assert(elements@.skip(0) =~= elements@);
    while i < elements.len()
        invariant
            i <= elements@.len(),
            link_name(elements@, link@) == link_name(elements@.skip(i as int), link@),
        decreases elements@.len() - i,
    {
        if elements[i].link == *link {
            return elements[i].name.clone();
        }
        assert(elements@.skip(i as int).skip(1) =~= elements@.skip(i + 1));
        i = i + 1;
    }
    String::new()
}

/// The card grid that the request path `uri_path` asks for, with the name
/// of the first menu entry linking to it (empty when none does); a path
/// that names no card grid is answered "Card grid not found".
pub fn display_card_grid<'a>(actix_admin: &'a ActixAdmin, uri_path: &str) -> (r: Result<
    (&'a Vec<Vec<String>>, String),
    ActixAdminError,
>)
    requires
        actix_admin.wf(),
    ensures
        ({
            let key = card_grid_lookup_key(uri_path@, actix_admin.configuration.base_path@);
            match r {
                Ok((grid, name)) => {
                    &&& assoc_map(actix_admin.card_grids@).contains_key(key)
                    &&& *grid == assoc_map(actix_admin.card_grids@)[key]
                    &&& name@ == link_name(flat_elements(actix_admin.entity_names@), key)
                },
                Err(e) => {
                    &&& !assoc_map(actix_admin.card_grids@).contains_key(key)
                    &&& e.ty == ActixAdminErrorType::NotFound
                    &&& e.msg@ == "Card grid not found"@
                },
            }
        }),
{
    let without_base = remove_all_exec(uri_path, actix_admin.configuration.base_path.as_str());
    let key = remove_all_exec(without_base.as_str(), "/");
    match get_value(&actix_admin.card_grids, &key) {
        Some(grid) => {
            let entries = menu_entries(&actix_admin.entity_names);
            let name = name_for_link(&entries, &key);
            Ok((grid, name))
        },
        None => Err(ActixAdminError::not_found(String::from_str("Card grid not found"))),
    }
}

/// Removing a pattern that does not occur changes nothing.
pub proof fn lemma_remove_absent(s: Seq<char>, pat: Seq<char>)
    requires
        pat.len() > 0,
        !contains(s, pat),
    ensures
        remove_all(s, pat) == s,
    decreases s.len(),
{
    if s.len() >= pat.len() {
        if s.take(pat.len() as int) == pat {
            assert(occurs_at(s, pat, 0));
        }
        assert(!contains(s.skip(1), pat)) by {
            if contains(s.skip(1), pat) {
                let i = choose|i: int| occurs_at(s.skip(1), pat, i);
                assert(s.subrange(i + 1, i + 1 + pat.len()) =~= s.skip(1).subrange(i, i + pat.len()));
                assert(occurs_at(s, pat, i + 1));
            }
        }
        lemma_remove_absent(s.skip(1), pat);
        assert(s =~= seq![s[0]] + s.skip(1));
    }
}

/// A card grid registered at `path` is the one that a request for
/// `{base_path}{path}` asks for, when the path does not itself hold the base
/// path.
pub proof fn lemma_card_grid_path_roundtrip(base_path: Seq<char>, path: Seq<char>)
    requires
        base_path.len() == 0 || !contains(path, base_path),
    ensures
        card_grid_lookup_key(base_path + path, base_path) == card_grid_key(path),
{
    let full = base_path + path;
    if base_path.len() == 0 {
        assert(full =~= path);
    } else {
        assert(full.take(base_path.len() as int) =~= base_path);
        assert(full.skip(base_path.len() as int) =~= path);
        lemma_remove_absent(path, base_path);
    }
}

/// For a path of one segment, `/{segment}`, the menu link of a custom page
/// or card grid (the path without its first `/`) is the segment, and so is
/// the key of its card grid.
pub proof fn lemma_single_segment_link(segment: Seq<char>)
    requires
        forall|i: int| 0 <= i < segment.len() ==> segment[i] != '/',
    ensures
        remove_first("/"@ + segment, "/"@) == segment,
        card_grid_key("/"@ + segment) == segment,
{
    reveal_strlit("/");
    let p = "/"@ + segment;
    assert(p.take(1) =~= "/"@);
    assert(p.skip(1) =~= segment);
    assert(!contains(segment, "/"@)) by {
        if contains(segment, "/"@) {
            let i = choose|i: int| occurs_at(segment, "/"@, i);
            assert(segment.subrange(i, i + 1)[0] == segment[i]);
        }
    }
    lemma_remove_absent(segment, "/"@);
}

/// A card grid that the builder stored for `path` is the one that a request
/// for `{base_path}{path}` finds, when the path does not itself hold the base
/// path.
pub proof fn law_card_grid_is_found(
    base_path: Seq<char>,
    path: Seq<char>,
    old_grids: Map<Seq<char>, Vec<Vec<String>>>,
    new_grids: Map<Seq<char>, Vec<Vec<String>>>,
    elements: Vec<Vec<String>>,
)
    requires
        base_path.len() == 0 || !contains(path, base_path),
        new_grids == old_grids.insert(card_grid_key(path), elements),
    ensures
        new_grids.contains_key(card_grid_lookup_key(base_path + path, base_path)),
        new_grids[card_grid_lookup_key(base_path + path, base_path)] == elements,
{
    lemma_card_grid_path_roundtrip(base_path, path);
}

/// The entries of two menus one after the other are the entries of the first
/// followed by those of the second.
pub proof fn lemma_flat_elements_append(
    a: Seq<(String, Vec<ActixAdminMenuElement>)>,
    b: Seq<(String, Vec<ActixAdminMenuElement>)>,
)
    ensures
        flat_elements(a + b) == flat_elements(a) + flat_elements(b),
    decreases b.len(),
{
    if b.len() == 0 {
        assert(a + b =~= a);
        assert(flat_elements(a) + flat_elements(b) =~= flat_elements(a));
    } else {
        assert((a + b).drop_last() =~= a + b.drop_last());
        assert((a + b).last() == b.last());
        lemma_flat_elements_append(a, b.drop_last());
        assert(flat_elements(a + b) =~= flat_elements(a) + flat_elements(b));
    }
}

/// Every entry in the flattened menu is an entry of one of its categories.
pub proof fn lemma_flat_elements_members(m: Seq<(String, Vec<ActixAdminMenuElement>)>, j: int)
    requires
        0 <= j < flat_elements(m).len(),
    ensures
        exists|cj: int, ej: int|
            0 <= cj < m.len() && 0 <= ej < m[cj].1@.len() && flat_elements(m)[j]
                == #[trigger] m[cj].1@[ej],
    decreases m.len(),
{
    let rest = flat_elements(m.drop_last());
    if j < rest.len() {
        lemma_flat_elements_members(m.drop_last(), j);
        let (cj, ej) = choose|cj: int, ej: int|
            0 <= cj < m.drop_last().len() && 0 <= ej < m.drop_last()[cj].1@.len()
                && rest[j] == #[trigger] m.drop_last()[cj].1@[ej];
        assert(m[cj] == m.drop_last()[cj]);
        assert(flat_elements(m)[j] == m[cj].1@[ej]);
    } else {
        let ej = j - rest.len();
        assert(flat_elements(m)[j] == m[m.len() - 1].1@[ej]);
    }
}

/// The name that `link_name` finds is that of the first entry with the link.
pub proof fn lemma_link_name_first(
    s: Seq<ActixAdminMenuElement>,
    k: int,
    link: Seq<char>,
)
    requires
        0 <= k < s.len(),
        s[k].link@ == link,
        forall|j: int| 0 <= j < k ==> (#[trigger] s[j]).link@ != link,
    ensures
        link_name(s, link) == s[k].name@,
    decreases k,
{
    if k > 0 {
        assert forall|j: int| 0 <= j < k - 1 implies (#[trigger] s.skip(1)[j]).link@ != link by {
            assert(s.skip(1)[j] == s[j + 1]);
        }
        assert(s.skip(1)[k - 1] == s[k]);
        lemma_link_name_first(s.skip(1), k - 1, link);
    }
}

/// The title of a card grid page is the name of the first menu entry, in
/// category order and then in the order of the category's entries, that
/// links to the grid's key, whichever category it stands in.
pub proof fn law_card_grid_title_is_first_matching_entry(
    menu: Seq<(String, Vec<ActixAdminMenuElement>)>,
    ci: int,
    ei: int,
    key: Seq<char>,
)
    requires
        0 <= ci < menu.len(),
        0 <= ei < menu[ci].1@.len(),
        menu[ci].1@[ei].link@ == key,
        forall|cj: int, ej: int|
            0 <= cj < menu.len() && 0 <= ej < menu[cj].1@.len() && (cj < ci || (cj == ci && ej
                < ei)) ==> (#[trigger] menu[cj].1@[ej]).link@ != key,
    ensures
        link_name(flat_elements(menu), key) == menu[ci].1@[ei].name@,
{
    let pre = menu.take(ci);
    let c = menu[ci];
    let post = menu.skip(ci + 1);
    assert(menu =~= pre + seq![c] + post);
    lemma_flat_elements_append(pre + seq![c], post);
    lemma_flat_elements_append(pre, seq![c]);
    assert(seq![c].drop_last() =~= Seq::<(String, Vec<ActixAdminMenuElement>)>::empty());
    assert(seq![c].last() == c);
    assert(flat_elements(seq![c].drop_last()) =~= Seq::<ActixAdminMenuElement>::empty());
    assert(flat_elements(seq![c]) =~= c.1@);
    let f = flat_elements(menu);
    let fp = flat_elements(pre);
    assert(f =~= fp + c.1@ + flat_elements(post));
    let k = fp.len() + ei;
    assert(f[k] == c.1@[ei]);
    assert forall|j: int| 0 <= j < k implies (#[trigger] f[j]).link@ != key by {
        if j < fp.len() {
            assert(f[j] == fp[j]);
            lemma_flat_elements_members(pre, j);
            let (cj, ej) = choose|cj: int, ej: int|
                0 <= cj < pre.len() && 0 <= ej < pre[cj].1@.len() && fp[j]
                    == #[trigger] pre[cj].1@[ej];
            assert(pre[cj] == menu[cj]);
            assert(menu[cj].1@[ej].link@ != key);
        } else {
            assert(f[j] == c.1@[j - fp.len()]);
            assert(menu[ci].1@[j - fp.len()].link@ != key);
        }
    }
    lemma_link_name_first(f, k, key);
}

} // verus!
