//! The navigation menu: categories kept in the order of their names, each
//! with its list of entries.

use vstd::prelude::*;

use crate::keyed::{
    assoc_map, has_key, key_index, lemma_assoc_entry, lemma_assoc_insert_at, lemma_assoc_update,
    unique_keys,
};
use crate::text::{
    lemma_lex_irreflexive, lemma_lex_total, lemma_lex_transitive, lex_less, lex_less_exec,
};

verus! {

/// One entry of the navigation menu.
pub struct ActixAdminMenuElement {
    pub name: String,
    pub link: String,
    pub is_custom_handler: bool,
}

impl View for ActixAdminMenuElement {
    type V = (Seq<char>, Seq<char>, bool);

    open spec fn view(&self) -> (Seq<char>, Seq<char>, bool) {
        (self.name@, self.link@, self.is_custom_handler)
    }
}

impl Clone for ActixAdminMenuElement {
    fn clone(&self) -> (r: Self)
        ensures
            r == *self,
    {
        ActixAdminMenuElement {
            name: self.name.clone(),
            link: self.link.clone(),
            is_custom_handler: self.is_custom_handler,
        }
    }
}

impl ActixAdminMenuElement {
    /// Whether both entries hold the same name, link and kind.
    pub fn same_as(&self, other: &ActixAdminMenuElement) -> (r: bool)
        ensures
            r == (self@ == other@),
    {
        self.name == other.name && self.link == other.link && self.is_custom_handler
            == other.is_custom_handler
    }
}

/// The menu: each category's name and entries, the names in increasing order.
pub type Menu = Vec<(String, Vec<ActixAdminMenuElement>)>;

/// The categories come in strictly increasing order of their names.
pub open spec fn sorted_categories(s: Seq<(String, Vec<ActixAdminMenuElement>)>) -> bool {
    forall|i: int, j: int| 0 <= i < j < s.len() ==> lex_less(s[i].0@, s[j].0@)
}

/// The entries of a list, each as (name, link, is_custom_handler).
pub open spec fn elements_view(v: Seq<ActixAdminMenuElement>) -> Seq<(Seq<char>, Seq<char>, bool)> {
    v.map_values(|e: ActixAdminMenuElement| e@)
}

/// The entries of category `cat`, empty when there is no such category.
pub open spec fn category_elements(
    menu: Seq<(String, Vec<ActixAdminMenuElement>)>,
    cat: Seq<char>,
) -> Seq<ActixAdminMenuElement> {
    if assoc_map(menu).contains_key(cat) {
        assoc_map(menu)[cat]@
    } else {
        Seq::empty()
    }
}

/// The entries of category `cat`, each as (name, link, is_custom_handler).
pub open spec fn category_view(
    menu: Seq<(String, Vec<ActixAdminMenuElement>)>,
    cat: Seq<char>,
) -> Seq<(Seq<char>, Seq<char>, bool)> {
    elements_view(category_elements(menu, cat))
}

/// A list of entries after adding `e`; with `dedupe`, an entry already
/// present is not added again.
pub open spec fn added_view(
    list: Seq<(Seq<char>, Seq<char>, bool)>,
    e: (Seq<char>, Seq<char>, bool),
    dedupe: bool,
) -> Seq<(Seq<char>, Seq<char>, bool)> {
    if dedupe && list.contains(e) {
        list
    } else {
        list.push(e)
    }
}

/// `new` is the sorted menu that `old` becomes when entry `e` is added under
/// category `cat`: the category exists afterwards, the others are unchanged.
pub open spec fn menu_added(
    old: Seq<(String, Vec<ActixAdminMenuElement>)>,
    new: Seq<(String, Vec<ActixAdminMenuElement>)>,
    cat: Seq<char>,
    e: (Seq<char>, Seq<char>, bool),
    dedupe: bool,
) -> bool {
    &&& sorted_categories(new)
    &&& assoc_map(new).contains_key(cat)
    &&& assoc_map(new).remove(cat) == assoc_map(old).remove(cat)
    &&& category_view(new, cat) == added_view(category_view(old, cat), e, dedupe)
}

/// Adding an entry with deduplication twice is adding it once.
pub proof fn lemma_added_view_idempotent(
    list: Seq<(Seq<char>, Seq<char>, bool)>,
    e: (Seq<char>, Seq<char>, bool),
)
    ensures
        added_view(added_view(list, e, true), e, true) == added_view(list, e, true),
        added_view(list, e, true).contains(e),
{
    if !list.contains(e) {
        assert(list.push(e)[list.len() as int] == e);
    }
}

/// Adding the same entry with deduplication twice leaves the menu as the
/// first addition left it.
pub proof fn law_dedupe_push_is_idempotent(
    m0: Seq<(String, Vec<ActixAdminMenuElement>)>,
    m1: Seq<(String, Vec<ActixAdminMenuElement>)>,
    m2: Seq<(String, Vec<ActixAdminMenuElement>)>,
    cat: Seq<char>,
    e: (Seq<char>, Seq<char>, bool),
)
    requires
        menu_added(m0, m1, cat, e, true),
        menu_added(m1, m2, cat, e, true),
    ensures
        category_view(m2, cat) == category_view(m1, cat),
        category_view(m1, cat).contains(e),
        assoc_map(m2).remove(cat) == assoc_map(m1).remove(cat),
{
    lemma_added_view_idempotent(category_view(m0, cat), e);
}

/// Sorted names never repeat.
pub proof fn lemma_sorted_unique(s: Seq<(String, Vec<ActixAdminMenuElement>)>)
    requires
        sorted_categories(s),
    ensures
        unique_keys(s),
{
    assert forall|i: int, j: int| 0 <= i < j < s.len() implies s[i].0@ != s[j].0@ by {
        lemma_lex_irreflexive(s[i].0@);
    }
}

/// Whether `list` holds an entry equal to `e`.
pub fn contains_element(list: &Vec<ActixAdminMenuElement>, e: &ActixAdminMenuElement) -> (r: bool)
    ensures
        r == elements_view(list@).contains(e@),
{
    let mut i: usize = 0;
    while i < list.len()
        invariant
            i <= list@.len(),
            forall|j: int| 0 <= j < i ==> list@[j]@ != e@,
        decreases list@.len() - i,
    {
        if list[i].same_as(e) {
            assert(elements_view(list@)[i as int] == e@);
            return true;
        }
        i = i + 1;
    }
    assert forall|j: int| 0 <= j < elements_view(list@).len() implies elements_view(list@)[j]
        != e@ by {
        assert(elements_view(list@)[j] == list@[j]@);
    }
    false
}

/// The position at which `cat` stands or would stand, and whether it is there.
fn locate_category(menu: &Menu, cat: &String) -> (r: (usize, bool))
    requires
        sorted_categories(menu@),
    ensures
        r.0 <= menu@.len(),
        forall|a: int| 0 <= a < r.0 ==> lex_less(#[trigger] menu@[a].0@, cat@),
        r.1 ==> r.0 < menu@.len() && menu@[r.0 as int].0@ == cat@,
        !r.1 ==> forall|b: int| r.0 <= b < menu@.len() ==> lex_less(cat@, #[trigger] menu@[b].0@),
{
    let mut i: usize = 0;
    while i < menu.len() && lex_less_exec(&menu[i].0, cat)
        invariant
            i <= menu@.len(),
            sorted_categories(menu@),
            forall|a: int| 0 <= a < i ==> lex_less(#[trigger] menu@[a].0@, cat@),
        decreases menu@.len() - i,
    {
        i = i + 1;
    }
    if i < menu.len() && menu[i].0 == *cat {
        return (i, true);
    }
    proof {
        if i < menu@.len() {
            lemma_lex_total(cat@, menu@[i as int].0@);
            assert forall|b: int| i <= b < menu@.len() implies lex_less(
                cat@,
                #[trigger] menu@[b].0@,
            ) by {
                if b > i {
                    lemma_lex_transitive(cat@, menu@[i as int].0@, menu@[b].0@);
                }
            }
        }
    }
    (i, false)
}

/// Adds `element` under `category`, creating the category when it is
/// missing; with `dedupe`, an entry already listed there is not added again.
pub fn push_menu_element(
    menu: &mut Menu,
    category: &str,
    element: ActixAdminMenuElement,
    dedupe: bool,
)
    requires
        sorted_categories(old(menu)@),
    ensures
        menu_added(old(menu)@, final(menu)@, category@, element@, dedupe),
{
    let ghost e = element;
    let cat = String::from_str(category);
    let (i, found) = locate_category(menu, &cat);
    proof {
        lemma_sorted_unique(menu@);
    }
    let ghost before = menu@;
    if found {
        proof {
            lemma_assoc_entry(before, i as int);
        }
        let (key, mut list) = menu.remove(i);
        if !dedupe || !contains_element(&list, &element) {
            list.push(element);
        }
        let ghost new_list = list;
        menu.insert(i, (key, list));
        assert(menu@ =~= before.update(i as int, (before[i as int].0, new_list)));
        proof {
            lemma_assoc_update(before, i as int, new_list);
            assert(assoc_map(before).insert(category@, new_list).remove(category@)
                =~= assoc_map(before).remove(category@));
            assert(elements_view(new_list@) =~= added_view(
                category_view(before, category@),
                e@,
                dedupe,
            ));
        }
    } else {
        let mut list: Vec<ActixAdminMenuElement> = Vec::new();
        list.push(element);
        let ghost new_list = list;
        proof {
            assert(!has_key(before, cat@)) by {
                if has_key(before, cat@) {
                    lemma_lex_irreflexive(cat@);
                }
            }
            lemma_assoc_insert_at(before, i as int, cat, new_list);
            assert(list@ =~= Seq::<ActixAdminMenuElement>::empty().push(element));
            assert(assoc_map(before).insert(category@, new_list).remove(category@)
                =~= assoc_map(before).remove(category@));
            assert(elements_view(new_list@) =~= added_view(
                category_view(before, category@),
                e@,
                dedupe,
            ));
        }
        menu.insert(i, (cat, list));
        assert forall|a: int, b: int| 0 <= a < b < menu@.len() implies lex_less(
            menu@[a].0@,
            menu@[b].0@,
        ) by {
            if a < i && b < i {
            } else if a < i && b == i {
            } else if a < i {
                lemma_lex_transitive(menu@[a].0@, cat@, menu@[b].0@);
            } else if a == i {
            } else {
                assert(menu@[a] == before[a - 1]);
                assert(menu@[b] == before[b - 1]);
            }
        }
    }
}

/// Adds `element` to an existing `category` when it is not listed there
/// yet; leaves the menu unchanged otherwise.
pub fn push_to_existing_category(menu: &mut Menu, category: &str, element: ActixAdminMenuElement)
    requires
        sorted_categories(old(menu)@),
    ensures
        sorted_categories(final(menu)@),
        if assoc_map(old(menu)@).contains_key(category@) && !category_view(
            old(menu)@,
            category@,
        ).contains(element@) {
            menu_added(old(menu)@, final(menu)@, category@, element@, false)
        } else {
            final(menu)@ == old(menu)@
        },
{
    let cat = String::from_str(category);
    let (i, found) = locate_category(menu, &cat);
    proof {
        lemma_sorted_unique(menu@);
    }
    let ghost before = menu@;
    if found {
        proof {
            lemma_assoc_entry(before, i as int);
        }
        if !contains_element(&menu[i].1, &element) {
            let (key, mut list) = menu.remove(i);
            list.push(element);
            let ghost new_list = list;
            menu.insert(i, (key, list));
            assert(menu@ =~= before.update(i as int, (before[i as int].0, new_list)));
            proof {
                lemma_assoc_update(before, i as int, new_list);
                lemma_assoc_entry(menu@, i as int);
                assert(assoc_map(before).insert(category@, new_list).remove(category@)
                    =~= assoc_map(before).remove(category@));
                assert(elements_view(new_list@) =~= added_view(
                    category_view(before, category@),
                    element@,
                    false,
                ));
            }
        }
    } else {
        proof {
            if has_key(before, cat@) {
                let j = key_index(before, cat@);
                lemma_lex_irreflexive(cat@);
            }
        }
    }
}

} // verus!
