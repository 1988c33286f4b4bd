//! The builder that collects entities, custom handlers, card grids and menu
//! entries, and hands out the route plan of the admin interface.

use vstd::prelude::*;

use crate::keyed::{assoc_map, insert_value, remove_value, unique_keys};
use crate::menu::{
    menu_added, push_menu_element, push_to_existing_category, sorted_categories,
    ActixAdminMenuElement, Menu,
};
use crate::text::{concat3, lex_less, remove_all, remove_all_exec, remove_first, remove_first_exec};
use crate::view_model::{ActixAdminBulkAction, ActixAdminViewModel};

verus! {

/// The HTTP method that a route answers.
#[derive(Clone, Copy, Debug, PartialEq, Eq, Structural)]
pub enum HttpMethod {
    Get,
    Post,
    Delete,
    Any,
}

/// The library's own pages and actions.
#[derive(Clone, Copy, Debug, PartialEq, Eq, Structural)]
pub enum Endpoint {
    Index,
    NotFound,
    List,
    ExportCsv,
    Search,
    CreateGet,
    CreatePost,
    EditGet,
    EditPost,
    DeleteMany,
    Delete,
    Show,
    Download,
    DeleteFile,
    BulkAction,
    CardGrid,
}

/// What answers a route: one of the library's endpoints under a method, or
/// a handler that the user registered.
pub enum RouteHandler<H> {
    Builtin(HttpMethod, Endpoint),
    Custom(H),
}

/// A path and what answers it.
pub struct Route<H> {
    pub path: String,
    pub handler: RouteHandler<H>,
}

impl<H> View for Route<H> {
    type V = (Seq<char>, RouteHandler<H>);

    open spec fn view(&self) -> (Seq<char>, RouteHandler<H>) {
        (self.path@, self.handler)
    }
}

/// A list of routes, each as (path, handler).
pub open spec fn routes_view<H>(v: Seq<Route<H>>) -> Seq<(Seq<char>, RouteHandler<H>)> {
    v.map_values(|r: Route<H>| r@)
}

/// The settings of the admin interface.
#[derive(Debug)]
pub struct ActixAdminConfiguration {
    pub enable_auth: bool,
    pub login_link: Option<String>,
    pub logout_link: Option<String>,
    pub file_upload_directory: String,
    pub navbar_title: String,
    pub base_path: String,
    pub custom_css_paths: Option<Vec<String>>,
    pub custom_js_paths: Option<Vec<String>>,
    pub enable_csrf: bool,
}

/// What the admin pages are rendered from: the menu, the entities, the card
/// grids, the settings and the path of the support page.
pub struct ActixAdmin {
    pub entity_names: Menu,
    pub view_models: Vec<(String, ActixAdminViewModel)>,
    pub card_grids: Vec<(String, Vec<Vec<String>>)>,
    pub configuration: ActixAdminConfiguration,
    pub support_path: Option<String>,
}

impl ActixAdmin {
    /// The menu is sorted by category and no entity or card grid is listed
    /// twice.
    pub open spec fn wf(&self) -> bool {
        &&& sorted_categories(self.entity_names@)
        &&& unique_keys(self.view_models@)
        &&& unique_keys(self.card_grids@)
    }
}

/// Each list of strings as the sequence of its strings.
pub open spec fn string_lists_view(v: Seq<Vec<String>>) -> Seq<Seq<String>> {
    v.map_values(|l: Vec<String>| l@)
}

/// An optional list of strings as an optional sequence.
pub open spec fn opt_strings_view(o: Option<Vec<String>>) -> Option<Seq<String>> {
    match o {
        Some(v) => Some(v@),
        None => None,
    }
}

/// The settings, with their lists as sequences.
pub open spec fn configuration_view(c: ActixAdminConfiguration) -> (
    bool,
    Option<String>,
    Option<String>,
    String,
    String,
    String,
    Option<Seq<String>>,
    Option<Seq<String>>,
    bool,
) {
    (
        c.enable_auth,
        c.login_link,
        c.logout_link,
        c.file_upload_directory,
        c.navbar_title,
        c.base_path,
        opt_strings_view(c.custom_css_paths),
        opt_strings_view(c.custom_js_paths),
        c.enable_csrf,
    )
}

/// Whether `a` and `b` hold the same menu, entities, card grids, settings
/// and support path.
pub open spec fn same_admin(a: ActixAdmin, b: ActixAdmin) -> bool {
    &&& a.entity_names@.len() == b.entity_names@.len()
    &&& forall|i: int|
        0 <= i < a.entity_names@.len() ==> (#[trigger] a.entity_names@[i]).0 == b.entity_names@[i].0
            && a.entity_names@[i].1@ == b.entity_names@[i].1@
    &&& a.view_models@.len() == b.view_models@.len()
    &&& forall|i: int|
        0 <= i < a.view_models@.len() ==> (#[trigger] a.view_models@[i]).0 == b.view_models@[i].0
            && a.view_models@[i].1@ == b.view_models@[i].1@
    &&& a.card_grids@.len() == b.card_grids@.len()
    &&& forall|i: int|
        0 <= i < a.card_grids@.len() ==> (#[trigger] a.card_grids@[i]).0 == b.card_grids@[i].0
            && string_lists_view(a.card_grids@[i].1@) == string_lists_view(b.card_grids@[i].1@)
    &&& configuration_view(a.configuration) == configuration_view(b.configuration)
    &&& a.support_path == b.support_path
}

/// A copy of a list of strings.
fn clone_strings(v: &Vec<String>) -> (r: Vec<String>)
    ensures
        r@ == v@,
{
    let mut out: Vec<String> = Vec::new();
    let mut i: usize = 0;
    while i < v.len()
        invariant
            i <= v@.len(),
            out@ == v@.take(i as int),
        decreases v@.len() - i,
    {
        out.push(v[i].clone());
        i = i + 1;
        assert(out@ =~= v@.take(i as int));
    }
    assert(v@.take(v@.len() as int) =~= v@);
    out
}

/// A copy of an optional list of strings.
fn clone_opt_strings(o: &Option<Vec<String>>) -> (r: Option<Vec<String>>)
    ensures
        opt_strings_view(r) == opt_strings_view(*o),
{
    match o {
        Some(v) => Some(clone_strings(v)),
        None => None,
    }
}

impl ActixAdminConfiguration {
    /// A copy of the settings.
    pub fn clone_configuration(&self) -> (r: ActixAdminConfiguration)
        ensures
            configuration_view(r) == configuration_view(*self),
    {
        ActixAdminConfiguration {
            enable_auth: self.enable_auth,
            login_link: crate::view_model::clone_opt_string(&self.login_link),
            logout_link: crate::view_model::clone_opt_string(&self.logout_link),
            file_upload_directory: self.file_upload_directory.clone(),
            navbar_title: self.navbar_title.clone(),
            base_path: self.base_path.clone(),
            custom_css_paths: clone_opt_strings(&self.custom_css_paths),
            custom_js_paths: clone_opt_strings(&self.custom_js_paths),
            enable_csrf: self.enable_csrf,
        }
    }
}

impl ActixAdmin {
    /// A copy of everything the admin pages are rendered from.
    pub fn clone_admin(&self) -> (r: ActixAdmin)
        ensures
            same_admin(r, *self),
            self.wf() ==> r.wf(),
    {
        let mut menu: Menu = Vec::new();
        let mut i: usize = 0;
        while i < self.entity_names.len()
            invariant
                i <= self.entity_names@.len(),
                menu@.len() == i,
                forall|j: int|
                    0 <= j < i ==> (#[trigger] menu@[j]).0 == self.entity_names@[j].0
                        && menu@[j].1@ == self.entity_names@[j].1@,
            decreases self.entity_names@.len() - i,
        {
            let list = self.entity_names[i].1.clone();
            assert(list@ =~= self.entity_names@[i as int].1@);
            menu.push((self.entity_names[i].0.clone(), list));
            i = i + 1;
        }
        let mut view_models: Vec<(String, ActixAdminViewModel)> = Vec::new();
        let mut i: usize = 0;
        while i < self.view_models.len()
            invariant
                i <= self.view_models@.len(),
                view_models@.len() == i,
                forall|j: int|
                    0 <= j < i ==> (#[trigger] view_models@[j]).0 == self.view_models@[j].0
                        && view_models@[j].1@ == self.view_models@[j].1@,
            decreases self.view_models@.len() - i,
        {
            view_models.push((self.view_models[i].0.clone(), self.view_models[i].1.clone()));
            i = i + 1;
        }
        let mut card_grids: Vec<(String, Vec<Vec<String>>)> = Vec::new();
        let mut i: usize = 0;
        while i < self.card_grids.len()
            invariant
                i <= self.card_grids@.len(),
                card_grids@.len() == i,
                forall|j: int|
                    0 <= j < i ==> (#[trigger] card_grids@[j]).0 == self.card_grids@[j].0
                        && string_lists_view(card_grids@[j].1@) == string_lists_view(
                        self.card_grids@[j].1@,
                    ),
            decreases self.card_grids@.len() - i,
        {
            let grid = &self.card_grids[i].1;
            let mut copy: Vec<Vec<String>> = Vec::new();
            let mut k: usize = 0;
            while k < grid.len()
                invariant
                    k <= grid@.len(),
                    copy@.len() == k,
                    forall|j: int| 0 <= j < k ==> (#[trigger] copy@[j])@ == grid@[j]@,
                decreases grid@.len() - k,
            {
                let c = clone_strings(&grid[k]);
                copy.push(c);
                k = k + 1;
            }
            assert(string_lists_view(copy@) =~= string_lists_view(grid@));
            card_grids.push((self.card_grids[i].0.clone(), copy));
            i = i + 1;
        }
        let r = ActixAdmin {
            entity_names: menu,
            view_models,
            card_grids,
            configuration: self.configuration.clone_configuration(),
            support_path: crate::view_model::clone_opt_string(&self.support_path),
        };
        proof {
            if self.wf() {
                assert forall|a: int, b: int| 0 <= a < b < r.entity_names@.len() implies lex_less(
                    r.entity_names@[a].0@,
                    r.entity_names@[b].0@,
                ) by {
                    assert(r.entity_names@[a].0 == self.entity_names@[a].0);
                    assert(r.entity_names@[b].0 == self.entity_names@[b].0);
                }
                assert forall|a: int, b: int| 0 <= a < b < r.view_models@.len() implies r.view_models@[a].0@
                    != r.view_models@[b].0@ by {
                    assert(r.view_models@[a].0 == self.view_models@[a].0);
                    assert(r.view_models@[b].0 == self.view_models@[b].0);
                }
                assert forall|a: int, b: int| 0 <= a < b < r.card_grids@.len() implies r.card_grids@[a].0@
                    != r.card_grids@[b].0@ by {
                    assert(r.card_grids@[a].0 == self.card_grids@[a].0);
                    assert(r.card_grids@[b].0 == self.card_grids@[b].0);
                }
            }
        }
        r
    }
}

/// Collects the configuration of the admin interface.
pub struct ActixAdminBuilder<H> {
    pub scopes: Vec<(String, Vec<Route<H>>)>,
    pub custom_routes: Vec<Route<H>>,
    pub actix_admin: ActixAdmin,
    pub custom_index: Option<H>,
}

/// The path `/{entity}{suffix}`.
pub open spec fn entity_path(entity: Seq<char>, suffix: Seq<char>) -> Seq<char> {
    "/"@ + entity + suffix
}

/// The routes that an entity gets when it is added.
pub open spec fn entity_routes<H>(e: Seq<char>) -> Seq<(Seq<char>, RouteHandler<H>)> {
    seq![
        (entity_path(e, "/list"@), RouteHandler::Builtin(HttpMethod::Get, Endpoint::List)),
        (entity_path(e, "/export_csv"@), RouteHandler::Builtin(HttpMethod::Get, Endpoint::ExportCsv)),
        (entity_path(e, "/search"@), RouteHandler::Builtin(HttpMethod::Get, Endpoint::Search)),
        (entity_path(e, "/create"@), RouteHandler::Builtin(HttpMethod::Get, Endpoint::CreateGet)),
        (entity_path(e, "/create"@), RouteHandler::Builtin(HttpMethod::Post, Endpoint::CreatePost)),
        (entity_path(e, "/edit/{id}"@), RouteHandler::Builtin(HttpMethod::Get, Endpoint::EditGet)),
        (entity_path(e, "/edit/{id}"@), RouteHandler::Builtin(HttpMethod::Post, Endpoint::EditPost)),
        (entity_path(e, "/delete"@), RouteHandler::Builtin(HttpMethod::Delete, Endpoint::DeleteMany)),
        (entity_path(e, "/delete/{id}"@), RouteHandler::Builtin(HttpMethod::Delete, Endpoint::Delete)),
        (entity_path(e, "/show/{id}"@), RouteHandler::Builtin(HttpMethod::Get, Endpoint::Show)),
        (
            entity_path(e, "/file/{id}/{column_name}"@),
            RouteHandler::Builtin(HttpMethod::Get, Endpoint::Download),
        ),
        (
            entity_path(e, "/file/{id}/{column_name}"@),
            RouteHandler::Builtin(HttpMethod::Delete, Endpoint::DeleteFile),
        ),
    ]
}

/// The routes registered under entity `e`, none when it has no scope.
pub open spec fn scope_routes<H>(scopes: Seq<(String, Vec<Route<H>>)>, e: Seq<char>) -> Seq<
    (Seq<char>, RouteHandler<H>),
> {
    if assoc_map(scopes).contains_key(e) {
        routes_view(assoc_map(scopes)[e]@)
    } else {
        Seq::empty()
    }
}

/// `new` holds what `old` holds, except that entity `e` has the routes `r`.
pub open spec fn scope_set<H>(
    old: Seq<(String, Vec<Route<H>>)>,
    new: Seq<(String, Vec<Route<H>>)>,
    e: Seq<char>,
    r: Seq<(Seq<char>, RouteHandler<H>)>,
) -> bool {
    &&& unique_keys(new)
    &&& assoc_map(new).contains_key(e)
    &&& routes_view(assoc_map(new)[e]@) == r
    &&& assoc_map(new).remove(e) == assoc_map(old).remove(e)
}

/// The menu entry of an entity: its name, linking to its own pages.
pub open spec fn entity_menu_entry(e: Seq<char>) -> (Seq<char>, Seq<char>, bool) {
    (e, e, false)
}

/// The menu entry of a custom page at `path`: the link is the path without
/// its first `/`.
pub open spec fn custom_menu_entry(name: Seq<char>, path: Seq<char>) -> (Seq<char>, Seq<char>, bool) {
    (name, remove_first(path, "/"@), true)
}

/// The key under which a card grid registered at `path` is stored: the path
/// without any `/`.
pub open spec fn card_grid_key(path: Seq<char>) -> Seq<char> {
    remove_all(path, "/"@)
}

/// The menu entry of a custom handler registered for entity `e` at `path`:
/// its link is the entity's name followed by the path.
pub open spec fn entity_custom_menu_entry(name: Seq<char>, e: Seq<char>, path: Seq<char>) -> (
    Seq<char>,
    Seq<char>,
    bool,
) {
    (name, e + path, true)
}

/// The route of the bulk actions of entity `e`.
pub open spec fn bulk_action_route<H>(e: Seq<char>) -> (Seq<char>, RouteHandler<H>) {
    (entity_path(e, "/action/{name}"@), RouteHandler::Builtin(HttpMethod::Post, Endpoint::BulkAction))
}

/// What a bulk action does to the scopes: the first action of entity `e`
/// (`had_actions` false) adds its action route; later ones change nothing.
pub open spec fn bulk_action_scopes<H>(
    old: Seq<(String, Vec<Route<H>>)>,
    new: Seq<(String, Vec<Route<H>>)>,
    e: Seq<char>,
    had_actions: bool,
) -> bool {
    if had_actions {
        new == old
    } else {
        scope_set(old, new, e, scope_routes(old, e).push(bulk_action_route::<H>(e)))
    }
}

/// However many bulk actions an entity gets, its action route is registered
/// once: after a first and a second action, its routes are those it had
/// before with the action route added a single time.
pub proof fn law_bulk_action_route_registered_once<H>(
    s0: Seq<(String, Vec<Route<H>>)>,
    s1: Seq<(String, Vec<Route<H>>)>,
    s2: Seq<(String, Vec<Route<H>>)>,
    e: Seq<char>,
)
    requires
        bulk_action_scopes(s0, s1, e, false),
        bulk_action_scopes(s1, s2, e, true),
    ensures
        scope_routes(s2, e) == scope_routes(s0, e).push(bulk_action_route::<H>(e)),
        scope_routes(s2, e) == scope_routes(s0, e).push(
            ("/"@ + e + "/action/{name}"@, RouteHandler::Builtin(HttpMethod::Post, Endpoint::BulkAction)),
        ),
        assoc_map(s2).remove(e) == assoc_map(s0).remove(e),
{
}

/// The first bulk action of an entity adds, at the end of its scope, the
/// route `/{entity}/action/{name}` answering POST with the bulk-action
/// endpoint.
pub proof fn law_bulk_action_route_answers_post<H>(
    s0: Seq<(String, Vec<Route<H>>)>,
    s1: Seq<(String, Vec<Route<H>>)>,
    e: Seq<char>,
)
    requires
        bulk_action_scopes(s0, s1, e, false),
    ensures
        scope_routes(s1, e).len() == scope_routes(s0, e).len() + 1,
        scope_routes(s1, e).last() == ("/"@ + e + "/action/{name}"@, RouteHandler::<H>::Builtin(
            HttpMethod::Post,
            Endpoint::BulkAction,
        )),
        forall|i: int|
            0 <= i < scope_routes(s0, e).len() ==> scope_routes(s1, e)[i] == scope_routes(s0, e)[i],
{
}

/// `/{e}{a}` and `/{e}{b}` are the same path only when `a` and `b` are.
pub proof fn lemma_entity_path_injective(e: Seq<char>, a: Seq<char>, b: Seq<char>)
    requires
        entity_path(e, a) == entity_path(e, b),
    ensures
        a == b,
{
    reveal_strlit("/");
    let n = 1 + e.len();
    assert(entity_path(e, a).skip(n as int) =~= a);
    assert(entity_path(e, b).skip(n as int) =~= b);
}

/// The route table of an added entity serves its files at
/// `/{entity}/file/{id}/{column_name}` with exactly GET to the download and
/// DELETE to the file removal, and deletes whole rows only at
/// `/{entity}/delete/{id}`.
pub proof fn law_entity_file_and_row_routes<H>(e: Seq<char>)
    ensures
        ({
            let r = entity_routes::<H>(e);
            let file = "/"@ + e + "/file/{id}/{column_name}"@;
            &&& exists|i: int|
                0 <= i < r.len() && r[i] == (file, RouteHandler::<H>::Builtin(
                    HttpMethod::Get,
                    Endpoint::Download,
                ))
            &&& exists|i: int|
                0 <= i < r.len() && r[i] == (file, RouteHandler::<H>::Builtin(
                    HttpMethod::Delete,
                    Endpoint::DeleteFile,
                ))
            &&& forall|i: int|
                0 <= i < r.len() && r[i].0 == file ==> r[i].1 == RouteHandler::<H>::Builtin(
                    HttpMethod::Get,
                    Endpoint::Download,
                ) || r[i].1 == RouteHandler::<H>::Builtin(HttpMethod::Delete, Endpoint::DeleteFile)
            &&& forall|i: int|
                0 <= i < r.len() && r[i].1 == RouteHandler::<H>::Builtin(
                    HttpMethod::Delete,
                    Endpoint::Delete,
                ) ==> r[i].0 == "/"@ + e + "/delete/{id}"@
        }),
{
    let r = entity_routes::<H>(e);
    let file = "/"@ + e + "/file/{id}/{column_name}"@;
    reveal_strlit("/file/{id}/{column_name}");
    reveal_strlit("/list");
    reveal_strlit("/export_csv");
    reveal_strlit("/search");
    reveal_strlit("/create");
    reveal_strlit("/edit/{id}");
    reveal_strlit("/delete");
    reveal_strlit("/delete/{id}");
    reveal_strlit("/show/{id}");
    assert(r[10] == (file, RouteHandler::<H>::Builtin(HttpMethod::Get, Endpoint::Download)));
    assert(r[11] == (file, RouteHandler::<H>::Builtin(HttpMethod::Delete, Endpoint::DeleteFile)));
    assert forall|i: int| 0 <= i < r.len() && r[i].0 == file implies r[i].1
        == RouteHandler::<H>::Builtin(HttpMethod::Get, Endpoint::Download) || r[i].1
        == RouteHandler::<H>::Builtin(HttpMethod::Delete, Endpoint::DeleteFile) by {
        if i < 10 {
            let suffix = if i == 0 {
                "/list"@
            } else if i == 1 {
                "/export_csv"@
            } else if i == 2 {
                "/search"@
            } else if i <= 4 {
                "/create"@
            } else if i <= 6 {
                "/edit/{id}"@
            } else if i == 7 {
                "/delete"@
            } else if i == 8 {
                "/delete/{id}"@
            } else {
                "/show/{id}"@
            };
            assert(r[i].0 == entity_path(e, suffix));
            lemma_entity_path_injective(e, suffix, "/file/{id}/{column_name}"@);
            assert(suffix.len() != "/file/{id}/{column_name}"@.len());
        }
    }
}

/// How the admin router is assembled: the index answers `{base_path}/`, the
/// bare `{base_path}` and every unknown path or method are answered by the
/// not-found page, and the routes of the scopes and the custom routes are
/// nested under `{base_path}/`.
pub struct AdminRouterPlan<H> {
    pub base_path: String,
    pub nest_path: String,
    pub index: RouteHandler<H>,
    pub scopes: Vec<(String, Vec<Route<H>>)>,
    pub custom_routes: Vec<Route<H>>,
}

/// A route of one of the library's endpoints at `/{entity}{suffix}`.
fn builtin_route<H>(entity: &String, suffix: &str, method: HttpMethod, endpoint: Endpoint) -> (r:
    Route<H>)
    ensures
        r@ == (entity_path(entity@, suffix@), RouteHandler::<H>::Builtin(method, endpoint)),
{
    Route { path: concat3("/", entity.as_str(), suffix), handler: RouteHandler::Builtin(method, endpoint) }
}

/// The routes of entity `e`.
fn entity_route_table<H>(e: &String) -> (r: Vec<Route<H>>)
    ensures
        routes_view(r@) == entity_routes::<H>(e@),
{
    let mut v: Vec<Route<H>> = Vec::new();
    v.push(builtin_route(e, "/list", HttpMethod::Get, Endpoint::List));
    v.push(builtin_route(e, "/export_csv", HttpMethod::Get, Endpoint::ExportCsv));
    v.push(builtin_route(e, "/search", HttpMethod::Get, Endpoint::Search));
    v.push(builtin_route(e, "/create", HttpMethod::Get, Endpoint::CreateGet));
    v.push(builtin_route(e, "/create", HttpMethod::Post, Endpoint::CreatePost));
    v.push(builtin_route(e, "/edit/{id}", HttpMethod::Get, Endpoint::EditGet));
    v.push(builtin_route(e, "/edit/{id}", HttpMethod::Post, Endpoint::EditPost));
    v.push(builtin_route(e, "/delete", HttpMethod::Delete, Endpoint::DeleteMany));
    v.push(builtin_route(e, "/delete/{id}", HttpMethod::Delete, Endpoint::Delete));
    v.push(builtin_route(e, "/show/{id}", HttpMethod::Get, Endpoint::Show));
    v.push(builtin_route(e, "/file/{id}/{column_name}", HttpMethod::Get, Endpoint::Download));
    v.push(builtin_route(e, "/file/{id}/{column_name}", HttpMethod::Delete, Endpoint::DeleteFile));
    assert(routes_view(v@) =~= entity_routes::<H>(e@));
    v
}

impl<H> ActixAdminBuilder<H> {
    /// The scopes do not repeat an entity and the admin state is well formed.
    pub open spec fn wf(&self) -> bool {
        &&& unique_keys(self.scopes@)
        &&& self.actix_admin.wf()
    }

    /// A builder with nothing registered yet.
    pub fn new(configuration: ActixAdminConfiguration) -> (b: Self)
        ensures
            b.wf(),
            b.scopes@.len() == 0,
            b.custom_routes@.len() == 0,
            b.custom_index is None,
            b.actix_admin.entity_names@.len() == 0,
            b.actix_admin.view_models@.len() == 0,
            b.actix_admin.card_grids@.len() == 0,
            b.actix_admin.configuration == configuration,
            b.actix_admin.support_path is None,
    {
        ActixAdminBuilder {
            actix_admin: ActixAdmin {
                entity_names: Vec::new(),
                view_models: Vec::new(),
                card_grids: Vec::new(),
                configuration,
                support_path: None,
            },
            custom_routes: Vec::new(),
            scopes: Vec::new(),
            custom_index: None,
        }
    }

    /// Adds an entity outside any category.
    pub fn add_entity(&mut self, view_model: &ActixAdminViewModel)
        requires
            old(self).wf(),
        ensures
            final(self).wf(),
            scope_set(
                old(self).scopes@,
                final(self).scopes@,
                view_model.entity_name@,
                entity_routes::<H>(view_model.entity_name@),
            ),
            menu_added(
                old(self).actix_admin.entity_names@,
                final(self).actix_admin.entity_names@,
                ""@,
                entity_menu_entry(view_model.entity_name@),
                false,
            ),
            assoc_map(final(self).actix_admin.view_models@).contains_key(view_model.entity_name@),
            assoc_map(final(self).actix_admin.view_models@)[view_model.entity_name@]@
                == view_model@,
            assoc_map(final(self).actix_admin.view_models@).remove(view_model.entity_name@)
                == assoc_map(old(self).actix_admin.view_models@).remove(view_model.entity_name@),
            final(self).custom_routes == old(self).custom_routes,
            final(self).custom_index == old(self).custom_index,
            final(self).actix_admin.card_grids == old(self).actix_admin.card_grids,
            final(self).actix_admin.configuration == old(self).actix_admin.configuration,
            final(self).actix_admin.support_path == old(self).actix_admin.support_path,
    {
        self.add_entity_to_category(view_model, "");
    }

    /// Adds an entity: its routes replace any that it had, it is listed in
    /// the menu under `category_name`, and its view model is stored.
    pub fn add_entity_to_category(&mut self, view_model: &ActixAdminViewModel, category_name: &str)
        requires
            old(self).wf(),
        ensures
            final(self).wf(),
            scope_set(
                old(self).scopes@,
                final(self).scopes@,
                view_model.entity_name@,
                entity_routes::<H>(view_model.entity_name@),
            ),
            menu_added(
                old(self).actix_admin.entity_names@,
                final(self).actix_admin.entity_names@,
                category_name@,
                entity_menu_entry(view_model.entity_name@),
                false,
            ),
            assoc_map(final(self).actix_admin.view_models@).contains_key(view_model.entity_name@),
            assoc_map(final(self).actix_admin.view_models@)[view_model.entity_name@]@
                == view_model@,
            assoc_map(final(self).actix_admin.view_models@).remove(view_model.entity_name@)
                == assoc_map(old(self).actix_admin.view_models@).remove(view_model.entity_name@),
            final(self).custom_routes == old(self).custom_routes,
            final(self).custom_index == old(self).custom_index,
            final(self).actix_admin.card_grids == old(self).actix_admin.card_grids,
            final(self).actix_admin.configuration == old(self).actix_admin.configuration,
            final(self).actix_admin.support_path == old(self).actix_admin.support_path,
    {
        let e = view_model.entity_name.clone();
        let routes = entity_route_table::<H>(&e);
        insert_value(&mut self.scopes, e.clone(), routes);
        proof {
            assert(assoc_map(self.scopes@).remove(e@) =~= assoc_map(old(self).scopes@).remove(e@));
        }
        let element = ActixAdminMenuElement {
            name: e.clone(),
            link: e.clone(),
            is_custom_handler: false,
        };
        push_menu_element(&mut self.actix_admin.entity_names, category_name, element, false);
        let vm = view_model.clone();
        insert_value(&mut self.actix_admin.view_models, e, vm);
        proof {
            assert(assoc_map(self.actix_admin.view_models@).remove(view_model.entity_name@)
                =~= assoc_map(old(self).actix_admin.view_models@).remove(view_model.entity_name@));
        }
    }

    /// Serves the index page with `route` instead of the library's own.
    pub fn add_custom_handler_for_index(&mut self, route: H)
        ensures
            final(self).custom_index == Some(route),
            final(self).scopes == old(self).scopes,
            final(self).custom_routes == old(self).custom_routes,
            final(self).actix_admin == old(self).actix_admin,
    {
        self.custom_index = Some(route);
    }
    /// Registers a bulk action on a registered entity; the first action of
    /// the entity also registers its `/{entity}/action/{name}` route.
    pub fn add_bulk_action_for_entity(&mut self, entity_name: &str, action: ActixAdminBulkAction)
        requires
            old(self).wf(),
            assoc_map(old(self).actix_admin.view_models@).contains_key(entity_name@),
        ensures
            final(self).wf(),
            assoc_map(final(self).actix_admin.view_models@).contains_key(entity_name@),
            ({
                let nv = assoc_map(final(self).actix_admin.view_models@)[entity_name@];
                let ov = assoc_map(old(self).actix_admin.view_models@)[entity_name@];
                &&& nv.entity_name == ov.entity_name
                &&& nv.primary_key == ov.primary_key
                &&& nv.fields == ov.fields
                &&& nv.inline_edit == ov.inline_edit
                &&& nv.bulk_actions@ == ov.bulk_actions@.push(action)
            }),
            assoc_map(final(self).actix_admin.view_models@).remove(entity_name@) == assoc_map(
                old(self).actix_admin.view_models@,
            ).remove(entity_name@),
            bulk_action_scopes(
                old(self).scopes@,
                final(self).scopes@,
                entity_name@,
                assoc_map(old(self).actix_admin.view_models@)[entity_name@].bulk_actions@.len()
                    > 0,
            ),
            final(self).custom_routes == old(self).custom_routes,
            final(self).custom_index == old(self).custom_index,
            final(self).actix_admin.entity_names == old(self).actix_admin.entity_names,
            final(self).actix_admin.card_grids == old(self).actix_admin.card_grids,
            final(self).actix_admin.configuration == old(self).actix_admin.configuration,
            final(self).actix_admin.support_path == old(self).actix_admin.support_path,
    {
        let e = String::from_str(entity_name);
        let ghost old_vms = assoc_map(self.actix_admin.view_models@);
        let removed = remove_value(&mut self.actix_admin.view_models, &e);
        let mut vm = removed.unwrap();
        let is_first = vm.bulk_actions.len() == 0;
        vm.bulk_actions.push(action);
        insert_value(&mut self.actix_admin.view_models, e.clone(), vm);
        proof {
            assert(assoc_map(self.actix_admin.view_models@).remove(e@) =~= old_vms.remove(e@));
        }
        if is_first {
            let ghost old_scopes = self.scopes@;
            let scope = remove_value(&mut self.scopes, &e);
            let mut routes: Vec<Route<H>> = match scope {
                Some(r) => r,
                None => Vec::new(),
            };
            let ghost before_push = routes@;
            routes.push(builtin_route(&e, "/action/{name}", HttpMethod::Post, Endpoint::BulkAction));
            proof {
                assert(routes_view(routes@) =~= routes_view(before_push).push(
                    bulk_action_route::<H>(e@),
                ));
                assert(routes_view(before_push) == scope_routes(old_scopes, e@));
            }
            insert_value(&mut self.scopes, e.clone(), routes);
            proof {
                assert(assoc_map(self.scopes@).remove(e@) =~= assoc_map(old_scopes).remove(e@));
            }
        }
    }

    /// Registers a custom route at `path`; with `add_to_menu`, it is also
    /// listed under `category_name`, once.
    pub fn add_custom_handler_to_category(
        &mut self,
        menu_element_name: &str,
        path: &str,
        route: H,
        add_to_menu: bool,
        category_name: &str,
    )
        requires
            old(self).wf(),
        ensures
            final(self).wf(),
            routes_view(final(self).custom_routes@) == routes_view(old(self).custom_routes@).push(
                (path@, RouteHandler::Custom(route)),
            ),
            if add_to_menu {
                menu_added(
                    old(self).actix_admin.entity_names@,
                    final(self).actix_admin.entity_names@,
                    category_name@,
                    custom_menu_entry(menu_element_name@, path@),
                    true,
                )
            } else {
                final(self).actix_admin.entity_names == old(self).actix_admin.entity_names
            },
            final(self).scopes == old(self).scopes,
            final(self).custom_index == old(self).custom_index,
            final(self).actix_admin.view_models == old(self).actix_admin.view_models,
            final(self).actix_admin.card_grids == old(self).actix_admin.card_grids,
            final(self).actix_admin.configuration == old(self).actix_admin.configuration,
            final(self).actix_admin.support_path == old(self).actix_admin.support_path,
    {
        let ghost before = self.custom_routes@;
        let ghost r = route;
        self.custom_routes.push(Route { path: String::from_str(path), handler: RouteHandler::Custom(route) });
        assert(routes_view(self.custom_routes@) =~= routes_view(before).push(
            (path@, RouteHandler::Custom(r)),
        ));
        if add_to_menu {
            let element = ActixAdminMenuElement {
                name: String::from_str(menu_element_name),
                link: remove_first_exec(path, "/"),
                is_custom_handler: true,
            };
            push_menu_element(&mut self.actix_admin.entity_names, category_name, element, true);
        }
    }

    /// Registers a custom route at `path`, listed in the menu outside any
    /// category when `add_to_menu` holds.
    pub fn add_custom_handler(
        &mut self,
        menu_element_name: &str,
        path: &str,
        route: H,
        add_to_menu: bool,
    )
        requires
            old(self).wf(),
        ensures
            final(self).wf(),
            routes_view(final(self).custom_routes@) == routes_view(old(self).custom_routes@).push(
                (path@, RouteHandler::Custom(route)),
            ),
            if add_to_menu {
                menu_added(
                    old(self).actix_admin.entity_names@,
                    final(self).actix_admin.entity_names@,
                    ""@,
                    custom_menu_entry(menu_element_name@, path@),
                    true,
                )
            } else {
                final(self).actix_admin.entity_names == old(self).actix_admin.entity_names
            },
            final(self).scopes == old(self).scopes,
            final(self).custom_index == old(self).custom_index,
            final(self).actix_admin.view_models == old(self).actix_admin.view_models,
            final(self).actix_admin.card_grids == old(self).actix_admin.card_grids,
            final(self).actix_admin.configuration == old(self).actix_admin.configuration,
            final(self).actix_admin.support_path == old(self).actix_admin.support_path,
    {
        self.add_custom_handler_to_category(menu_element_name, path, route, add_to_menu, "");
    }

    /// Registers a card grid page at `path`: its elements are stored under
    /// the path without `/`, and with `add_to_menu` it is listed under
    /// `category_name`, once.
    pub fn add_card_grid_to_category(
        &mut self,
        menu_element_name: &str,
        path: &str,
        elements: Vec<Vec<String>>,
        add_to_menu: bool,
        category_name: &str,
    )
        requires
            old(self).wf(),
        ensures
            final(self).wf(),
            routes_view(final(self).custom_routes@) == routes_view(old(self).custom_routes@).push(
                (path@, RouteHandler::Builtin(HttpMethod::Get, Endpoint::CardGrid)),
            ),
            assoc_map(final(self).actix_admin.card_grids@) == assoc_map(
                old(self).actix_admin.card_grids@,
            ).insert(card_grid_key(path@), elements),
            if add_to_menu {
                menu_added(
                    old(self).actix_admin.entity_names@,
                    final(self).actix_admin.entity_names@,
                    category_name@,
                    custom_menu_entry(menu_element_name@, path@),
                    true,
                )
            } else {
                final(self).actix_admin.entity_names == old(self).actix_admin.entity_names
            },
            final(self).scopes == old(self).scopes,
            final(self).custom_index == old(self).custom_index,
            final(self).actix_admin.view_models == old(self).actix_admin.view_models,
            final(self).actix_admin.configuration == old(self).actix_admin.configuration,
            final(self).actix_admin.support_path == old(self).actix_admin.support_path,
    {
        let ghost before = self.custom_routes@;
        self.custom_routes.push(
            Route {
                path: String::from_str(path),
                handler: RouteHandler::Builtin(HttpMethod::Get, Endpoint::CardGrid),
            },
        );
        assert(routes_view(self.custom_routes@) =~= routes_view(before).push(
            (path@, RouteHandler::<H>::Builtin(HttpMethod::Get, Endpoint::CardGrid)),
        ));
        let key = remove_all_exec(path, "/");
        insert_value(&mut self.actix_admin.card_grids, key, elements);
        if add_to_menu {
            let element = ActixAdminMenuElement {
                name: String::from_str(menu_element_name),
                link: remove_first_exec(path, "/"),
                is_custom_handler: true,
            };
            push_menu_element(&mut self.actix_admin.entity_names, category_name, element, true);
        }
    }

    /// Registers a card grid page at `path`, listed in the menu outside any
    /// category when `add_to_menu` holds.
    pub fn add_card_grid(
        &mut self,
        menu_element_name: &str,
        path: &str,
        elements: Vec<Vec<String>>,
        add_to_menu: bool,
    )
        requires
            old(self).wf(),
        ensures
            final(self).wf(),
            routes_view(final(self).custom_routes@) == routes_view(old(self).custom_routes@).push(
                (path@, RouteHandler::Builtin(HttpMethod::Get, Endpoint::CardGrid)),
            ),
            assoc_map(final(self).actix_admin.card_grids@) == assoc_map(
                old(self).actix_admin.card_grids@,
            ).insert(card_grid_key(path@), elements),
            if add_to_menu {
                menu_added(
                    old(self).actix_admin.entity_names@,
                    final(self).actix_admin.entity_names@,
                    ""@,
                    custom_menu_entry(menu_element_name@, path@),
                    true,
                )
            } else {
                final(self).actix_admin.entity_names == old(self).actix_admin.entity_names
            },
            final(self).scopes == old(self).scopes,
            final(self).custom_index == old(self).custom_index,
            final(self).actix_admin.view_models == old(self).actix_admin.view_models,
            final(self).actix_admin.configuration == old(self).actix_admin.configuration,
            final(self).actix_admin.support_path == old(self).actix_admin.support_path,
    {
        self.add_card_grid_to_category(menu_element_name, path, elements, add_to_menu, "");
    }

    /// Registers the support page at `arg`; its path without `/` becomes the
    /// support path.
    pub fn add_support_handler(&mut self, arg: &str, support: H)
        requires
            old(self).wf(),
        ensures
            final(self).wf(),
            routes_view(final(self).custom_routes@) == routes_view(old(self).custom_routes@).push(
                (arg@, RouteHandler::Custom(support)),
            ),
            final(self).actix_admin.support_path matches Some(p) && p@ == remove_all(arg@, "/"@),
            final(self).scopes == old(self).scopes,
            final(self).custom_index == old(self).custom_index,
            final(self).actix_admin.entity_names == old(self).actix_admin.entity_names,
            final(self).actix_admin.view_models == old(self).actix_admin.view_models,
            final(self).actix_admin.card_grids == old(self).actix_admin.card_grids,
            final(self).actix_admin.configuration == old(self).actix_admin.configuration,
    {
        let ghost before = self.custom_routes@;
        let ghost r = support;
        self.custom_routes.push(Route { path: String::from_str(arg), handler: RouteHandler::Custom(support) });
        assert(routes_view(self.custom_routes@) =~= routes_view(before).push(
            (arg@, RouteHandler::Custom(r)),
        ));
        self.actix_admin.support_path = Some(remove_all_exec(arg, "/"));
    }

    /// Registers a custom route of entity `entity_name` at
    /// `/{entity_name}{path}`; with `add_to_menu`, it is listed under an
    /// existing `category_name` where it is not listed yet.
    pub fn add_custom_handler_for_entity_in_category(
        &mut self,
        entity_name: &str,
        menu_element_name: &str,
        path: &str,
        route: H,
        category_name: &str,
        add_to_menu: bool,
    )
        requires
            old(self).wf(),
        ensures
            final(self).wf(),
            scope_set(
                old(self).scopes@,
                final(self).scopes@,
                entity_name@,
                scope_routes(old(self).scopes@, entity_name@).push(
                    (entity_path(entity_name@, path@), RouteHandler::Custom(route)),
                ),
            ),
            if add_to_menu && assoc_map(old(self).actix_admin.entity_names@).contains_key(
                category_name@,
            ) && !crate::menu::category_view(old(self).actix_admin.entity_names@, category_name@).contains(
                entity_custom_menu_entry(menu_element_name@, entity_name@, path@),
            ) {
                menu_added(
                    old(self).actix_admin.entity_names@,
                    final(self).actix_admin.entity_names@,
                    category_name@,
                    entity_custom_menu_entry(menu_element_name@, entity_name@, path@),
                    false,
                )
            } else {
                final(self).actix_admin.entity_names@ == old(self).actix_admin.entity_names@
            },
            final(self).custom_routes == old(self).custom_routes,
            final(self).custom_index == old(self).custom_index,
            final(self).actix_admin.view_models == old(self).actix_admin.view_models,
            final(self).actix_admin.card_grids == old(self).actix_admin.card_grids,
            final(self).actix_admin.configuration == old(self).actix_admin.configuration,
            final(self).actix_admin.support_path == old(self).actix_admin.support_path,
    {
        let e = String::from_str(entity_name);
        let mut link = e.clone();
        link.append(path);
        let element = ActixAdminMenuElement {
            name: String::from_str(menu_element_name),
            link,
            is_custom_handler: true,
        };
        let ghost old_scopes = self.scopes@;
        let ghost r = route;
        let scope = remove_value(&mut self.scopes, &e);
        let mut routes: Vec<Route<H>> = match scope {
            Some(rs) => rs,
            None => Vec::new(),
        };
        let ghost before_push = routes@;
        routes.push(Route { path: concat3("/", entity_name, path), handler: RouteHandler::Custom(route) });
        proof {
            assert(routes_view(routes@) =~= routes_view(before_push).push(
                (entity_path(e@, path@), RouteHandler::Custom(r)),
            ));
            assert(routes_view(before_push) == scope_routes(old_scopes, e@));
        }
        insert_value(&mut self.scopes, e, routes);
        proof {
            assert(assoc_map(self.scopes@).remove(entity_name@) =~= assoc_map(old_scopes).remove(
                entity_name@,
            ));
        }
        if add_to_menu {
            push_to_existing_category(&mut self.actix_admin.entity_names, category_name, element);
        }
    }

    /// Registers a custom route of entity `entity_name`, listed in the menu
    /// outside any category when `add_to_menu` holds and that category exists.
    pub fn add_custom_handler_for_entity(
        &mut self,
        entity_name: &str,
        menu_element_name: &str,
        path: &str,
        route: H,
        add_to_menu: bool,
    )
        requires
            old(self).wf(),
        ensures
            final(self).wf(),
            scope_set(
                old(self).scopes@,
                final(self).scopes@,
                entity_name@,
                scope_routes(old(self).scopes@, entity_name@).push(
                    (entity_path(entity_name@, path@), RouteHandler::Custom(route)),
                ),
            ),
            if add_to_menu && assoc_map(old(self).actix_admin.entity_names@).contains_key(""@)
                && !crate::menu::category_view(old(self).actix_admin.entity_names@, ""@).contains(
                entity_custom_menu_entry(menu_element_name@, entity_name@, path@),
            ) {
                menu_added(
                    old(self).actix_admin.entity_names@,
                    final(self).actix_admin.entity_names@,
                    ""@,
                    entity_custom_menu_entry(menu_element_name@, entity_name@, path@),
                    false,
                )
            } else {
                final(self).actix_admin.entity_names@ == old(self).actix_admin.entity_names@
            },
            final(self).custom_routes == old(self).custom_routes,
            final(self).custom_index == old(self).custom_index,
            final(self).actix_admin.view_models == old(self).actix_admin.view_models,
            final(self).actix_admin.card_grids == old(self).actix_admin.card_grids,
            final(self).actix_admin.configuration == old(self).actix_admin.configuration,
            final(self).actix_admin.support_path == old(self).actix_admin.support_path,
    {
        self.add_custom_handler_for_entity_in_category(
            entity_name,
            menu_element_name,
            path,
            route,
            "",
            add_to_menu,
        );
    }

    /// The plan of the admin router: the custom index when one was given,
    /// else the library's; every scope's routes and the custom routes, nested
    /// under `{base_path}/`.
    pub fn get_scope(self) -> (plan: AdminRouterPlan<H>)
        ensures
            plan.base_path@ == self.actix_admin.configuration.base_path@,
            plan.nest_path@ == self.actix_admin.configuration.base_path@ + "/"@,
            plan.index == (match self.custom_index {
                Some(h) => RouteHandler::Custom(h),
                None => RouteHandler::Builtin(HttpMethod::Get, Endpoint::Index),
            }),
            plan.scopes == self.scopes,
            plan.custom_routes == self.custom_routes,
    {
        let index = match self.custom_index {
            Some(h) => RouteHandler::Custom(h),
            None => RouteHandler::Builtin(HttpMethod::Get, Endpoint::Index),
        };
        let base_path = self.actix_admin.configuration.base_path;
        let mut nest_path = base_path.clone();
        nest_path.append("/");
        AdminRouterPlan {
            base_path,
            nest_path,
            index,
            scopes: self.scopes,
            custom_routes: self.custom_routes,
        }
    }

    /// A copy of what the admin pages are rendered from.
    pub fn get_actix_admin(&self) -> (r: ActixAdmin)
        ensures
            self.wf() ==> r.wf(),
            same_admin(r, self.actix_admin),
    {
        self.actix_admin.clone_admin()
    }

    /// The directory where the uploads of entity `entity_name` are stored.
    pub fn upload_directory(&self, entity_name: &str) -> (r: String)
        ensures
            r@ == self.actix_admin.configuration.file_upload_directory@ + "/"@ + entity_name@,
    {
        concat3(self.actix_admin.configuration.file_upload_directory.as_str(), "/", entity_name)
    }
}

/// The builder's constructor and its two results, as a trait, for code that
/// names them through it.
pub trait ActixAdminBuilderTrait<H>: Sized {
    fn new(configuration: ActixAdminConfiguration) -> Self;

    fn get_scope(self) -> AdminRouterPlan<H>;

    fn get_actix_admin(&self) -> ActixAdmin;
}

impl<H> ActixAdminBuilderTrait<H> for ActixAdminBuilder<H> {
    fn new(configuration: ActixAdminConfiguration) -> (b: Self)
        ensures
            b.wf(),
            b.scopes@.len() == 0,
            b.custom_routes@.len() == 0,
            b.custom_index is None,
            b.actix_admin.entity_names@.len() == 0,
            b.actix_admin.view_models@.len() == 0,
            b.actix_admin.card_grids@.len() == 0,
            b.actix_admin.configuration == configuration,
            b.actix_admin.support_path is None,
    {
        ActixAdminBuilder::<H>::new(configuration)
    }

    fn get_scope(self) -> (plan: AdminRouterPlan<H>)
        ensures
            plan.base_path@ == self.actix_admin.configuration.base_path@,
            plan.nest_path@ == self.actix_admin.configuration.base_path@ + "/"@,
            plan.index == (match self.custom_index {
                Some(h) => RouteHandler::Custom(h),
                None => RouteHandler::Builtin(HttpMethod::Get, Endpoint::Index),
            }),
            plan.scopes == self.scopes,
            plan.custom_routes == self.custom_routes,
    {
        ActixAdminBuilder::<H>::get_scope(self)
    }

    fn get_actix_admin(&self) -> (r: ActixAdmin)
        ensures
            self.wf() ==> r.wf(),
            same_admin(r, self.actix_admin),
    {
        ActixAdminBuilder::<H>::get_actix_admin(self)
    }
}

} // verus!
