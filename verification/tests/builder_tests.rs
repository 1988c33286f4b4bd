use actix_admin::builder::{
    ActixAdminBuilder, ActixAdminBuilderTrait, ActixAdminConfiguration, Endpoint, HttpMethod,
    RouteHandler,
};
use actix_admin::card_grid::display_card_grid;
use actix_admin::error::ActixAdminErrorType;
use actix_admin::menu::{push_menu_element, ActixAdminMenuElement, Menu};
use actix_admin::view_model::{
    ActixAdminBulkAction, ActixAdminViewModel, ActixAdminViewModelField,
    ActixAdminViewModelFieldType,
};

fn configuration(enable_csrf: bool) -> ActixAdminConfiguration {
    ActixAdminConfiguration {
        enable_auth: false,
        login_link: None,
        logout_link: None,
        file_upload_directory: "./file_uploads".to_string(),
        navbar_title: "test".to_string(),
        base_path: "/admin".to_string(),
        custom_css_paths: None,
        custom_js_paths: None,
        enable_csrf,
    }
}

fn view_model(name: &str) -> ActixAdminViewModel {
    ActixAdminViewModel {
        entity_name: name.to_string(),
        primary_key: "id".to_string(),
        fields: vec![
            ActixAdminViewModelField {
                field_name: "title".to_string(),
                field_type: ActixAdminViewModelFieldType::Text,
            },
            ActixAdminViewModelField {
                field_name: "cover_image".to_string(),
                field_type: ActixAdminViewModelFieldType::FileUpload,
            },
        ],
        inline_edit: false,
        bulk_actions: Vec::new(),
    }
}

fn scope_paths(b: &ActixAdminBuilder<&'static str>, entity: &str) -> Vec<String> {
    b.scopes
        .iter()
        .find(|(k, _)| k == entity)
        .map(|(_, routes)| routes.iter().map(|r| r.path.clone()).collect())
        .unwrap_or_default()
}

fn menu_links(menu: &Menu) -> Vec<(String, Vec<String>)> {
    menu.iter()
        .map(|(k, v)| (k.clone(), v.iter().map(|e| e.link.clone()).collect()))
        .collect()
}

/// A builder like an application sets up: three entities, custom handlers
/// that are not listed, a support page, a custom card page and a listed card grid.
fn test_builder() -> ActixAdminBuilder<&'static str> {
    let mut b: ActixAdminBuilder<&'static str> = ActixAdminBuilder::new(configuration(false));
    b.add_entity(&view_model("post"));
    b.add_entity(&view_model("comment"));
    b.add_entity(&view_model("sample_with_tenant_id"));
    b.add_custom_handler_for_entity(
        "comment",
        "Create Comment From Plaintext",
        "/create_post_from_plaintext",
        "create_comment",
        false,
    );
    b.add_custom_handler_for_entity(
        "post",
        "Create Post From Plaintext",
        "/create_post_from_plaintext",
        "create_post",
        false,
    );
    b.add_custom_handler_for_entity(
        "post",
        "Edit Post From Plaintext",
        "/edit_post_from_plaintext/{id}",
        "edit_post",
        false,
    );
    b.add_support_handler("/support", "support");
    b.add_custom_handler("card", "/card/{id}", "card", false);
    let card_grid: Vec<Vec<String>> = vec![
        vec!["card/1".to_string(), "card/2".to_string()],
        vec!["card/3".to_string()],
    ];
    b.add_card_grid("Card Grid", "/my_card_grid", card_grid, true);
    b
}

#[test]
fn entity_routes_are_registered_under_the_entity_name() {
    let b = test_builder();
    let paths = scope_paths(&b, "post");
    assert_eq!(
        paths,
        vec![
            "/post/list",
            "/post/export_csv",
            "/post/search",
            "/post/create",
            "/post/create",
            "/post/edit/{id}",
            "/post/edit/{id}",
            "/post/delete",
            "/post/delete/{id}",
            "/post/show/{id}",
            "/post/file/{id}/{column_name}",
            "/post/file/{id}/{column_name}",
            "/post/create_post_from_plaintext",
            "/post/edit_post_from_plaintext/{id}",
        ]
    );
    let routes = &b.scopes.iter().find(|(k, _)| k == "post").unwrap().1;
    assert!(matches!(routes[7].handler, RouteHandler::Builtin(HttpMethod::Delete, Endpoint::DeleteMany)));
    assert!(matches!(routes[8].handler, RouteHandler::Builtin(HttpMethod::Delete, Endpoint::Delete)));
    assert!(matches!(routes[12].handler, RouteHandler::Custom("create_post")));
}

#[test]
fn entities_are_listed_in_the_menu_and_custom_pages_only_when_asked() {
    let b = test_builder();
    let menu = menu_links(&b.actix_admin.entity_names);
    assert_eq!(
        menu,
        vec![(
            "".to_string(),
            vec![
                "post".to_string(),
                "comment".to_string(),
                "sample_with_tenant_id".to_string(),
                "my_card_grid".to_string()
            ]
        )]
    );
    assert_eq!(b.actix_admin.entity_names[0].1[3].name, "Card Grid");
    assert!(b.actix_admin.entity_names[0].1[3].is_custom_handler);
}

#[test]
fn support_path_and_card_grid_key_drop_slashes() {
    let b = test_builder();
    assert_eq!(b.actix_admin.support_path.as_deref(), Some("support"));
    assert_eq!(b.actix_admin.card_grids.len(), 1);
    assert_eq!(b.actix_admin.card_grids[0].0, "my_card_grid");
    let custom: Vec<&str> = b.custom_routes.iter().map(|r| r.path.as_str()).collect();
    assert_eq!(custom, vec!["/support", "/card/{id}", "/my_card_grid"]);
    assert!(matches!(
        b.custom_routes[2].handler,
        RouteHandler::Builtin(HttpMethod::Get, Endpoint::CardGrid)
    ));
}

#[test]
fn categories_come_in_name_order() {
    let mut b: ActixAdminBuilder<&'static str> = ActixAdminBuilder::new(configuration(true));
    b.add_entity(&view_model("post"));
    b.add_entity_to_category(&view_model("comment"), "Group");
    b.add_entity_to_category(&view_model("user"), "Group");
    b.add_custom_handler_to_category("Profile", "/profile", "profile", true, "navbar-end");
    b.add_custom_handler_to_category("Profile", "/profile", "profile", true, "navbar-end");
    let menu = menu_links(&b.actix_admin.entity_names);
    assert_eq!(
        menu,
        vec![
            ("".to_string(), vec!["post".to_string()]),
            ("Group".to_string(), vec!["comment".to_string(), "user".to_string()]),
            ("navbar-end".to_string(), vec!["profile".to_string()]),
        ]
    );
    assert_eq!(b.custom_routes.len(), 2);
}

#[test]
fn entity_menu_entries_are_not_deduplicated() {
    let mut b: ActixAdminBuilder<&'static str> = ActixAdminBuilder::new(configuration(false));
    b.add_entity(&view_model("post"));
    b.add_entity(&view_model("post"));
    let menu = menu_links(&b.actix_admin.entity_names);
    assert_eq!(menu, vec![("".to_string(), vec!["post".to_string(), "post".to_string()])]);
    assert_eq!(b.scopes.len(), 1);
    assert_eq!(b.actix_admin.view_models.len(), 1);
}

#[test]
fn custom_entity_handler_is_listed_only_in_an_existing_category() {
    let mut b: ActixAdminBuilder<&'static str> = ActixAdminBuilder::new(configuration(false));
    b.add_custom_handler_for_entity_in_category("post", "Extra", "/extra", "extra", "Missing", true);
    assert_eq!(b.actix_admin.entity_names.len(), 0);
    assert_eq!(scope_paths(&b, "post"), vec!["/post/extra"]);

    b.add_entity(&view_model("post"));
    b.add_custom_handler_for_entity("post", "Extra", "/extra", "extra", true);
    b.add_custom_handler_for_entity("post", "Extra", "/extra", "extra", true);
    let menu = menu_links(&b.actix_admin.entity_names);
    assert_eq!(menu, vec![("".to_string(), vec!["post".to_string(), "post/extra".to_string()])]);
}

#[test]
fn the_first_bulk_action_registers_the_action_route() {
    let mut b: ActixAdminBuilder<&'static str> = ActixAdminBuilder::new(configuration(false));
    b.add_entity(&view_model("post"));
    let action = |name: &str| ActixAdminBulkAction {
        name: name.to_string(),
        label: "Mark selected as done".to_string(),
        icon: Some("fa-solid fa-check".to_string()),
        confirm: None,
    };
    b.add_bulk_action_for_entity("post", action("mark_done"));
    b.add_bulk_action_for_entity("post", action("archive"));
    let paths = scope_paths(&b, "post");
    assert_eq!(paths.iter().filter(|p| p.as_str() == "/post/action/{name}").count(), 1);
    assert_eq!(paths.last().map(String::as_str), Some("/post/action/{name}"));
    let vm = &b.actix_admin.view_models[0].1;
    let names: Vec<&str> = vm.bulk_actions.iter().map(|a| a.name.as_str()).collect();
    assert_eq!(names, vec!["mark_done", "archive"]);
}

#[test]
fn the_scope_plan_nests_under_the_base_path() {
    let mut b = test_builder();
    let plain = b.get_actix_admin();
    assert_eq!(plain.entity_names.len(), 1);
    assert_eq!(plain.configuration.base_path, "/admin");
    let plan = ActixAdminBuilderTrait::get_scope(test_builder());
    assert_eq!(plan.base_path, "/admin");
    assert_eq!(plan.nest_path, "/admin/");
    assert!(matches!(plan.index, RouteHandler::Builtin(HttpMethod::Get, Endpoint::Index)));
    assert_eq!(plan.scopes.len(), 3);
    assert_eq!(plan.custom_routes.len(), 3);

    b.add_custom_handler_for_index("my_index");
    let plan = b.get_scope();
    assert!(matches!(plan.index, RouteHandler::Custom("my_index")));
}

#[test]
fn upload_directory_is_per_entity() {
    let b = test_builder();
    assert_eq!(b.upload_directory("post"), "./file_uploads/post");
}

#[test]
fn card_grid_is_found_under_the_base_path() {
    let b = test_builder();
    let admin = b.get_actix_admin();
    let (grid, name) = display_card_grid(&admin, "/admin/my_card_grid").unwrap();
    assert_eq!(grid.len(), 2);
    assert_eq!(grid[1], vec!["card/3".to_string()]);
    assert_eq!(name, "Card Grid");

    let err = display_card_grid(&admin, "/admin/other_grid").unwrap_err();
    assert_eq!(err.ty, ActixAdminErrorType::NotFound);
    assert_eq!(err.msg, "Card grid not found");
}

#[test]
fn card_grid_without_menu_entry_has_an_empty_name() {
    let mut b: ActixAdminBuilder<&'static str> = ActixAdminBuilder::new(configuration(false));
    b.add_card_grid_to_category("Hidden", "/hidden", vec![vec!["a".to_string()]], false, "x");
    let admin = b.get_actix_admin();
    let (grid, name) = display_card_grid(&admin, "/admin/hidden").unwrap();
    assert_eq!(grid.len(), 1);
    assert_eq!(name, "");
}

#[test]
fn push_menu_element_deduplicates_on_request() {
    let mut menu: Menu = Vec::new();
    let el = |n: &str| ActixAdminMenuElement {
        name: n.to_string(),
        link: n.to_lowercase(),
        is_custom_handler: true,
    };
    push_menu_element(&mut menu, "b", el("B"), true);
    push_menu_element(&mut menu, "a", el("A"), true);
    push_menu_element(&mut menu, "b", el("B"), true);
    push_menu_element(&mut menu, "b", el("B"), false);
    push_menu_element(&mut menu, "c", el("C"), false);
    let links = menu_links(&menu);
    assert_eq!(
        links,
        vec![
            ("a".to_string(), vec!["a".to_string()]),
            ("b".to_string(), vec!["b".to_string(), "b".to_string()]),
            ("c".to_string(), vec!["c".to_string()]),
        ]
    );
}
