use actix_admin::error::{ActixAdminError, ActixAdminErrorType};
use actix_admin::model::ActixAdminModel;
use actix_admin::search::{search_params, search_result, SortOrder};
use actix_admin::view_model::ActixAdminViewModel;
use actix_admin::search::{label_values, SearchParam};
use actix_admin::text::{lex_less_exec, remove_all_exec, remove_first_exec};

#[test]
fn form_text_decodes_with_the_last_value_winning() {
    let m = ActixAdminModel::from("title=Hello+World&text=a%3Ab&title=Again".to_string());
    assert_eq!(m.get_value("title").map(String::as_str), Some("Again"));
    assert_eq!(m.get_value("text").map(String::as_str), Some("a:b"));
    assert_eq!(m.values.len(), 2);
    assert!(m.primary_key.is_none());
    assert!(!m.has_errors());
    let empty = ActixAdminModel::from(String::new());
    assert!(empty.values.is_empty());
}

#[test]
fn values_can_be_set_and_removed() {
    let mut m = ActixAdminModel::create_empty();
    m.set_value("a".to_string(), "1".to_string());
    m.set_value("a".to_string(), "2".to_string());
    assert_eq!(m.values.len(), 1);
    assert_eq!(m.get_value("a").map(String::as_str), Some("2"));
    m.remove_value("a");
    assert!(m.get_value("a").is_none());
    m.remove_value("a");
    assert!(m.values.is_empty());
}

#[test]
fn search_text_is_the_single_q_parameter() {
    assert_eq!(SearchParam::from_query("q=hello%20world&page=1").q, "hello world");
    assert_eq!(SearchParam::from_query("page=1").q, "");
    assert_eq!(SearchParam::from_query("").q, "");
    assert_eq!(SearchParam::from_query("q=a&q=b").q, "");
    assert_eq!(SearchParam::default().q, "");
}

#[test]
fn search_answers_rows_with_a_primary_key() {
    let mut a = ActixAdminModel::create_empty();
    a.primary_key = Some("1".to_string());
    a.display_name = Some("First".to_string());
    let b = ActixAdminModel::create_empty();
    let mut c = ActixAdminModel::create_empty();
    c.primary_key = Some("3".to_string());
    let items = label_values(vec![a, b, c]);
    assert_eq!(items.len(), 2);
    assert_eq!((items[0].label.as_str(), items[0].value.as_str()), ("First", "1"));
    assert_eq!((items[1].label.as_str(), items[1].value.as_str()), ("", "3"));
}

#[test]
fn text_operations() {
    assert_eq!(remove_all_exec("/my_card_grid", "/"), "my_card_grid");
    assert_eq!(remove_all_exec("/a/b/c", "/"), "abc");
    assert_eq!(remove_all_exec("/admin/my_card_grid", "/admin"), "/my_card_grid");
    assert_eq!(remove_all_exec("aaa", "aa"), "a");
    assert_eq!(remove_all_exec("abc", ""), "abc");
    assert_eq!(remove_first_exec("/card/{id}", "/"), "card/{id}");
    assert_eq!(remove_first_exec("card", "/"), "card");
    assert!(lex_less_exec(&"Group".to_string(), &"navbar-end".to_string()));
    assert!(lex_less_exec(&"".to_string(), &"a".to_string()));
    assert!(lex_less_exec(&"ab".to_string(), &"abc".to_string()));
    assert!(!lex_less_exec(&"b".to_string(), &"abc".to_string()));
    assert!(!lex_less_exec(&"a".to_string(), &"a".to_string()));
}

#[test]
fn decoded_pairs_give_values_with_the_last_winning() {
    let pairs = vec![
        ("a".to_string(), "1".to_string()),
        ("b".to_string(), "2".to_string()),
        ("a".to_string(), "3".to_string()),
    ];
    let values = actix_admin::model::values_from_pairs(&pairs);
    assert_eq!(values.len(), 2);
    let a = values.iter().find(|(k, _)| k == "a").unwrap();
    assert_eq!(a.1, "3");
}

#[test]
fn search_text_comes_from_a_single_q_pair() {
    let one = vec![("q".to_string(), "x".to_string()), ("page".to_string(), "2".to_string())];
    assert_eq!(actix_admin::search::search_text_from_pairs(&one), "x");
    let two = vec![("q".to_string(), "x".to_string()), ("q".to_string(), "y".to_string())];
    assert_eq!(actix_admin::search::search_text_from_pairs(&two), "");
}

#[test]
fn search_lists_everything_by_primary_key_ascending() {
    let vm = ActixAdminViewModel {
        entity_name: "post".to_string(),
        primary_key: "id".to_string(),
        fields: Vec::new(),
        inline_edit: false,
        bulk_actions: Vec::new(),
    };
    let p = search_params(&vm, "abc".to_string(), Some(7));
    assert_eq!(p.page, None);
    assert_eq!(p.entities_per_page, None);
    assert!(p.viewmodel_filter.is_empty());
    assert_eq!(p.search, "abc");
    assert_eq!(p.sort_by, "id");
    assert_eq!(p.sort_order, SortOrder::Asc);
    assert_eq!(p.tenant_ref, Some(7));
}

#[test]
fn a_failed_listing_is_an_internal_error() {
    let err = search_result(Err(ActixAdminError::not_found("no table".to_string()))).unwrap_err();
    assert_eq!(err.ty, ActixAdminErrorType::InternalError);
    assert_eq!(err.msg, "no table");
    let mut row = ActixAdminModel::create_empty();
    row.primary_key = Some("5".to_string());
    let items = search_result(Ok(vec![row])).unwrap();
    assert_eq!(items.len(), 1);
    assert_eq!(items[0].value, "5");
}

#[test]
fn unparseable_ids_are_skipped_in_order() {
    let form = vec![
        ("ids".to_string(), "1".to_string()),
        ("ids".to_string(), "x".to_string()),
        ("page".to_string(), "9".to_string()),
        ("ids".to_string(), "3".to_string()),
    ];
    let parsed: Vec<Option<i32>> = actix_admin::form::form_values(&form, "ids")
        .iter()
        .map(|v| v.parse::<i32>().ok())
        .collect();
    assert_eq!(actix_admin::form::kept_ids(parsed), vec![1, 3]);
}
