use actix_admin::error::{ActixAdminError, ActixAdminErrorType};
use actix_admin::form::form_values;
use actix_admin::model::ActixAdminModel;
use actix_admin::routes::{
    delete, delete_file, delete_many, download, entity_page, post_action, post_step, save_outcome,
    submitted_model, validation_outcome, AdminAction, DeleteFileStep, DownloadStep, EntityPage,
    PostAction, PostEvent, PostOutcome, PostState,
};
use actix_admin::upload::{sanitize_upload_filename, upload_file_path, uploaded_file_paths};
use actix_admin::view_model::{
    file_upload_field, ActixAdminViewModel, ActixAdminViewModelField, ActixAdminViewModelFieldType,
};

fn field(name: &str, ty: ActixAdminViewModelFieldType) -> ActixAdminViewModelField {
    ActixAdminViewModelField { field_name: name.to_string(), field_type: ty }
}

fn post_view_model() -> ActixAdminViewModel {
    ActixAdminViewModel {
        entity_name: "post".to_string(),
        primary_key: "id".to_string(),
        fields: vec![
            field("title", ActixAdminViewModelFieldType::Text),
            field("attachment", ActixAdminViewModelFieldType::FileUpload),
            field("cover_image", ActixAdminViewModelFieldType::Image),
            field("manual", ActixAdminViewModelFieldType::FileUpload),
        ],
        inline_edit: false,
        bulk_actions: Vec::new(),
    }
}

fn row(values: &[(&str, &str)]) -> ActixAdminModel {
    let mut m = ActixAdminModel::create_empty();
    for (k, v) in values {
        m.set_value(k.to_string(), v.to_string());
    }
    m
}

fn missing() -> ActixAdminError {
    ActixAdminError { ty: ActixAdminErrorType::EntityDoesNotExistError, msg: "gone".to_string() }
}

fn failure() -> ActixAdminError {
    ActixAdminError::internal("db down".to_string())
}

#[test]
fn only_file_and_image_fields_are_file_upload_fields() {
    let vm = post_view_model();
    assert_eq!(file_upload_field(&vm, "attachment").unwrap().field_name, "attachment");
    assert_eq!(
        file_upload_field(&vm, "cover_image").unwrap().field_type,
        ActixAdminViewModelFieldType::Image
    );
    let err = file_upload_field(&vm, "title").unwrap_err();
    assert_eq!(err.ty, ActixAdminErrorType::BadRequest);
    assert_eq!(err.msg, "'title' is not a file upload field");
    let err = file_upload_field(&vm, "../secret").unwrap_err();
    assert_eq!(err.msg, "'../secret' is not a file upload field");
}

#[test]
fn sanitized_names_stay_in_the_upload_directory() {
    assert_eq!(sanitize_upload_filename("report.pdf"), "report.pdf");
    assert_eq!(sanitize_upload_filename("../../etc/passwd"), "passwd");
    assert_eq!(sanitize_upload_filename("dir\\evil.png"), "evil.png");
    assert_eq!(sanitize_upload_filename(".."), "");
    assert_eq!(sanitize_upload_filename("a/."), "");
    assert_eq!(sanitize_upload_filename("folder/"), "");
    assert_eq!(
        upload_file_path("./file_uploads", "post", "../x/report.pdf"),
        "./file_uploads/post/report.pdf"
    );
}

#[test]
fn file_and_image_fields_with_a_stored_name_are_removed() {
    let vm = post_view_model();
    let m = row(&[
        ("title", "hello.txt"),
        ("attachment", "a.pdf"),
        ("cover_image", "c.png"),
        ("manual", ""),
    ]);
    let paths = uploaded_file_paths("./up", "post", &vm, &m);
    assert_eq!(paths, vec!["./up/post/a.pdf".to_string(), "./up/post/c.png".to_string()]);
}

#[test]
fn delete_answers_by_outcome() {
    let vm = post_view_model();
    let ok = delete(
        &Ok(row(&[("attachment", "a.pdf"), ("cover_image", "c.png")])),
        &Ok(()),
        "./up",
        "post",
        &vm,
    );
    assert_eq!(ok.status, 200);
    assert_eq!(ok.files_to_remove, vec!["./up/post/a.pdf".to_string(), "./up/post/c.png".to_string()]);
    let gone = delete(&Err(missing()), &Err(missing()), "./up", "post", &vm);
    assert_eq!(gone.status, 404);
    assert!(gone.files_to_remove.is_empty());
    let fk = delete(&Ok(row(&[])), &Err(failure()), "./up", "post", &vm);
    assert_eq!(fk.status, 500);
    let unfetched = delete(&Err(failure()), &Ok(()), "./up", "post", &vm);
    assert_eq!(unfetched.status, 500);
}

#[test]
fn bulk_delete_redirects_only_when_everything_succeeded() {
    let vm = post_view_model();
    let fetched = vec![Ok(row(&[("attachment", "a.pdf")])), Ok(row(&[("manual", "m.pdf")]))];
    let ok = delete_many(&fetched, &Ok(()), "page=2", "./up", "post", &vm);
    assert_eq!(ok.status, 303);
    assert_eq!(ok.location.as_deref(), Some("list?page=2"));
    assert_eq!(
        ok.files_to_remove,
        vec!["./up/post/a.pdf".to_string(), "./up/post/m.pdf".to_string()]
    );
    let failed = delete_many(&fetched, &Err(failure()), "", "./up", "post", &vm);
    assert_eq!(failed.status, 500);
    assert!(failed.location.is_none());
    assert!(failed.files_to_remove.is_empty());
    let partly = vec![Ok(row(&[("attachment", "a.pdf")])), Err(missing())];
    let partial = delete_many(&partly, &Ok(()), "", "./up", "post", &vm);
    assert_eq!(partial.status, 500);
    assert_eq!(partial.files_to_remove, vec!["./up/post/a.pdf".to_string()]);
}

#[test]
fn bulk_delete_reads_every_ids_field() {
    let form = vec![
        ("ids".to_string(), "1".to_string()),
        ("page".to_string(), "3".to_string()),
        ("ids".to_string(), "2".to_string()),
        ("ids".to_string(), "x".to_string()),
    ];
    assert_eq!(form_values(&form, "ids"), vec!["1", "2", "x"]);
}

#[test]
fn show_and_edit_pages_by_lookup() {
    match entity_page(Ok(row(&[("title", "t")]))) {
        EntityPage::Render { status, model, notifications } => {
            assert_eq!(status, 200);
            assert_eq!(model.values.len(), 1);
            assert!(notifications.is_empty());
        }
        EntityPage::NotFound => panic!("expected the row"),
    }
    assert!(matches!(entity_page(Err(missing())), EntityPage::NotFound));
    match entity_page(Err(failure())) {
        EntityPage::Render { status, model, notifications } => {
            assert_eq!(status, 500);
            assert!(model.values.is_empty());
            assert_eq!(notifications.len(), 1);
            assert_eq!(notifications[0].msg, "db down");
        }
        EntityPage::NotFound => panic!("expected an error page"),
    }
}

#[test]
fn download_serves_the_stored_file() {
    let m = Ok(row(&[("attachment", "../a.pdf"), ("manual", "")]));
    match download(&m, "attachment", "./up", "post") {
        Ok(DownloadStep::Serve(p)) => assert_eq!(p, "./up/post/a.pdf"),
        _ => panic!("expected a file"),
    }
    assert!(matches!(download(&m, "manual", "./up", "post"), Ok(DownloadStep::NotFound)));
    assert!(matches!(download(&m, "cover_image", "./up", "post"), Ok(DownloadStep::NotFound)));
    assert!(matches!(download(&Err(missing()), "a", "./up", "post"), Ok(DownloadStep::NotFound)));
    let err = download(&Err(failure()), "a", "./up", "post").err().unwrap();
    assert_eq!(err.ty, ActixAdminErrorType::InternalError);
    assert_eq!(err.msg, "db down");
}

#[test]
fn delete_file_empties_the_column() {
    let m = row(&[("attachment", "a.pdf"), ("title", "t")]);
    match delete_file(Ok(m), "attachment", "./up", "post") {
        Ok(DeleteFileStep::Update { file_to_remove, model }) => {
            assert_eq!(file_to_remove.as_deref(), Some("./up/post/a.pdf"));
            assert!(model.get_value("attachment").is_none());
            assert_eq!(model.get_value("title").map(String::as_str), Some("t"));
        }
        _ => panic!("expected an update"),
    }
    match delete_file(Ok(row(&[("title", "t")])), "attachment", "./up", "post") {
        Ok(DeleteFileStep::Update { file_to_remove, .. }) => assert!(file_to_remove.is_none()),
        _ => panic!("expected an update"),
    }
    assert!(matches!(
        delete_file(Err(missing()), "attachment", "./up", "post"),
        Ok(DeleteFileStep::NotFound)
    ));
    assert!(delete_file(Err(failure()), "attachment", "./up", "post").is_err());
}

#[test]
fn posted_forms_by_outcome() {
    assert_eq!(post_action(true), AdminAction::Edit);
    assert_eq!(post_action(false), AdminAction::Create);

    let bad = submitted_model(Err(failure())).unwrap_err();
    assert_eq!(bad.ty, ActixAdminErrorType::BadRequest);
    assert_eq!(bad.msg, "db down");

    let mut invalid = row(&[("title", "")]);
    invalid.errors.push(("title".to_string(), "required".to_string()));
    match validation_outcome(&invalid) {
        Some(PostOutcome::Form { notifications, status }) => {
            assert_eq!(status, 200);
            assert_eq!(notifications.len(), 1);
            assert_eq!(notifications[0].ty, ActixAdminErrorType::ValidationErrors);
        }
        _ => panic!("expected the form"),
    }
    assert!(validation_outcome(&row(&[("title", "x")])).is_none());

    match save_outcome(Ok(row(&[])), false, "/admin", "post", "page=1") {
        PostOutcome::Redirect { location, status } => {
            assert_eq!(status, 303);
            assert_eq!(location, "/admin/post/list?page=1");
        }
        _ => panic!("expected a redirect"),
    }
    assert!(matches!(
        save_outcome(Ok(row(&[])), true, "/admin", "post", ""),
        PostOutcome::Row { status: 200, .. }
    ));
    match save_outcome(Err(failure()), false, "/admin", "post", "") {
        PostOutcome::Form { notifications, status } => {
            assert_eq!(status, 200);
            assert_eq!(notifications[0].msg, "db down");
        }
        _ => panic!("expected the form"),
    }
}

#[test]
fn a_deleted_file_is_no_longer_served() {
    let m = row(&[("attachment", "a.pdf")]);
    let emptied = match delete_file(Ok(m), "attachment", "./up", "post") {
        Ok(DeleteFileStep::Update { model, .. }) => model,
        _ => panic!("expected an update"),
    };
    assert!(matches!(
        download(&Ok(emptied), "attachment", "./up", "post"),
        Ok(DownloadStep::NotFound)
    ));
}

#[test]
fn a_posted_form_goes_through_validation_then_saving() {
    let (state, action) = post_step(
        PostState::Received { has_id: true },
        PostEvent::Submitted(Ok(row(&[("title", "t")]))),
        false,
        "/admin",
        "post",
        "",
    );
    assert!(matches!(state, PostState::Validating { has_id: true }));
    let m = match action {
        PostAction::Validate(m) => m,
        _ => panic!("expected validation"),
    };
    let (state, action) = post_step(state, PostEvent::Validated(m), false, "/admin", "post", "");
    assert!(matches!(state, PostState::Saving { .. }));
    let saved = match action {
        PostAction::Save { action, model } => {
            assert_eq!(action, AdminAction::Edit);
            model
        }
        _ => panic!("expected a save"),
    };
    let (state, action) =
        post_step(state, PostEvent::Saved(Err(failure())), false, "/admin", "post", "q=1");
    assert!(matches!(state, PostState::Done));
    match action {
        PostAction::Respond { outcome: PostOutcome::Form { notifications, status }, model } => {
            assert_eq!(status, 200);
            assert_eq!(notifications[0].msg, "db down");
            assert_eq!(model.get_value("title"), saved.get_value("title"));
        }
        _ => panic!("expected the form"),
    }
}

#[test]
fn a_posted_form_stops_early_on_bad_input_or_errors() {
    let (state, action) = post_step(
        PostState::Received { has_id: false },
        PostEvent::Submitted(Err(failure())),
        false,
        "/admin",
        "post",
        "",
    );
    assert!(matches!(state, PostState::Done));
    assert!(matches!(action, PostAction::Fail(e) if e.ty == ActixAdminErrorType::BadRequest));

    let mut invalid = row(&[("title", "")]);
    invalid.errors.push(("title".to_string(), "required".to_string()));
    let (state, action) = post_step(
        PostState::Validating { has_id: false },
        PostEvent::Validated(invalid),
        false,
        "/admin",
        "post",
        "",
    );
    assert!(matches!(state, PostState::Done));
    assert!(matches!(action, PostAction::Respond { outcome: PostOutcome::Form { status: 200, .. }, .. }));

    let (_, action) = post_step(
        PostState::Saving { model: row(&[]) },
        PostEvent::Saved(Ok(row(&[]))),
        false,
        "/admin",
        "post",
        "page=2",
    );
    match action {
        PostAction::Respond { outcome: PostOutcome::Redirect { location, status }, .. } => {
            assert_eq!(status, 303);
            assert_eq!(location, "/admin/post/list?page=2");
        }
        _ => panic!("expected a redirect"),
    }
}
