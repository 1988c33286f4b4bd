//! The decisions of the entity routes. Each route fetches or changes rows
//! through the user's entity code and renders templates; what it answers for
//! each outcome of those calls is decided here.

use vstd::prelude::*;

use crate::error::{ActixAdminError, ActixAdminErrorType};
use crate::model::ActixAdminModel;
use crate::text::concat3;
use crate::upload::{paths_view, stored_upload_paths, upload_file_path, upload_path, uploaded_file_paths};
use crate::view_model::ActixAdminViewModel;

verus! {

/// What the delete route answers, and the files it removes afterwards.
pub struct DeleteOutcome {
    pub status: u16,
    pub files_to_remove: Vec<String>,
}

/// The delete route, once the row was fetched (for its files) and deleted:
/// 200 and the row's files removed when both succeeded; 404 when the row did
/// not exist; 500 otherwise.
pub fn delete(
    model_result: &Result<ActixAdminModel, ActixAdminError>,
    delete_result: &Result<(), ActixAdminError>,
    upload_dir: &str,
    entity_name: &str,
    view_model: &ActixAdminViewModel,
) -> (r: DeleteOutcome)
    requires
        model_result matches Ok(m) ==> m.wf(),
    ensures
        match (model_result, delete_result) {
            (Ok(m), Ok(_)) => r.status == 200 && paths_view(r.files_to_remove@)
                == stored_upload_paths(upload_dir@, entity_name@, view_model.fields@, m.value_map()),
            (_, Err(e)) => r.files_to_remove@.len() == 0 && r.status == (if e.ty
                == ActixAdminErrorType::EntityDoesNotExistError {
                404u16
            } else {
                500u16
            }),
            (Err(_), Ok(_)) => r.status == 500 && r.files_to_remove@.len() == 0,
        },
{
    match (model_result, delete_result) {
        (Ok(m), Ok(_)) => DeleteOutcome {
            status: 200,
            files_to_remove: uploaded_file_paths(upload_dir, entity_name, view_model, m),
        },
        (_, Err(e)) => {
            if e.is_missing_entity() {
                DeleteOutcome { status: 404, files_to_remove: Vec::new() }
            } else {
                DeleteOutcome { status: 500, files_to_remove: Vec::new() }
            }
        },
        (Err(_), Ok(_)) => DeleteOutcome { status: 500, files_to_remove: Vec::new() },
    }
}

/// What the bulk delete answers: a redirect to the list, or an error status;
/// and the files it removes afterwards.
pub struct DeleteManyOutcome {
    pub status: u16,
    pub location: Option<String>,
    pub files_to_remove: Vec<String>,
}

/// Every row was fetched.
pub open spec fn all_fetched(fetched: Seq<Result<ActixAdminModel, ActixAdminError>>) -> bool {
    forall|i: int| 0 <= i < fetched.len() ==> fetched[i] is Ok
}

/// A single row that could not be fetched, wherever it stands among the
/// selected rows, means that not every row was fetched, so the bulk delete
/// does not redirect.
pub proof fn law_any_failed_fetch_blocks_redirect(
    fetched: Seq<Result<ActixAdminModel, ActixAdminError>>,
    i: int,
)
    requires
        0 <= i < fetched.len(),
        fetched[i] is Err,
    ensures
        !all_fetched(fetched),
{
}

/// The files of the rows that were fetched, row after row.
pub open spec fn fetched_upload_paths(
    dir: Seq<char>,
    entity: Seq<char>,
    view_model: ActixAdminViewModel,
    fetched: Seq<Result<ActixAdminModel, ActixAdminError>>,
) -> Seq<Seq<char>>
    decreases fetched.len(),
{
    if fetched.len() == 0 {
        Seq::empty()
    } else {
        let rest = fetched_upload_paths(dir, entity, view_model, fetched.drop_last());
        match fetched.last() {
            Ok(m) => rest + stored_upload_paths(dir, entity, view_model.fields@, m.value_map()),
            Err(_) => rest,
        }
    }
}

/// The bulk delete, once each selected row was fetched and all were deleted
/// in one call: when every fetch and the delete succeeded it redirects (303)
/// to `list?{list_query}`, else it answers 500; the files of the fetched rows
/// are removed whenever the delete succeeded.
pub fn delete_many(
    fetched: &Vec<Result<ActixAdminModel, ActixAdminError>>,
    delete_result: &Result<(), ActixAdminError>,
    list_query: &str,
    upload_dir: &str,
    entity_name: &str,
    view_model: &ActixAdminViewModel,
) -> (r: DeleteManyOutcome)
    requires
        forall|i: int| 0 <= i < fetched@.len() ==> (#[trigger] fetched@[i] matches Ok(m) ==> m.wf()),
    ensures
        delete_result is Ok ==> paths_view(r.files_to_remove@) == fetched_upload_paths(
            upload_dir@,
            entity_name@,
            *view_model,
            fetched@,
        ),
        delete_result is Err ==> r.files_to_remove@.len() == 0,
        forall|i: int|
            0 <= i < fetched@.len() && fetched@[i] is Err ==> r.status == 500 && r.location is None,
        delete_result is Err ==> r.status == 500 && r.location is None,
        if all_fetched(fetched@) && delete_result is Ok {
            &&& r.status == 303
            &&& r.location matches Some(l) && l@ == "list?"@ + list_query@
        } else {
            r.status == 500 && r.location is None
        },
{
    let mut files: Vec<String> = Vec::new();
    let mut all_ok = true;
    let mut i: usize = 0;
    while i < fetched.len()
        invariant
            i <= fetched@.len(),
            forall|j: int| 0 <= j < fetched@.len() ==> (#[trigger] fetched@[j] matches Ok(m) ==> m.wf()),
            all_ok == all_fetched(fetched@.take(i as int)),
            delete_result is Ok ==> paths_view(files@) == fetched_upload_paths(
                upload_dir@,
                entity_name@,
                *view_model,
                fetched@.take(i as int),
            ),
            delete_result is Err ==> files@.len() == 0,
        decreases fetched@.len() - i,
    {
        assert(fetched@.take(i + 1).drop_last() =~= fetched@.take(i as int));
        match &fetched[i] {
            Ok(m) => {
                if delete_result.is_ok() {
                    let mut paths = uploaded_file_paths(upload_dir, entity_name, view_model, m);
                    let ghost before = files@;
                    files.append(&mut paths);
                    assert(paths_view(files@) =~= paths_view(before) + stored_upload_paths(
                        upload_dir@,
                        entity_name@,
                        view_model.fields@,
                        m.value_map(),
                    ));
                }
            },
            Err(_) => {
                all_ok = false;
            },
        }
        proof {
            let t = fetched@.take(i + 1);
            if all_fetched(t) {
                assert forall|j: int| 0 <= j < i implies fetched@.take(i as int)[j] is Ok by {
                    assert(t[j] is Ok);
                }
            }
            if all_fetched(fetched@.take(i as int)) && fetched@[i as int] is Ok {
                assert forall|j: int| 0 <= j < i + 1 implies t[j] is Ok by {
                    if j < i {
                        assert(fetched@.take(i as int)[j] is Ok);
                    }
                }
            }
            if !(fetched@[i as int] is Ok) {
                assert(!(t[i as int] is Ok));
            }
        }
        i = i + 1;
    }
    assert(fetched@.take(fetched@.len() as int) =~= fetched@);
    if all_ok && delete_result.is_ok() {
        let mut location = String::from_str("list?");
        location.append(list_query);
        DeleteManyOutcome {
            status: 303,
            location: Some(location),
            files_to_remove: files,
        }
    } else {
        DeleteManyOutcome { status: 500, location: None, files_to_remove: files }
    }
}

/// What a page that shows one row renders.
pub enum EntityPage {
    /// The page with the row (empty when fetching failed), its notifications
    /// and status.
    Render { status: u16, model: ActixAdminModel, notifications: Vec<ActixAdminError> },
    /// The not-found page, with status 404.
    NotFound,
}

/// The show and edit pages, once the row was fetched: the row with 200; the
/// not-found page when it does not exist; an empty row with the error as a
/// notification and 500 when fetching failed otherwise.
pub fn entity_page(lookup: Result<ActixAdminModel, ActixAdminError>) -> (r: EntityPage)
    ensures
        match lookup {
            Ok(m) => r matches EntityPage::Render { status, model, notifications } && status == 200
                && model == m && notifications@.len() == 0,
            Err(e) => if e.ty == ActixAdminErrorType::EntityDoesNotExistError {
                r is NotFound
            } else {
                r matches EntityPage::Render { status, model, notifications } && status == 500
                    && model.wf() && model.values@.len() == 0 && model.primary_key is None
                    && model.display_name is None && model.errors@.len() == 0
                    && model.custom_errors@.len() == 0 && model.fk_values@.len() == 0
                    && notifications@ == seq![e]
            },
        },
{
    match lookup {
        Ok(m) => EntityPage::Render { status: 200, model: m, notifications: Vec::new() },
        Err(e) => {
            if e.is_missing_entity() {
                EntityPage::NotFound
            } else {
                let ghost e0 = e;
                let mut notifications: Vec<ActixAdminError> = Vec::new();
                notifications.push(e);
                assert(notifications@ =~= seq![e0]);
                EntityPage::Render {
                    status: 500,
                    model: ActixAdminModel::create_empty(),
                    notifications,
                }
            }
        },
    }
}

/// What the download route does once the row was fetched.
pub enum DownloadStep {
    /// Answer 404 without a body.
    NotFound,
    /// Serve the file at this path.
    Serve(String),
}

/// The stored file name under `column`, when the row holds a non-empty one.
pub open spec fn stored_file(model: ActixAdminModel, column: Seq<char>) -> Option<Seq<char>> {
    if model.value_map().contains_key(column) && model.value_map()[column].len() > 0 {
        Some(model.value_map()[column])
    } else {
        None
    }
}

/// The stored file name under `column`, when the row holds a non-empty one.
fn stored_file_name<'a>(model: &'a ActixAdminModel, column: &str) -> (r: Option<&'a String>)
    requires
        model.wf(),
    ensures
        match r {
            Some(n) => stored_file(*model, column@) == Some(n@),
            None => stored_file(*model, column@) is None,
        },
{
    match model.get_value(column) {
        Some(name) => {
            if name.unicode_len() > 0 {
                Some(name)
            } else {
                None
            }
        },
        None => None,
    }
}

/// The download route, once the column was accepted as a file field and the
/// row was fetched: serve the stored file of the column; 404 when the row
/// does not exist or stores no file there; an internal error carrying the
/// message when fetching failed otherwise.
pub fn download(
    lookup: &Result<ActixAdminModel, ActixAdminError>,
    column_name: &str,
    upload_dir: &str,
    entity_name: &str,
) -> (r: Result<DownloadStep, ActixAdminError>)
    requires
        lookup matches Ok(m) ==> m.wf(),
    ensures
        match lookup {
            Ok(m) => match stored_file(*m, column_name@) {
                Some(name) => r matches Ok(DownloadStep::Serve(p)) && p@ == upload_path(
                    upload_dir@,
                    entity_name@,
                    name,
                ),
                None => r matches Ok(DownloadStep::NotFound),
            },
            Err(e) => if e.ty == ActixAdminErrorType::EntityDoesNotExistError {
                r matches Ok(DownloadStep::NotFound)
            } else {
                r matches Err(err) && err.ty == ActixAdminErrorType::InternalError && err.msg
                    == e.msg
            },
        },
{
    match lookup {
        Ok(m) => match stored_file_name(m, column_name) {
            Some(name) => Ok(
                DownloadStep::Serve(upload_file_path(upload_dir, entity_name, name.as_str())),
            ),
            None => Ok(DownloadStep::NotFound),
        },
        Err(e) => {
            if e.is_missing_entity() {
                Ok(DownloadStep::NotFound)
            } else {
                Err(ActixAdminError::internal(e.msg.clone()))
            }
        },
    }
}

/// What the route that deletes an uploaded file does once the row was
/// fetched.
pub enum DeleteFileStep {
    /// Answer 404.
    NotFound,
    /// Remove the file (if the row stores one), save the row without the
    /// column, and render the emptied input.
    Update { file_to_remove: Option<String>, model: ActixAdminModel },
}

/// The route that deletes an uploaded file, once the column was accepted as
/// a file field and the row was fetched: the row loses the column's value
/// and its stored file is removed; 404 when the row does not exist; an
/// internal error carrying the message when fetching failed otherwise.
pub fn delete_file(
    lookup: Result<ActixAdminModel, ActixAdminError>,
    column_name: &str,
    upload_dir: &str,
    entity_name: &str,
) -> (r: Result<DeleteFileStep, ActixAdminError>)
    requires
        lookup matches Ok(m) ==> m.wf(),
    ensures
        match lookup {
            Ok(m) => r matches Ok(DeleteFileStep::Update { file_to_remove, model }) && model.wf()
                && model.value_map() == m.value_map().remove(column_name@) && model.primary_key
                == m.primary_key && model.display_name == m.display_name && model.errors
                == m.errors && model.custom_errors == m.custom_errors && model.fk_values
                == m.fk_values && match stored_file(
                m,
                column_name@,
            ) {
                Some(name) => file_to_remove matches Some(p) && p@ == upload_path(
                    upload_dir@,
                    entity_name@,
                    name,
                ),
                None => file_to_remove is None,
            },
            Err(e) => if e.ty == ActixAdminErrorType::EntityDoesNotExistError {
                r matches Ok(DeleteFileStep::NotFound)
            } else {
                r matches Err(err) && err.ty == ActixAdminErrorType::InternalError && err.msg
                    == e.msg
            },
        },
{
    match lookup {
        Ok(m) => {
            let mut model = m;
            let file_to_remove = match stored_file_name(&model, column_name) {
                Some(name) => Some(upload_file_path(upload_dir, entity_name, name.as_str())),
                None => None,
            };
            model.remove_value(column_name);
            Ok(DeleteFileStep::Update { file_to_remove, model })
        },
        Err(e) => {
            if e.is_missing_entity() {
                Ok(DeleteFileStep::NotFound)
            } else {
                Err(ActixAdminError::internal(e.msg.clone()))
            }
        },
    }
}

/// What the user is doing on an entity.
#[derive(Clone, Copy, Debug, PartialEq, Eq, Structural)]
pub enum AdminAction {
    Create,
    Edit,
    Delete,
    View,
}

/// A posted form edits the row when the route names one, else creates one.
pub fn post_action(has_id: bool) -> (r: AdminAction)
    ensures
        r == (if has_id {
            AdminAction::Edit
        } else {
            AdminAction::Create
        }),
{
    if has_id {
        AdminAction::Edit
    } else {
        AdminAction::Create
    }
}

/// The row decoded from a posted form; a form that could not be read is
/// refused as a bad request carrying the message.
pub fn submitted_model(model_res: Result<ActixAdminModel, ActixAdminError>) -> (r: Result<
    ActixAdminModel,
    ActixAdminError,
>)
    ensures
        match model_res {
            Ok(m) => r == Ok::<ActixAdminModel, ActixAdminError>(m),
            Err(e) => r matches Err(err) && err.ty == ActixAdminErrorType::BadRequest && err.msg
                == e.msg,
        },
{
    match model_res {
        Ok(m) => Ok(m),
        Err(e) => Err(ActixAdminError::bad_request(e.msg)),
    }
}

/// What a posted create or edit form answers.
pub enum PostOutcome {
    /// The form again, with the submitted row and these notifications.
    Form { notifications: Vec<ActixAdminError>, status: u16 },
    /// The saved row rendered as a list row (inline editing).
    Row { model: ActixAdminModel, status: u16 },
    /// A redirect (303) to this location.
    Redirect { location: String, status: u16 },
}

/// After validation: a row with errors is shown again in the form with a
/// validation notification and status 200; a row without errors is saved.
pub fn validation_outcome(model: &ActixAdminModel) -> (r: Option<PostOutcome>)
    ensures
        if model.errors@.len() > 0 || model.custom_errors@.len() > 0 {
            r matches Some(PostOutcome::Form { notifications, status }) && status == 200
                && notifications@.len() == 1 && notifications@[0].ty
                == ActixAdminErrorType::ValidationErrors && notifications@[0].msg@.len() == 0
        } else {
            r is None
        },
{
    if model.has_errors() {
        let mut notifications: Vec<ActixAdminError> = Vec::new();
        notifications.push(
            ActixAdminError { ty: ActixAdminErrorType::ValidationErrors, msg: String::new() },
        );
        Some(PostOutcome::Form { notifications, status: 200 })
    } else {
        None
    }
}

/// The list location that a saved form redirects to:
/// `{base_path}/{entity_name}/list?{list_query}`.
pub open spec fn list_location(base_path: Seq<char>, entity: Seq<char>, list_query: Seq<char>) -> Seq<
    char,
> {
    base_path + "/"@ + entity + "/list?"@ + list_query
}

/// After saving: with inline editing the saved row is rendered as a list
/// row, else the browser is redirected (303) to the list; a
/// failed save shows the form again with the error as notification, 200.
pub fn save_outcome(
    saved: Result<ActixAdminModel, ActixAdminError>,
    inline_edit: bool,
    base_path: &str,
    entity_name: &str,
    list_query: &str,
) -> (r: PostOutcome)
    ensures
        match saved {
            Ok(m) => if inline_edit {
                r matches PostOutcome::Row { model, status } && model == m && status == 200
            } else {
                r matches PostOutcome::Redirect { location, status } && status == 303
                    && location@ == list_location(base_path@, entity_name@, list_query@)
            },
            Err(e) => r matches PostOutcome::Form { notifications, status } && status == 200
                && notifications@ == seq![e],
        },
{
    match saved {
        Ok(m) => {
            if inline_edit {
                PostOutcome::Row { model: m, status: 200 }
            } else {
                let mut location = concat3(base_path, "/", entity_name);
                location.append("/list?");
                location.append(list_query);
                PostOutcome::Redirect { location, status: 303 }
            }
        },
        Err(e) => {
            let ghost e0 = e;
            let mut notifications: Vec<ActixAdminError> = Vec::new();
            notifications.push(e);
            assert(notifications@ =~= seq![e0]);
            PostOutcome::Form { notifications, status: 200 }
        },
    }
}

/// Once the route that deletes an uploaded file has emptied a column, the
/// download route finds no file under it.
pub proof fn law_deleted_file_is_not_served(
    before: ActixAdminModel,
    after: ActixAdminModel,
    column: Seq<char>,
)
    requires
        after.value_map() == before.value_map().remove(column),
    ensures
        stored_file(after, column) is None,
{
}

/// Where a posted create or edit form stands: received (editing when the
/// route names a row), being validated, being saved (with the row that the
/// form shows again if saving fails), or answered.
pub enum PostState {
    Received { has_id: bool },
    Validating { has_id: bool },
    Saving { model: ActixAdminModel },
    Done,
}

/// What the entity code reports back to a posted form: the decoded form,
/// the row after validation, the outcome of saving.
pub enum PostEvent {
    Submitted(Result<ActixAdminModel, ActixAdminError>),
    Validated(ActixAdminModel),
    Saved(Result<ActixAdminModel, ActixAdminError>),
}

/// What a posted form asks the entity code or the response to do next.
pub enum PostAction {
    /// Validate this row.
    Validate(ActixAdminModel),
    /// Save this row: create it, or edit the row that the route names.
    Save { action: AdminAction, model: ActixAdminModel },
    /// Answer with this outcome; a form shown again shows `model`.
    Respond { outcome: PostOutcome, model: ActixAdminModel },
    /// Answer with this error.
    Fail(ActixAdminError),
}

/// The event is the one that the state waits for.
pub open spec fn post_event_fits(state: PostState, event: PostEvent) -> bool {
    match (state, event) {
        (PostState::Received { .. }, PostEvent::Submitted(_)) => true,
        (PostState::Validating { .. }, PostEvent::Validated(_)) => true,
        (PostState::Saving { .. }, PostEvent::Saved(_)) => true,
        _ => false,
    }
}

/// `outcome` is what saving with result `res` answers (see `save_outcome`).
pub open spec fn saved_answer(
    outcome: PostOutcome,
    res: Result<ActixAdminModel, ActixAdminError>,
    inline_edit: bool,
    base_path: Seq<char>,
    entity_name: Seq<char>,
    list_query: Seq<char>,
) -> bool {
    match res {
        Ok(saved) => if inline_edit {
            outcome matches PostOutcome::Row { model, status } && model == saved && status == 200
        } else {
            outcome matches PostOutcome::Redirect { location, status } && status == 303
                && location@ == list_location(base_path, entity_name, list_query)
        },
        Err(e) => outcome matches PostOutcome::Form { notifications, status } && status == 200
            && notifications@ == seq![e],
    }
}

/// `outcome` shows the form again with a single validation notification.
pub open spec fn validation_answer(outcome: PostOutcome) -> bool {
    outcome matches PostOutcome::Form { notifications, status } && status == 200
        && notifications@.len() == 1 && notifications@[0].ty
        == ActixAdminErrorType::ValidationErrors && notifications@[0].msg@.len() == 0
}

/// The next state and action of `post_step` for a state and its event.
pub open spec fn post_step_result(
    state: PostState,
    event: PostEvent,
    r: (PostState, PostAction),
    inline_edit: bool,
    base_path: Seq<char>,
    entity_name: Seq<char>,
    list_query: Seq<char>,
) -> bool {
    match (state, event) {
        (PostState::Received { has_id }, PostEvent::Submitted(Err(e))) => {
            &&& r.0 is Done
            &&& r.1 matches PostAction::Fail(err) && err.ty == ActixAdminErrorType::BadRequest
                && err.msg == e.msg
        },
        (PostState::Received { has_id }, PostEvent::Submitted(Ok(m))) => {
            &&& r.0 == PostState::Validating { has_id }
            &&& r.1 == PostAction::Validate(m)
        },
        (PostState::Validating { has_id }, PostEvent::Validated(m)) => if m.errors@.len() > 0
            || m.custom_errors@.len() > 0 {
            &&& r.0 is Done
            &&& r.1 matches PostAction::Respond { outcome, model } && model == m
                && validation_answer(outcome)
        } else {
            &&& r.0 matches PostState::Saving { model } && model.same_row(m)
            &&& r.1 matches PostAction::Save { action, model } && model == m && action == (if has_id {
                AdminAction::Edit
            } else {
                AdminAction::Create
            })
        },
        (PostState::Saving { model: shown }, PostEvent::Saved(res)) => {
            &&& r.0 is Done
            &&& r.1 matches PostAction::Respond { outcome, model } && model == shown
                && saved_answer(outcome, res, inline_edit, base_path, entity_name, list_query)
        },
        _ => false,
    }
}

/// One step of a posted create or edit form: a form that could not be read
/// is refused as a bad request before validation; a row with validation
/// errors is shown again before anything is saved; a valid row is saved by
/// editing when the route names a row, else by creating; the outcome of
/// saving is answered as `save_outcome` decides, a failed save showing the
/// submitted row again.
pub fn post_step(
    state: PostState,
    event: PostEvent,
    inline_edit: bool,
    base_path: &str,
    entity_name: &str,
    list_query: &str,
) -> (r: (PostState, PostAction))
    requires
        post_event_fits(state, event),
    ensures
        post_step_result(state, event, r, inline_edit, base_path@, entity_name@, list_query@),
{
    match (state, event) {
        (PostState::Received { has_id }, PostEvent::Submitted(res)) => {
            match submitted_model(res) {
                Ok(m) => (PostState::Validating { has_id }, PostAction::Validate(m)),
                Err(err) => (PostState::Done, PostAction::Fail(err)),
            }
        },
        (PostState::Validating { has_id }, PostEvent::Validated(m)) => {
            match validation_outcome(&m) {
                Some(outcome) => (PostState::Done, PostAction::Respond { outcome, model: m }),
                None => {
                    let shown = m.clone_row();
                    (
                        PostState::Saving { model: shown },
                        PostAction::Save { action: post_action(has_id), model: m },
                    )
                },
            }
        },
        (PostState::Saving { model }, PostEvent::Saved(res)) => {
            let outcome = save_outcome(res, inline_edit, base_path, entity_name, list_query);
            (PostState::Done, PostAction::Respond { outcome, model })
        },
        _ => {
            assert(false);
            (PostState::Done, PostAction::Fail(ActixAdminError::internal(String::new())))
        },
    }
}

} // verus!
