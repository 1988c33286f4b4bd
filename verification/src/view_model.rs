//! The description of an entity that the admin pages are built from.

use vstd::prelude::*;

use crate::error::{ActixAdminError, ActixAdminErrorType};

verus! {

/// How a field is edited and shown.
#[derive(Clone, Copy, Debug, PartialEq, Eq, Structural)]
pub enum ActixAdminViewModelFieldType {
    Number,
    Text,
    TextArea,
    Checkbox,
    Date,
    DateTime,
    Time,
    SelectList,
    FileUpload,
    Image,
}

/// One field of an entity.
#[derive(Debug)]
pub struct ActixAdminViewModelField {
    pub field_name: String,
    pub field_type: ActixAdminViewModelFieldType,
}

impl Clone for ActixAdminViewModelField {
    fn clone(&self) -> (r: Self)
        ensures
            r == *self,
    {
        ActixAdminViewModelField { field_name: self.field_name.clone(), field_type: self.field_type }
    }
}

/// An action that the list page offers on the selected rows.
#[derive(Debug)]
pub struct ActixAdminBulkAction {
    pub name: String,
    pub label: String,
    pub icon: Option<String>,
    pub confirm: Option<String>,
}

/// A copy of an optional string.
pub fn clone_opt_string(s: &Option<String>) -> (r: Option<String>)
    ensures
        r == *s,
{
    match s {
        Some(v) => Some(v.clone()),
        None => None,
    }
}

impl Clone for ActixAdminBulkAction {
    fn clone(&self) -> (r: Self)
        ensures
            r == *self,
    {
        ActixAdminBulkAction {
            name: self.name.clone(),
            label: self.label.clone(),
            icon: clone_opt_string(&self.icon),
            confirm: clone_opt_string(&self.confirm),
        }
    }
}

/// An entity as the admin pages see it.
#[derive(Debug)]
pub struct ActixAdminViewModel {
    pub entity_name: String,
    pub primary_key: String,
    pub fields: Vec<ActixAdminViewModelField>,
    pub inline_edit: bool,
    pub bulk_actions: Vec<ActixAdminBulkAction>,
}

impl View for ActixAdminViewModel {
    type V = (
        Seq<char>,
        Seq<char>,
        Seq<ActixAdminViewModelField>,
        bool,
        Seq<ActixAdminBulkAction>,
    );

    open spec fn view(&self) -> Self::V {
        (self.entity_name@, self.primary_key@, self.fields@, self.inline_edit, self.bulk_actions@)
    }
}

impl Clone for ActixAdminViewModel {
    fn clone(&self) -> (r: Self)
        ensures
            r@ == self@,
    {
        let fields = self.fields.clone();
        let bulk_actions = self.bulk_actions.clone();
        assert(fields@ =~= self.fields@);
        assert(bulk_actions@ =~= self.bulk_actions@);
        ActixAdminViewModel {
            entity_name: self.entity_name.clone(),
            primary_key: self.primary_key.clone(),
            fields,
            inline_edit: self.inline_edit,
            bulk_actions,
        }
    }
}

/// Whether `f` is a file or image field named `column`.
pub open spec fn is_file_field(f: ActixAdminViewModelField, column: Seq<char>) -> bool {
    &&& f.field_name@ == column
    &&& (f.field_type == ActixAdminViewModelFieldType::FileUpload || f.field_type
        == ActixAdminViewModelFieldType::Image)
}

/// The message of the error that refuses `column` as a file field.
pub open spec fn not_a_file_field_message(column: Seq<char>) -> Seq<char> {
    "'"@ + column + "' is not a file upload field"@
}

/// The first file or image field named `column_name`; any other column is
/// refused, so that no arbitrary column is read as a file path.
pub fn file_upload_field<'a>(view_model: &'a ActixAdminViewModel, column_name: &str) -> (r: Result<
    &'a ActixAdminViewModelField,
    ActixAdminError,
>)
    ensures
        match r {
            Ok(f) => exists|i: int|
                0 <= i < view_model.fields@.len() && is_file_field(
                    #[trigger] view_model.fields@[i],
                    column_name@,
                ) && *f == view_model.fields@[i] && forall|j: int|
                    0 <= j < i ==> !is_file_field(#[trigger] view_model.fields@[j], column_name@),
            Err(e) => {
                &&& forall|i: int|
                    0 <= i < view_model.fields@.len() ==> !is_file_field(
                        #[trigger] view_model.fields@[i],
                        column_name@,
                    )
                &&& e.ty == ActixAdminErrorType::BadRequest
                &&& e.msg@ == not_a_file_field_message(column_name@)
            },
        },
{
    let column = String::from_str(column_name);
    let mut i: usize = 0;
    while i < view_model.fields.len()
        invariant
            i <= view_model.fields@.len(),
            column@ == column_name@,
            forall|j: int| 0 <= j < i ==> !is_file_field(#[trigger] view_model.fields@[j], column_name@),
        decreases view_model.fields@.len() - i,
    {
        let f = &view_model.fields[i];
        if f.field_name == column && (f.field_type == ActixAdminViewModelFieldType::FileUpload
            || f.field_type == ActixAdminViewModelFieldType::Image) {
            return Ok(f);
        }
        i = i + 1;
    }
    let mut msg = String::from_str("'");
    msg.append(column_name);
    msg.append("' is not a file upload field");
    Err(ActixAdminError::bad_request(msg))
}

} // verus!
