//! Where uploaded files are stored, and which of them a row refers to.

use vstd::prelude::*;

use crate::model::ActixAdminModel;
use crate::text::{chars_of, concat3, push_char};
use crate::view_model::{ActixAdminViewModel, ActixAdminViewModelField, ActixAdminViewModelFieldType};

verus! {

/// A path separator, on any platform.
pub open spec fn is_separator(c: char) -> bool {
    c == '/' || c == '\\'
}

/// The part of `s` after its last separator.
pub open spec fn last_component(s: Seq<char>) -> Seq<char>
    decreases s.len(),
{
    if s.len() == 0 {
        s
    } else if is_separator(s.last()) {
        Seq::empty()
    } else {
        last_component(s.drop_last()).push(s.last())
    }
}

/// The name under which a stored file name is looked up in the upload
/// directory: its last path component, and nothing when that is `.` or `..`.
pub open spec fn sanitized_name(s: Seq<char>) -> Seq<char> {
    let c = last_component(s);
    if c == seq!['.'] || c == seq!['.', '.'] {
        Seq::empty()
    } else {
        c
    }
}

/// The path of stored file `name` of entity `entity` under `dir`.
pub open spec fn upload_path(dir: Seq<char>, entity: Seq<char>, name: Seq<char>) -> Seq<char> {
    dir + "/"@ + entity + "/"@ + sanitized_name(name)
}

/// The last component of a path holds no separator.
pub proof fn lemma_last_component_has_no_separator(s: Seq<char>)
    ensures
        forall|i: int| 0 <= i < last_component(s).len() ==> !is_separator(#[trigger] last_component(s)[i]),
    decreases s.len(),
{
    if s.len() > 0 && !is_separator(s.last()) {
        lemma_last_component_has_no_separator(s.drop_last());
        let p = last_component(s.drop_last());
        assert forall|i: int| 0 <= i < p.push(s.last()).len() implies !is_separator(
            #[trigger] p.push(s.last())[i],
        ) by {
            if i < p.len() {
                assert(p.push(s.last())[i] == p[i]);
            }
        }
    }
}

/// The name of an uploaded file with every directory part removed, so that a
/// stored value cannot reach outside the upload directory: no separator, and
/// neither `.` nor `..`.
pub fn sanitize_upload_filename(name: &str) -> (r: String)
    ensures
        r@ == sanitized_name(name@),
        forall|i: int| 0 <= i < r@.len() ==> !is_separator(#[trigger] r@[i]),
        r@ != seq!['.'],
        r@ != seq!['.', '.'],
{
    let v = chars_of(name);
    let n = v.len();
    let mut start: usize = 0;
    let mut i: usize = 0;
    while i < n
        invariant
            n == v@.len(),
            v@ == name@,
            start <= i <= n,
            last_component(name@.take(i as int)) == name@.subrange(start as int, i as int),
        decreases n - i,
    {
        assert(name@.take(i + 1).drop_last() =~= name@.take(i as int));
        if v[i] == '/' || v[i] == '\\' {
            start = i + 1;
        }
        i = i + 1;
        assert(last_component(name@.take(i as int)) =~= name@.subrange(start as int, i as int));
    }
    assert(name@.take(n as int) =~= name@);
    let ghost comp = name@.subrange(start as int, n as int);
    let dots = n - start;
    if (dots == 1 && v[start] == '.') || (dots == 2 && v[start] == '.' && v[start + 1] == '.') {
        assert(comp =~= seq!['.'] || comp =~= seq!['.', '.']);
        return String::new();
    }
    let mut out = String::new();
    let mut j: usize = start;
    while j < n
        invariant
            n == v@.len(),
            v@ == name@,
            start <= j <= n,
            out@ == name@.subrange(start as int, j as int),
        decreases n - j,
    {
        push_char(&mut out, v[j]);
        j = j + 1;
        assert(out@ =~= name@.subrange(start as int, j as int));
    }
    proof {
        lemma_last_component_has_no_separator(name@);
        if comp == seq!['.'] {
            assert(comp[0] == '.');
        }
        if comp == seq!['.', '.'] {
            assert(comp[0] == '.' && comp[1] == '.');
        }
    }
    out
}

/// The path of stored file `file_name` of entity `entity_name`:
/// `{dir}/{entity_name}/{sanitized name}`.
pub fn upload_file_path(dir: &str, entity_name: &str, file_name: &str) -> (r: String)
    ensures
        r@ == upload_path(dir@, entity_name@, file_name@),
{
    let mut p = concat3(dir, "/", entity_name);
    p.append("/");
    let safe = sanitize_upload_filename(file_name);
    p.append(safe.as_str());
    p
}

/// The paths of the files that a row stores in its file-upload fields (file
/// and image fields), in the order of the fields; empty values store nothing.
pub open spec fn stored_upload_paths(
    dir: Seq<char>,
    entity: Seq<char>,
    fields: Seq<ActixAdminViewModelField>,
    values: Map<Seq<char>, Seq<char>>,
) -> Seq<Seq<char>>
    decreases fields.len(),
{
    if fields.len() == 0 {
        Seq::empty()
    } else {
        let rest = stored_upload_paths(dir, entity, fields.drop_last(), values);
        let f = fields.last();
        if (f.field_type == ActixAdminViewModelFieldType::FileUpload || f.field_type
            == ActixAdminViewModelFieldType::Image) && values.contains_key(f.field_name@)
            && values[f.field_name@].len() > 0 {
            rest.push(upload_path(dir, entity, values[f.field_name@]))
        } else {
            rest
        }
    }
}

/// Each path as characters.
pub open spec fn paths_view(v: Seq<String>) -> Seq<Seq<char>> {
    v.map_values(|s: String| s@)
}

/// The files stored by `model` in the file-upload fields (file and image
/// fields) of `view_model`, which are removed when the row is deleted.
pub fn uploaded_file_paths(
    upload_dir: &str,
    entity_name: &str,
    view_model: &ActixAdminViewModel,
    model: &ActixAdminModel,
) -> (r: Vec<String>)
    requires
        model.wf(),
    ensures
        paths_view(r@) == stored_upload_paths(
            upload_dir@,
            entity_name@,
            view_model.fields@,
            model.value_map(),
        ),
{
    let mut out: Vec<String> = Vec::new();
    let mut i: usize = 0;
    while i < view_model.fields.len()
        invariant
            i <= view_model.fields@.len(),
            model.wf(),
            paths_view(out@) == stored_upload_paths(
                upload_dir@,
                entity_name@,
                view_model.fields@.take(i as int),
                model.value_map(),
            ),
        decreases view_model.fields@.len() - i,
    {
        let f = &view_model.fields[i];
        assert(view_model.fields@.take(i + 1).drop_last() =~= view_model.fields@.take(i as int));
        if f.field_type == ActixAdminViewModelFieldType::FileUpload || f.field_type
            == ActixAdminViewModelFieldType::Image {
            match model.get_value(f.field_name.as_str()) {
                Some(name) => {
                    if name.unicode_len() > 0 {
                        out.push(upload_file_path(upload_dir, entity_name, name.as_str()));
                    }
                },
                None => {},
            }
        }
        i = i + 1;
        assert(paths_view(out@) =~= stored_upload_paths(
            upload_dir@,
            entity_name@,
            view_model.fields@.take(i as int),
            model.value_map(),
        ));
    }
    assert(view_model.fields@.take(view_model.fields@.len() as int) =~= view_model.fields@);
    out
}

/// Every stored file is looked up directly inside `{dir}/{entity}/`: what
/// follows that prefix holds no separator and is neither `.` nor `..`.
pub proof fn law_upload_path_stays_in_directory(dir: Seq<char>, entity: Seq<char>, name: Seq<char>)
    ensures
        upload_path(dir, entity, name) == dir + "/"@ + entity + "/"@ + sanitized_name(name),
        forall|i: int|
            0 <= i < sanitized_name(name).len() ==> !is_separator(#[trigger] sanitized_name(name)[i]),
        sanitized_name(name) != seq!['.'],
        sanitized_name(name) != seq!['.', '.'],
{
    lemma_last_component_has_no_separator(name);
    let c = last_component(name);
    if c != seq!['.'] && c != seq!['.', '.'] {
        assert(sanitized_name(name) == c);
    } else {
        assert(sanitized_name(name) =~= Seq::<char>::empty());
        assert(seq!['.', '.'].len() == 2);
        assert(seq!['.'].len() == 1);
    }
}

} // verus!
