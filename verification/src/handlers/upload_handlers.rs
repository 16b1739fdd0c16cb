//! The answers of the upload routes: what an upload reports and which stored
//! files the listing shows.

use vstd::prelude::*;

use crate::file_types::{extension_or_empty, get_file_extension};
use crate::json_value::{fields_view, lemma_array_view, lemma_object_view, Json, JsonView};
use crate::text::{ascii_lower, chars_eq_str, chars_of, lower_chars, replace_all, replace_str};

verus! {

/// Whether a stored file is listed: every file but `.toml` ones, the
/// extension compared without regard to ASCII case.
pub open spec fn listed(file_name: Seq<char>) -> bool {
    ascii_lower(extension_or_empty(file_name)) != "toml"@
}

/// The body of a successful upload.
pub open spec fn upload_view(file_name: Seq<char>, file_path: Seq<char>) -> JsonView {
    JsonView::Object(
        seq![
            ("filename"@, JsonView::Str(file_name)),
            ("filepath"@, JsonView::Str(file_path)),
            ("message"@, JsonView::Str("File uploaded successfully"@)),
            ("status"@, JsonView::Str("success"@)),
        ],
    )
}

/// The links of the listed files, in order.
pub open spec fn listed_links(
    names: Seq<String>,
    download_route: Seq<char>,
    placeholder: Seq<char>,
) -> Seq<JsonView>
    decreases names.len(),
{
    if names.len() == 0 {
        Seq::empty()
    } else {
        let prev = listed_links(names.drop_last(), download_route, placeholder);
        if listed(names.last()@) {
            prev.push(JsonView::Str(replace_all(download_route, placeholder, names.last()@)))
        } else {
            prev
        }
    }
}

/// Whether a stored file is listed.
pub fn is_listed_upload(file_name: &str) -> (r: bool)
    ensures
        r == listed(file_name@),
{
    let ext = chars_of(get_file_extension(file_name).as_str());
    proof {
        reveal_strlit("toml");
    }
    let lower = lower_chars(&ext);
    !chars_eq_str(&lower, "toml")
}

/// The download link of a stored file: the download route with the file
/// name in place of its placeholder.
pub fn download_link(download_route: &str, placeholder: &str, file_name: &str) -> (r: String)
    requires
        placeholder@.len() > 0,
    ensures
        r@ == replace_all(download_route@, placeholder@, file_name@),
{
    replace_str(download_route, placeholder, file_name)
}

/// The body of a successful upload: status, message, file name and the
/// file's download link.
pub fn upload_response(file_name: &str, file_path: String) -> (j: Json)
    ensures
        j@ == upload_view(file_name@, file_path@),
{
    let ghost fp = file_path@;
    proof {
        reveal_strlit("File uploaded successfully");
        reveal_strlit("success");
    }
    let mut fields: Vec<(String, Json)> = Vec::new();
    fields.push(("filename".to_string(), Json::Str(file_name.to_string())));
    fields.push(("filepath".to_string(), Json::Str(file_path)));
    fields.push(("message".to_string(), Json::Str("File uploaded successfully".to_string())));
    fields.push(("status".to_string(), Json::Str("success".to_string())));
    proof {
        lemma_object_view(fields);
        assert(fields_view(fields@) =~= seq![
            ("filename"@, JsonView::Str(file_name@)),
            ("filepath"@, JsonView::Str(fp)),
            ("message"@, JsonView::Str("File uploaded successfully"@)),
            ("status"@, JsonView::Str("success"@)),
        ]);
    }
    Json::Object(fields)
}

/// The listing of the stored files: the download links of the listed ones,
/// in the order given.
pub fn uploaded_list(names: &Vec<String>, download_route: &str, placeholder: &str) -> (j: Json)
    requires
        placeholder@.len() > 0,
    ensures
        j@ == JsonView::Array(listed_links(names@, download_route@, placeholder@)),
{
    let mut out: Vec<Json> = Vec::new();
    let mut k: usize = 0;
    while k < names.len()
        invariant
            k <= names.len(),
            placeholder@.len() > 0,
            out@.map_values(|j: Json| j@) == listed_links(
                names@.take(k as int),
                download_route@,
                placeholder@,
            ),
        decreases names.len() - k,
    {
        assert(names@.take(k + 1).drop_last() =~= names@.take(k as int));
        if is_listed_upload(names[k].as_str()) {
            let ghost before = out@.map_values(|j: Json| j@);
            out.push(Json::Str(download_link(download_route, placeholder, names[k].as_str())));
            assert(out@.map_values(|j: Json| j@) =~= before.push(
                JsonView::Str(replace_all(download_route@, placeholder@, names@[k as int]@)),
            ));
        }
        k += 1;
    }
    assert(names@.take(names.len() as int) =~= names@);
    proof {
        lemma_array_view(out);
    }
    Json::Array(out)
}

} // verus!
