use vstd::prelude::*;

verus! {

/// The JSON text of a string value: what `serde_json::to_string` returns
/// for a `serde_json::Value::String` that holds `text`.
pub uninterp spec fn json_string(text: Seq<char>) -> Seq<char>;

/// The script that sets the page's title, given the title as JSON text.
pub open spec fn title_assignment(json: Seq<char>) -> Seq<char> {
    "document.title = "@ + json
}

/// Calls `serde_json::to_string` on a `serde_json::Value::String` made of
/// `text`, and keeps the text it returns. Not proved: that this is the JSON
/// text named `json_string`, the same for the same `text`; and that the
/// call succeeds, which rests on serde_json writing a string value into a
/// byte vector by `serialize_str` alone, where no step can fail.
#[verifier::external_body]
fn to_json(text: &str) -> (json: Option<String>)
    ensures
        json is Some,
        json matches Some(quoted) ==> quoted@ == json_string(text@),
{
    serde_json::to_string(&serde_json::Value::String(text.into())).ok()
}

/// Writes the script that assigns `json` to the page's title.
pub fn assign_title(json: &str) -> (script: String)
    ensures
        script@ == title_assignment(json@),
{
    let mut script = "document.title = ".to_owned();
    script.append(json);
    script
}

/// The script that sets the page's title to `title`, whatever characters
/// it holds.
pub fn title_script(title: &str) -> (script: String)
    ensures
        script@ == title_assignment(json_string(title@)),
{
    match to_json(title) {
        Some(json) => assign_title(json.as_str()),
        None => unreached(),
    }
}

} // verus!
