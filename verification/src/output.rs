//! What a run leaves behind: the dataset as JSON text, and the page that
//! shows it.

use vstd::prelude::*;
use serde_json::Value;
use crate::json::{json_text, write_array};

verus! {

/// Where the dataset goes in the template of the page.
pub const GEOMETRY_PLACEHOLDER: &'static str = "GEOMETRY_PLACEHOLDER";

/// Why a dataset has no text.
#[derive(Clone, Copy, Debug, PartialEq, Eq, Structural)]
pub enum OutputError {
    /// The geometry could not be written as JSON.
    NotWritable,
}

/// The text of a dataset: the JSON of its geometry.
pub open spec fn dataset_text(lines: Seq<Value>) -> Result<Seq<char>, OutputError> {
    match json_text(lines) {
        Some(text) => Ok(text),
        None => Err(OutputError::NotWritable),
    }
}

/// Whether `pattern` stands at the start of `text`.
pub open spec fn starts_with(text: Seq<char>, pattern: Seq<char>) -> bool {
    pattern.len() <= text.len() && text.subrange(0, pattern.len() as int) == pattern
}

/// `text` with `replacement` in the place of every occurrence of `pattern`,
/// the occurrences taken from left to right, none overlapping one before it.
pub open spec fn substituted(text: Seq<char>, pattern: Seq<char>, replacement: Seq<char>) -> Seq<char>
    decreases text.len(),
{
    if pattern.len() == 0 || text.len() == 0 {
        text
    } else if starts_with(text, pattern) {
        replacement + substituted(text.skip(pattern.len() as int), pattern, replacement)
    } else {
        seq![text[0]] + substituted(text.skip(1), pattern, replacement)
    }
}

/// `str::replace`: every match of the pattern gives way to the replacement.
/// An empty pattern, which matches between any two characters, is not
/// admitted.
#[verifier::external_body]
fn replace_all(text: &str, pattern: &str, replacement: &str) -> (replaced: String)
    requires
        pattern@.len() > 0,
    ensures
        replaced@ == substituted(text@, pattern@, replacement@),
{
    text.replace(pattern, replacement)
}

/// The dataset of a run: the polylines that the server gave, followed by
/// those of the local tracks.
pub fn merge_polylines(fetched: Vec<Value>, tracks: Vec<Value>) -> (dataset: Vec<Value>)
    ensures
        dataset@ == fetched@ + tracks@,
{
    let mut dataset = fetched;
    let mut tracks = tracks;
    dataset.append(&mut tracks);
    dataset
}

/// Writes a dataset as JSON text.
pub fn render_polylines(dataset: &Vec<Value>) -> (rendered: Result<String, OutputError>)
    ensures
        match rendered {
            Ok(text) => dataset_text(dataset@) == Ok::<Seq<char>, OutputError>(text@),
            Err(error) => dataset_text(dataset@) == Err::<Seq<char>, OutputError>(error),
        },
{
    match write_array(dataset) {
        Ok(text) => Ok(text),
        Err(_) => Err(OutputError::NotWritable),
    }
}

/// The page that shows a dataset: the template, with the text of the dataset
/// wherever the placeholder stood.
pub fn build_html(template: &str, polylines: &str) -> (html: String)
    ensures
        html@ == substituted(template@, GEOMETRY_PLACEHOLDER@, polylines@),
{
    proof {
        reveal_strlit("GEOMETRY_PLACEHOLDER");
    }
    replace_all(template, GEOMETRY_PLACEHOLDER, polylines)
}

} // verus!
