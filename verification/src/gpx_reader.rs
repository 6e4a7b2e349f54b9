//! Tracks recorded outside the travel log. A track file is GPX. It is
//! converted to GeoJSON before it comes here; what goes into the dataset is
//! the geometry that the GeoJSON holds, in the same shape as the polylines
//! that the server gives.

use vstd::prelude::*;
use vstd::utf8::{decode_utf8, valid_utf8};
use serde_json::Value;
use std::string::FromUtf8Error;
use crate::json::{json_document, parse_document};

verus! {

/// `std::string::FromUtf8Error`: why bytes are not text.
#[verifier::external_type_specification]
#[verifier::external_body]
pub struct ExFromUtf8Error(std::string::FromUtf8Error);

/// `String::from_utf8`: the text that the bytes encode, or an error where
/// they are not UTF-8.
#[verifier::external_body]
fn text_from_utf8(bytes: Vec<u8>) -> (text: Result<String, FromUtf8Error>)
    ensures
        match text {
            Ok(text) => valid_utf8(bytes@) && text@ == decode_utf8(bytes@),
            Err(_) => !valid_utf8(bytes@),
        },
{
    String::from_utf8(bytes)
}

/// Why a track file yields no geometry.
#[derive(Clone, Copy, Debug, PartialEq, Eq, Structural)]
pub enum TrackError {
    /// The file could not be converted: it is not GPX.
    NotGpx,
    /// What the file was converted to is not text.
    NotText,
    /// What the file was converted to is not JSON.
    NotJson,
}

/// The geometry that GeoJSON bytes hold.
pub open spec fn geojson_geometry(geojson: Seq<u8>) -> Result<Value, TrackError> {
    if !valid_utf8(geojson) {
        Err(TrackError::NotText)
    } else {
        match json_document(decode_utf8(geojson)) {
            Some(geometry) => Ok(geometry),
            None => Err(TrackError::NotJson),
        }
    }
}

/// The geometry of a track file, given what the file was converted to: the
/// bytes of its GeoJSON, or nothing where it could not be converted.
pub open spec fn track_geometry(converted: Option<Vec<u8>>) -> Result<Value, TrackError> {
    match converted {
        Some(geojson) => geojson_geometry(geojson@),
        None => Err(TrackError::NotGpx),
    }
}

/// Reads the geometry that GeoJSON bytes hold.
pub fn read_geojson(geojson: Vec<u8>) -> (geometry: Result<Value, TrackError>)
    ensures
        geometry == geojson_geometry(geojson@),
{
    match text_from_utf8(geojson) {
        Ok(text) => match parse_document(text.as_str()) {
            Ok(geometry) => Ok(geometry),
            Err(_) => Err(TrackError::NotJson),
        },
        Err(_) => Err(TrackError::NotText),
    }
}

/// Reads the geometry of every track file, given what each file was
/// converted to: one geometry per file, in the order of the files. The first
/// file that yields none ends the reading, and its error is the result.
pub fn read_polylines(tracks: Vec<Option<Vec<u8>>>) -> (polylines: Result<Vec<Value>, TrackError>)
    ensures
        match polylines {
            Ok(lines) => {
                &&& lines@.len() == tracks@.len()
                &&& forall|i: int|
                    0 <= i < tracks@.len() ==> track_geometry(#[trigger] tracks@[i]) == Ok::<
                        Value,
                        TrackError,
                    >(lines@[i])
            },
            Err(error) => exists|failed: int|
                {
                    &&& 0 <= failed < tracks@.len()
                    &&& track_geometry(#[trigger] tracks@[failed]) == Err::<Value, TrackError>(error)
                    &&& forall|i: int| 0 <= i < failed ==> track_geometry(#[trigger] tracks@[i]) is Ok
                },
        },
{
    let mut lines: Vec<Value> = Vec::new();
    for converted in it: tracks
        invariant
            it.seq() == tracks@,
            lines@.len() == it.index(),
            forall|j: int|
                0 <= j < it.index() ==> track_geometry(#[trigger] tracks@[j]) == Ok::<Value, TrackError>(
                    lines@[j],
                ),
    {
        let geometry = match converted {
            Some(geojson) => read_geojson(geojson),
            None => Err(TrackError::NotGpx),
        };
        match geometry {
            Ok(geometry) => {
                lines.push(geometry);
            },
            Err(error) => {
                assert(track_geometry(tracks@[it.index() as int]) == Err::<Value, TrackError>(error));
                return Err(error);
            },
        }
    }
    Ok(lines)
}

} // verus!
