use geozero::geojson::GeoJsonWriter;
use serde_json::Value;
use std::io::Cursor;
use traewelling_polylines::config::{Config, Route};
use traewelling_polylines::gpx_reader::{read_geojson, read_polylines, TrackError};

const TRACK: &str = "<?xml version=\"1.0\" encoding=\"UTF-8\"?>
<gpx version=\"1.1\" creator=\"test\" xmlns=\"http://www.topografix.com/GPX/1/1\">
  <trk>
    <name>ferry</name>
    <trkseg>
      <trkpt lat=\"52.5\" lon=\"13.4\"></trkpt>
      <trkpt lat=\"53.55\" lon=\"9.99\"></trkpt>
    </trkseg>
  </trk>
</gpx>";

const WAYPOINT: &str = "<?xml version=\"1.0\" encoding=\"UTF-8\"?>
<gpx version=\"1.1\" creator=\"test\" xmlns=\"http://www.topografix.com/GPX/1/1\">
  <wpt lat=\"48.1\" lon=\"11.6\"></wpt>
</gpx>";

fn json(text: &str) -> Value {
    serde_json::from_str(text).unwrap()
}

/// What a track file is converted to before the library reads it.
fn convert(contents: &str) -> Option<Vec<u8>> {
    let mut output = Vec::new();
    let mut writer = GeoJsonWriter::new(&mut output);
    geozero::gpx::read_gpx(&mut Cursor::new(contents.as_bytes()), &mut writer).ok()?;
    Some(output)
}

fn track_geometry() -> Value {
    json(
        "{\"type\": \"GeometryCollection\", \"geometries\": [
            {\"type\": \"MultiLineString\", \"coordinates\": [[[13.4, 52.5], [9.99, 53.55]]]}
        ]}",
    )
}

fn waypoint_geometry() -> Value {
    json(
        "{\"type\": \"GeometryCollection\", \"geometries\": [
            {\"type\": \"Point\", \"coordinates\": [11.6, 48.1]}
        ]}",
    )
}

#[test]
fn track_becomes_a_geometry_collection() {
    assert_eq!(read_polylines(vec![convert(TRACK)]), Ok(vec![track_geometry()]));
}

#[test]
fn waypoint_becomes_a_point() {
    assert_eq!(read_polylines(vec![convert(WAYPOINT)]), Ok(vec![waypoint_geometry()]));
}

#[test]
fn contents_that_are_not_gpx_yield_nothing() {
    for contents in ["not a track", "", "<html></html>"] {
        assert_eq!(convert(contents), None);
        assert_eq!(read_polylines(vec![convert(contents)]), Err(TrackError::NotGpx));
    }
}

#[test]
fn geojson_bytes_are_read_as_json() {
    assert_eq!(
        read_geojson(b"{\"type\": \"Point\", \"coordinates\": [1, 2]}".to_vec()),
        Ok(json("{\"type\": \"Point\", \"coordinates\": [1, 2]}"))
    );
    assert_eq!(read_geojson("\"Zürich\"".as_bytes().to_vec()), Ok(json("\"Zürich\"")));
}

#[test]
fn bytes_that_are_not_text_yield_nothing() {
    assert_eq!(read_geojson(vec![b'"', 0xff, 0xfe, b'"']), Err(TrackError::NotText));
    assert_eq!(read_geojson(vec![0xc3]), Err(TrackError::NotText));
}

#[test]
fn text_that_is_not_json_yields_nothing() {
    assert_eq!(read_geojson(b"{\"type\": ".to_vec()), Err(TrackError::NotJson));
    assert_eq!(read_geojson(Vec::new()), Err(TrackError::NotJson));
}

#[test]
fn files_are_read_in_order() {
    let tracks = vec![
        convert(WAYPOINT),
        Some(b"{\"type\": \"Point\", \"coordinates\": [1, 2]}".to_vec()),
        convert(TRACK),
        convert(WAYPOINT),
    ];
    assert_eq!(
        read_polylines(tracks),
        Ok(vec![
            waypoint_geometry(),
            json("{\"type\": \"Point\", \"coordinates\": [1, 2]}"),
            track_geometry(),
            waypoint_geometry(),
        ])
    );
}

#[test]
fn no_files_no_polylines() {
    assert_eq!(read_polylines(Vec::new()), Ok(Vec::new()));
}

#[test]
fn first_file_without_geometry_ends_the_reading() {
    let good = || Some(b"[1, 2]".to_vec());
    assert_eq!(read_polylines(vec![good(), None, good()]), Err(TrackError::NotGpx));
    assert_eq!(
        read_polylines(vec![good(), Some(vec![0xff]), None, Some(b"{".to_vec())]),
        Err(TrackError::NotText)
    );
    assert_eq!(
        read_polylines(vec![good(), Some(b"{".to_vec()), Some(vec![0xff]), None]),
        Err(TrackError::NotJson)
    );
    assert_eq!(read_polylines(vec![None, good()]), Err(TrackError::NotGpx));
}

#[test]
fn track_files_are_listed_route_by_route() {
    let routes = vec![
        Route {
            identifier: "north".to_string(),
            files: vec!["a.gpx".to_string(), "b.gpx".to_string()],
        },
        Route { identifier: "empty".to_string(), files: Vec::new() },
        Route { identifier: "south".to_string(), files: vec!["c.gpx".to_string()] },
    ];
    let config = Config::new(vec!["1".to_string()], routes);
    assert_eq!(config.track_files(), vec!["a.gpx", "b.gpx", "c.gpx"]);
    assert_eq!(config.ignore, vec!["1"]);
    assert!(Config::new(Vec::new(), Vec::new()).track_files().is_empty());
}
