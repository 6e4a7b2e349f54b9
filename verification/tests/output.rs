use serde_json::Value;
use traewelling_polylines::output::{
    build_html, merge_polylines, render_polylines, GEOMETRY_PLACEHOLDER,
};

fn json(text: &str) -> Value {
    serde_json::from_str(text).unwrap()
}

#[test]
fn fetched_polylines_come_before_tracks() {
    let merged = merge_polylines(vec![json("1"), json("2")], vec![json("\"t\"")]);
    assert_eq!(merged, vec![json("1"), json("2"), json("\"t\"")]);
    assert_eq!(merge_polylines(Vec::new(), vec![json("3")]), vec![json("3")]);
    assert_eq!(merge_polylines(vec![json("3")], Vec::new()), vec![json("3")]);
}

#[test]
fn dataset_is_one_json_array() {
    let dataset = vec![json("{\"type\": \"Point\", \"coordinates\": [1.5, 2]}"), Value::Null];
    assert_eq!(
        render_polylines(&dataset),
        Ok("[{\"coordinates\":[1.5,2],\"type\":\"Point\"},null]".to_string())
    );
    assert_eq!(render_polylines(&Vec::new()), Ok("[]".to_string()));
}

#[test]
fn rendered_dataset_reads_back() {
    let dataset = vec![json("[[13.4, 52.5], [9.99, 53.55]]"), json("{\"a\": \"ü\"}")];
    let text = render_polylines(&dataset).unwrap();
    assert_eq!(serde_json::from_str::<Vec<Value>>(&text).unwrap(), dataset);
}

#[test]
fn placeholder_gives_way_to_the_dataset() {
    assert_eq!(GEOMETRY_PLACEHOLDER, "GEOMETRY_PLACEHOLDER");
    assert_eq!(
        build_html("<script>const lines = GEOMETRY_PLACEHOLDER;</script>", "[1,2]"),
        "<script>const lines = [1,2];</script>"
    );
}

#[test]
fn every_placeholder_is_replaced() {
    assert_eq!(
        build_html("GEOMETRY_PLACEHOLDER and GEOMETRY_PLACEHOLDERGEOMETRY_PLACEHOLDER", "x"),
        "x and xx"
    );
}

#[test]
fn template_without_placeholder_is_unchanged() {
    assert_eq!(build_html("<html>geometry_placeholder</html>", "[]"), "<html>geometry_placeholder</html>");
    assert_eq!(build_html("", "[]"), "");
    assert_eq!(build_html("GEOMETRY_PLACEHOLDE", "[]"), "GEOMETRY_PLACEHOLDE");
}

#[test]
fn dataset_is_inserted_verbatim() {
    assert_eq!(
        build_html("a GEOMETRY_PLACEHOLDER b", "GEOMETRY_PLACEHOLDER"),
        "a GEOMETRY_PLACEHOLDER b"
    );
    assert_eq!(build_html("ä GEOMETRY_PLACEHOLDER ö", "[\"ü\"]"), "ä [\"ü\"] ö");
}
