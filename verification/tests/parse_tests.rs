use std::collections::HashMap;
use vizmat::parse::{
    extended_comment, parse_extended_xyz_properties, parse_record, parse_xyz_content, AtomRecord,
    XyzError,
};

fn chars(text: &str) -> Vec<char> {
    text.chars().collect()
}

fn record(element: &str, x: &str, y: &str, z: &str) -> AtomRecord {
    AtomRecord {
        element: element.to_string(),
        x: x.to_string(),
        y: y.to_string(),
        z: z.to_string(),
    }
}

#[test]
fn parses_a_water_file() {
    let text = "3\nwater\nO 0.0 0.0 0.0\nH 0.757 0.587 0.0\nH -0.757 0.587 0.0\n";
    assert_eq!(
        parse_xyz_content(text),
        Ok(vec![
            record("O", "0.0", "0.0", "0.0"),
            record("H", "0.757", "0.587", "0.0"),
            record("H", "-0.757", "0.587", "0.0"),
        ])
    );
}

#[test]
fn parsed_coordinates_convert_to_the_numbers_written() {
    let records = parse_xyz_content("1\n\nH 0.757 -1e-3 +2.\n").unwrap();
    assert_eq!(records[0].x.parse::<f32>(), Ok(0.757));
    assert_eq!(records[0].y.parse::<f32>(), Ok(-0.001));
    assert_eq!(records[0].z.parse::<f32>(), Ok(2.0));
}

#[test]
fn file_with_fewer_than_two_lines_is_too_short() {
    assert_eq!(parse_xyz_content(""), Err(XyzError::TooShort));
    assert_eq!(parse_xyz_content("3"), Err(XyzError::TooShort));
    assert_eq!(parse_xyz_content("3\n"), Err(XyzError::TooShort));
    assert_eq!(parse_xyz_content("abc"), Err(XyzError::TooShort));
}

#[test]
fn two_lines_are_enough() {
    assert_eq!(parse_xyz_content("0\ncomment"), Ok(Vec::new()));
    assert_eq!(parse_xyz_content("5\n\n"), Ok(Vec::new()));
}

#[test]
fn first_line_must_be_a_count() {
    assert_eq!(parse_xyz_content("three\ncomment\n"), Err(XyzError::AtomCount));
    assert_eq!(parse_xyz_content("-1\ncomment\n"), Err(XyzError::AtomCount));
    assert_eq!(parse_xyz_content("\ncomment\n"), Err(XyzError::AtomCount));
    assert_eq!(parse_xyz_content("1.0\ncomment\nH 0 0 0\n"), Err(XyzError::AtomCount));
    assert_eq!(parse_xyz_content("1 2\ncomment\nH 0 0 0\n"), Err(XyzError::AtomCount));
}

#[test]
fn count_line_may_have_white_space_around() {
    assert_eq!(
        parse_xyz_content("  1 \t\r\ncomment\r\nC 1 2 3\r\n"),
        Ok(vec![record("C", "1", "2", "3")])
    );
}

#[test]
fn lines_beyond_the_count_are_not_read() {
    let text = "1\ncomment\nC 1 2 3\nN bad bad bad\n";
    assert_eq!(parse_xyz_content(text), Ok(vec![record("C", "1", "2", "3")]));
}

#[test]
fn count_beyond_the_lines_reads_what_is_there() {
    let text = "10\ncomment\nC 1 2 3\nN 4 5 6";
    assert_eq!(
        parse_xyz_content(text),
        Ok(vec![record("C", "1", "2", "3"), record("N", "4", "5", "6")])
    );
}

#[test]
fn short_lines_are_skipped_and_still_counted() {
    let text = "2\ncomment\nC 1 2\nN 4 5 6\nO 7 8 9\n";
    assert_eq!(parse_xyz_content(text), Ok(vec![record("N", "4", "5", "6")]));
    let blank = "3\ncomment\n\nN 4 5 6\n   \n";
    assert_eq!(parse_xyz_content(blank), Ok(vec![record("N", "4", "5", "6")]));
}

#[test]
fn fields_after_the_fourth_are_ignored() {
    let text = "1\ncomment\nC 1 2 3 extra 4.5\n";
    assert_eq!(parse_xyz_content(text), Ok(vec![record("C", "1", "2", "3")]));
}

#[test]
fn bad_coordinate_fails_the_text() {
    assert_eq!(parse_xyz_content("1\nc\nC x 2 3\n"), Err(XyzError::XCoordinate));
    assert_eq!(parse_xyz_content("1\nc\nC 1 y 3\n"), Err(XyzError::YCoordinate));
    assert_eq!(parse_xyz_content("1\nc\nC 1 2 z\n"), Err(XyzError::ZCoordinate));
}

#[test]
fn first_bad_coordinate_names_the_error() {
    assert_eq!(parse_xyz_content("1\nc\nC x y z\n"), Err(XyzError::XCoordinate));
    assert_eq!(parse_xyz_content("1\nc\nC 1 y z\n"), Err(XyzError::YCoordinate));
    assert_eq!(
        parse_xyz_content("3\nc\nC 1 2 3\nN 1 2 z\nO x 2 3\n"),
        Err(XyzError::ZCoordinate)
    );
}

#[test]
fn bad_coordinate_beyond_the_count_does_no_harm() {
    assert_eq!(
        parse_xyz_content("1\nc\nC 1 2 3\nN x y z\n"),
        Ok(vec![record("C", "1", "2", "3")])
    );
}

#[test]
fn extended_comment_line_changes_nothing() {
    let text = "1\nLattice=\"1 0 0 0 1 0 0 0 1\" Properties=species:S:1:pos:R:3\nSi 0 0 0\n";
    assert_eq!(parse_xyz_content(text), Ok(vec![record("Si", "0", "0", "0")]));
}

#[test]
fn parse_record_reads_one_line() {
    assert_eq!(parse_record(&chars("  Fe  1.5\t-2  3e2 ")), Ok(Some(record("Fe", "1.5", "-2", "3e2"))));
    assert_eq!(parse_record(&chars("Fe 1.5 -2")), Ok(None));
    assert_eq!(parse_record(&chars("")), Ok(None));
    assert_eq!(parse_record(&chars("Fe 1.5 -2 three")), Err(XyzError::ZCoordinate));
}

#[test]
fn extended_comment_is_told_by_lattice_or_properties() {
    assert!(extended_comment(&chars("Lattice=\"1 0 0\"")));
    assert!(extended_comment(&chars("energy=1 Properties=species:S:1")));
    assert!(!extended_comment(&chars("water molecule")));
    assert!(!extended_comment(&chars(" Lattice=\"1 0 0\"")));
    assert!(!extended_comment(&chars("")));
}

#[test]
fn extended_properties_leave_the_map() {
    let mut properties = HashMap::new();
    properties.insert("a".to_string(), "b".to_string());
    let before = properties.clone();
    parse_extended_xyz_properties("Lattice=\"1 0 0\"", &mut properties);
    assert_eq!(properties, before);
}

#[test]
fn errors_have_their_wording() {
    assert_eq!(XyzError::TooShort.message(), "XYZ file too short");
    assert_eq!(XyzError::AtomCount.message(), "Failed to parse number of atoms");
    assert_eq!(XyzError::XCoordinate.message(), "Failed to parse x coordinate");
    assert_eq!(XyzError::YCoordinate.message(), "Failed to parse y coordinate");
    assert_eq!(XyzError::ZCoordinate.message(), "Failed to parse z coordinate");
}
