//! The XYZ text format: a line with the atom count, a comment line, then one
//! line per atom with a label and three coordinates.

use std::collections::HashMap;
use vstd::prelude::*;
use crate::number::{count_of, is_coordinate, is_number, parse_count};
use crate::text::{
    begins_with, chars_of, contains, fields_of, holds, lines, lines_of, split_whitespace,
    starts_with, string_of, trim, trimmed,
};

verus! {

/// Why a text is no XYZ file.
#[derive(Clone, Copy, Debug, PartialEq, Eq, Structural)]
pub enum XyzError {
    /// The text has fewer than two lines.
    TooShort,
    /// The first line is no atom count.
    AtomCount,
    /// The first coordinate of an atom line is no number.
    XCoordinate,
    /// The second coordinate of an atom line is no number.
    YCoordinate,
    /// The third coordinate of an atom line is no number.
    ZCoordinate,
}

impl XyzError {
    /// The wording of each error.
    pub open spec fn message_of(self) -> Seq<char> {
        match self {
            XyzError::TooShort => "XYZ file too short"@,
            XyzError::AtomCount => "Failed to parse number of atoms"@,
            XyzError::XCoordinate => "Failed to parse x coordinate"@,
            XyzError::YCoordinate => "Failed to parse y coordinate"@,
            XyzError::ZCoordinate => "Failed to parse z coordinate"@,
        }
    }

    /// Says in words what went wrong.
    pub fn message(&self) -> (text: String)
        ensures
            text@ == self.message_of(),
    {
        match self {
            XyzError::TooShort => "XYZ file too short".to_owned(),
            XyzError::AtomCount => "Failed to parse number of atoms".to_owned(),
            XyzError::XCoordinate => "Failed to parse x coordinate".to_owned(),
            XyzError::YCoordinate => "Failed to parse y coordinate".to_owned(),
            XyzError::ZCoordinate => "Failed to parse z coordinate".to_owned(),
        }
    }
}

/// One atom line, cut into its fields. Each coordinate is the text of a
/// number as the line gives it.
#[derive(Debug, PartialEq, Eq)]
pub struct AtomRecord {
    pub element: String,
    pub x: String,
    pub y: String,
    pub z: String,
}

/// What an [`AtomRecord`] stands for in contracts.
pub struct AtomRecordView {
    pub element: Seq<char>,
    pub x: Seq<char>,
    pub y: Seq<char>,
    pub z: Seq<char>,
}

impl View for AtomRecord {
    type V = AtomRecordView;

    open spec fn view(&self) -> AtomRecordView {
        AtomRecordView { element: self.element@, x: self.x@, y: self.y@, z: self.z@ }
    }
}

impl DeepView for AtomRecord {
    type V = AtomRecordView;

    open spec fn deep_view(&self) -> AtomRecordView {
        self@
    }
}

/// What one atom line gives: nothing if it has fewer than four fields, else
/// its record, or the error of the first coordinate that is no number.
pub open spec fn record_of(line: Seq<char>) -> Result<Option<AtomRecordView>, XyzError> {
    let fields = fields_of(line);
    if fields.len() < 4 {
        Ok(None)
    } else if !is_number(fields[1]) {
        Err(XyzError::XCoordinate)
    } else if !is_number(fields[2]) {
        Err(XyzError::YCoordinate)
    } else if !is_number(fields[3]) {
        Err(XyzError::ZCoordinate)
    } else {
        Ok(Some(AtomRecordView { element: fields[0], x: fields[1], y: fields[2], z: fields[3] }))
    }
}

/// What a run of atom lines gives: the records of its lines in order, or the
/// error of the first line that has one.
pub open spec fn records_of(lines: Seq<Seq<char>>) -> Result<Seq<AtomRecordView>, XyzError>
    decreases lines.len(),
{
    if lines.len() == 0 {
        Ok(Seq::empty())
    } else {
        match records_of(lines.drop_last()) {
            Err(error) => Err(error),
            Ok(records) => match record_of(lines.last()) {
                Err(error) => Err(error),
                Ok(None) => Ok(records),
                Ok(Some(record)) => Ok(records.push(record)),
            },
        }
    }
}

/// Once a run of atom lines has met an error, lines that follow change nothing.
pub proof fn lemma_first_error_stays(lines: Seq<Seq<char>>, n: int)
    requires
        0 <= n <= lines.len(),
        records_of(lines.take(n)) is Err,
    ensures
        records_of(lines) == records_of(lines.take(n)),
    decreases lines.len() - n,
{
    if n == lines.len() {
        assert(lines.take(n) =~= lines);
    } else {
        assert(lines.drop_last().take(n) =~= lines.take(n));
        lemma_first_error_stays(lines.drop_last(), n);
    }
}

/// Where the atom lines end: after as many lines as the count says, or with
/// the text if that comes first.
pub open spec fn atom_lines_end(lines: int, count: int) -> int {
    if count < lines - 2 {
        count + 2
    } else {
        lines
    }
}

/// What an XYZ text gives. The first line holds the atom count, the second is
/// a comment; of the lines that follow, as many as the count says are atom
/// lines, and lines beyond them are not read.
pub open spec fn parsed(contents: Seq<char>) -> Result<Seq<AtomRecordView>, XyzError> {
    let lines = lines_of(contents);
    if lines.len() < 2 {
        Err(XyzError::TooShort)
    } else {
        match count_of(trimmed(lines[0])) {
            None => Err(XyzError::AtomCount),
            Some(count) => records_of(
                lines.subrange(2, atom_lines_end(lines.len() as int, count as int)),
            ),
        }
    }
}

/// The outcome of a parse in terms of contracts.
pub open spec fn outcome(result: Result<Vec<AtomRecord>, XyzError>) -> Result<
    Seq<AtomRecordView>,
    XyzError,
> {
    match result {
        Ok(records) => Ok(records.deep_view()),
        Err(error) => Err(error),
    }
}

/// Reads one atom line.
pub fn parse_record(line: &Vec<char>) -> (result: Result<Option<AtomRecord>, XyzError>)
    ensures
        match result {
            Ok(Some(record)) => record_of(line@) == Ok::<Option<AtomRecordView>, XyzError>(
                Some(record@),
            ),
            Ok(None) => record_of(line@) == Ok::<Option<AtomRecordView>, XyzError>(None),
            Err(error) => record_of(line@) == Err::<Option<AtomRecordView>, XyzError>(error),
        },
{
    let fields = split_whitespace(line);
    if fields.len() < 4 {
        return Ok(None);
    }
    proof {
        let shown = fields.deep_view();
        assert(shown[0] =~= fields[0]@);
        assert(shown[1] =~= fields[1]@);
        assert(shown[2] =~= fields[2]@);
        assert(shown[3] =~= fields[3]@);
    }
    if !is_coordinate(&fields[1]) {
        return Err(XyzError::XCoordinate);
    }
    if !is_coordinate(&fields[2]) {
        return Err(XyzError::YCoordinate);
    }
    if !is_coordinate(&fields[3]) {
        return Err(XyzError::ZCoordinate);
    }
    Ok(
        Some(
            AtomRecord {
                element: string_of(&fields[0]),
                x: string_of(&fields[1]),
                y: string_of(&fields[2]),
                z: string_of(&fields[3]),
            },
        ),
    )
}

/// Whether a comment line is of the extended form, which carries a lattice or
/// a list of properties.
pub open spec fn is_extended(comment: Seq<char>) -> bool {
    begins_with(comment, "Lattice=\""@) || holds(comment, "Properties="@)
}

/// Tells whether a comment line is of the extended form.
pub fn extended_comment(comment: &Vec<char>) -> (yes: bool)
    ensures
        yes == is_extended(comment@),
{
    let lattice = chars_of("Lattice=\"");
    let listed = chars_of("Properties=");
    starts_with(comment, &lattice) || contains(comment, &listed)
}

/// Reads the properties that an extended comment line may carry. The format
/// defines none that the viewer uses, so the map is left as it is.
pub fn parse_extended_xyz_properties(comment: &str, properties: &mut HashMap<String, String>)
    ensures
        *final(properties) == *old(properties),
{
}

/// Reads an XYZ text. Atom lines with fewer than four fields are skipped; a
/// coordinate that is no number fails the whole text.
pub fn parse_xyz_content(contents: &str) -> (result: Result<Vec<AtomRecord>, XyzError>)
    ensures
        outcome(result) == parsed(contents@),
{
    let chars = chars_of(contents);
    let all = lines(&chars);
    if all.len() < 2 {
        return Err(XyzError::TooShort);
    }
    let ghost shown = all.deep_view();
    assert(shown[0] =~= all[0]@);
    let count = match parse_count(&trim(&all[0])) {
        Some(count) => count,
        None => {
            return Err(XyzError::AtomCount);
        },
    };
    let comment = trim(&all[1]);
    let mut properties: HashMap<String, String> = HashMap::new();
    if extended_comment(&comment) {
        parse_extended_xyz_properties(string_of(&comment).as_str(), &mut properties);
    }
    let end = if count < all.len() - 2 {
        count + 2
    } else {
        all.len()
    };
    let mut records: Vec<AtomRecord> = Vec::new();
    let mut i: usize = 2;
    assert(shown.subrange(2, 2) =~= Seq::<Seq<char>>::empty());
    assert(records.deep_view() =~= Seq::<AtomRecordView>::empty());
    let ghost goal = shown.subrange(2, end as int);
    while i < end
        invariant
            2 <= i <= end <= all.len(),
            shown == all.deep_view(),
            goal == shown.subrange(2, end as int),
            parsed(contents@) == records_of(goal),
            records_of(shown.subrange(2, i as int)) == Ok::<Seq<AtomRecordView>, XyzError>(
                records.deep_view(),
            ),
        decreases end - i,
    {
        let ghost before = records.deep_view();
        proof {
            assert(shown[i as int] =~= all[i as int]@);
            assert(shown.subrange(2, i + 1).drop_last() =~= shown.subrange(2, i as int));
            assert(shown.subrange(2, i + 1).last() == shown[i as int]);
        }
        match parse_record(&all[i]) {
            Err(error) => {
                proof {
                    assert(goal.take(i + 1 - 2) =~= shown.subrange(2, i + 1));
                    lemma_first_error_stays(goal, i + 1 - 2);
                }
                return Err(error);
            },
            Ok(None) => {},
            Ok(Some(record)) => {
                records.push(record);
                assert(records.deep_view() =~= before.push(record@));
            },
        }
        i += 1;
    }
    Ok(records)
}

} // verus!
