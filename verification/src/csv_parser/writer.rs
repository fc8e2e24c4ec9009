//! Writing reports as CSV.

use vstd::prelude::*;
use vstd::string::*;
use crate::csv_parser::structs::{FilmOutput, StudentOutput};
use crate::errors::Error;
use crate::text::{decimal_i32, int_text, texts};

verus! {

/// What the `csv` crate writes for one record of the given fields with a
/// writer in its default setting: the fields, quoted where they need it,
/// with commas between and a line feed at the end. `None` where the writer
/// reports an error.
pub uninterp spec fn csv_record_text(fields: Seq<Seq<char>>) -> Option<Seq<char>>;

/// Writes one record with `csv::Writer::write_record` into a fresh writer
/// over a byte vector (`csv::Writer::from_writer`), takes the bytes back
/// with `csv::Writer::into_inner` and reads them as UTF-8.
///
/// The contract only gives the result its name: the text depends on the
/// fields alone.
#[verifier::external_body]
fn write_record(fields: &Vec<String>) -> (line: Option<String>)
    ensures
        (match line {
            Some(text) => Some(text@),
            None => None,
        }) == csv_record_text(texts(fields@)),
{
    let mut wtr = csv::Writer::from_writer(vec![]);
    wtr.write_record(fields).ok()?;
    let bytes = wtr.into_inner().ok()?;
    String::from_utf8(bytes).ok()
}

/// Something that can be a line of a CSV report.
pub trait CsvRow {
    /// The column names, as a mathematical value.
    spec fn header_text() -> Seq<Seq<char>>;

    /// The fields of this line, as a mathematical value.
    spec fn row_text(&self) -> Seq<Seq<char>>;

    /// The column names.
    fn header() -> (names: Vec<String>)
        ensures
            texts(names@) == Self::header_text(),
    ;

    /// The fields of this line, one per column.
    fn row(&self) -> (fields: Vec<String>)
        ensures
            texts(fields@) == self.row_text(),
    ;
}

impl CsvRow for StudentOutput {
    open spec fn header_text() -> Seq<Seq<char>> {
        seq![
            "CLASS"@,
            "GROUP"@,
            "FIRST"@,
            "LAST"@,
            "AE"@,
            "SOUND"@,
            "EDITOR"@,
            "FINISH"@,
        ]
    }

    open spec fn row_text(&self) -> Seq<Seq<char>> {
        seq![
            self.class@,
            int_text(self.group as int),
            self.first@,
            self.last@,
            self.ae@,
            self.sound@,
            self.editor@,
            self.finish@,
        ]
    }

    fn header() -> (names: Vec<String>) {
        let mut names: Vec<String> = Vec::new();
        names.push(String::from_str("CLASS"));
        names.push(String::from_str("GROUP"));
        names.push(String::from_str("FIRST"));
        names.push(String::from_str("LAST"));
        names.push(String::from_str("AE"));
        names.push(String::from_str("SOUND"));
        names.push(String::from_str("EDITOR"));
        names.push(String::from_str("FINISH"));
        assert(texts(names@) =~= Self::header_text());
        names
    }

    fn row(&self) -> (fields: Vec<String>) {
        let mut fields: Vec<String> = Vec::new();
        fields.push(self.class.clone());
        fields.push(decimal_i32(self.group));
        fields.push(self.first.clone());
        fields.push(self.last.clone());
        fields.push(self.ae.clone());
        fields.push(self.sound.clone());
        fields.push(self.editor.clone());
        fields.push(self.finish.clone());
        assert(texts(fields@) =~= self.row_text());
        fields
    }
}

impl CsvRow for FilmOutput {
    open spec fn header_text() -> Seq<Seq<char>> {
        seq!["CODE"@, "GROUP"@, "PRIORITY"@, "AE"@, "SOUND"@, "EDITOR"@, "FINISH"@]
    }

    open spec fn row_text(&self) -> Seq<Seq<char>> {
        seq![
            self.code@,
            int_text(self.group as int),
            self.priority.text(),
            self.ae@,
            self.sound@,
            self.editor@,
            self.finish@,
        ]
    }

    fn header() -> (names: Vec<String>) {
        let mut names: Vec<String> = Vec::new();
        names.push(String::from_str("CODE"));
        names.push(String::from_str("GROUP"));
        names.push(String::from_str("PRIORITY"));
        names.push(String::from_str("AE"));
        names.push(String::from_str("SOUND"));
        names.push(String::from_str("EDITOR"));
        names.push(String::from_str("FINISH"));
        assert(texts(names@) =~= Self::header_text());
        names
    }

    fn row(&self) -> (fields: Vec<String>) {
        let mut fields: Vec<String> = Vec::new();
        fields.push(self.code.clone());
        fields.push(decimal_i32(self.group));
        fields.push(String::from_str(self.priority.as_ref()));
        fields.push(self.ae.clone());
        fields.push(self.sound.clone());
        fields.push(self.editor.clone());
        fields.push(self.finish.clone());
        assert(texts(fields@) =~= self.row_text());
        fields
    }
}

/// The records that a report of the given lines is made of: the header,
/// then one record per line. Without lines there is no header either.
pub open spec fn report_records<T: CsvRow>(items: Seq<T>) -> Seq<Seq<Seq<char>>> {
    if items.len() == 0 {
        Seq::empty()
    } else {
        seq![T::header_text()] + items.map_values(|item: T| item.row_text())
    }
}

/// All the records can be written.
pub open spec fn all_written(records: Seq<Seq<Seq<char>>>) -> bool {
    forall|i: int| 0 <= i < records.len() ==> (#[trigger] csv_record_text(records[i])) is Some
}

/// The texts of the records, one after the other.
pub open spec fn records_text(records: Seq<Seq<Seq<char>>>) -> Seq<char>
    decreases records.len(),
{
    if records.len() == 0 {
        Seq::empty()
    } else {
        records_text(records.drop_last()) + csv_record_text(records.last()).unwrap()
    }
}

/// Writes the lines as a CSV report: the header first, then the lines in
/// order. An empty report is the empty text.
///
/// Fails with an internal error exactly when the writer refuses a record.
pub fn to_csv_string<T: CsvRow>(items: Vec<T>) -> (r: Result<String, Error>)
    ensures
        r is Ok <==> all_written(report_records(items@)),
        r matches Ok(text) ==> text@ == records_text(report_records(items@)),
        r matches Err(e) ==> e matches Error::Internal(m) && m@ == "CSV write error"@,
{
    let mut text = String::new();
    if items.len() == 0 {
        return Ok(text);
    }
    let ghost records = report_records(items@);
    match write_record(&T::header()) {
        Some(line) => {
            text = text.concat(line.as_str());
        },
        None => {
            assert(csv_record_text(records[0]) is None);
            return Err(Error::Internal(String::from_str("CSV write error")));
        },
    }
    assert(records.take(1).drop_last() =~= Seq::<Seq<Seq<char>>>::empty());
    assert(records_text(records.take(1).drop_last()) =~= Seq::<char>::empty());
    assert(text@ =~= records_text(records.take(1)));
    let mut i: usize = 0;
    while i < items.len()
        invariant
            i <= items@.len(),
            items@.len() > 0,
            records == report_records(items@),
            text@ == records_text(records.take(i + 1)),
            all_written(records.take(i + 1)),
        decreases items@.len() - i,
    {
        let fields = items[i].row();
        assert(records[i + 1] == items@[i as int].row_text());
        assert(records.take(i + 2).drop_last() =~= records.take(i + 1));
        match write_record(&fields) {
            Some(line) => {
                text = text.concat(line.as_str());
            },
            None => {
                assert(csv_record_text(records[i + 1]) is None);
                return Err(Error::Internal(String::from_str("CSV write error")));
            },
        }
        i += 1;
    }
    assert(records.take(i + 1) =~= records);
    Ok(text)
}

} // verus!
