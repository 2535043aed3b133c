//! Records of received and sent data, and their CSV and plain-text forms.
use vstd::prelude::*;
use vstd::string::*;
use crate::app::ExportFormat;

verus! {

/// One line of traffic: when, which direction (`RX`/`TX`), and what.
#[derive(Debug, Clone)]
pub struct DataRecord {
    pub time: String,
    pub dir: String,
    pub data: String,
}

/// The header line of a CSV export (without its line break).
pub open spec fn csv_header() -> Seq<char> {
    "\u{65f6}\u{95f4}\u{6233},\u{65b9}\u{5411},\u{6570}\u{636e}"@
}

/// A record as a CSV row: `time,dir,data` and a line break.
pub open spec fn csv_row(r: DataRecord) -> Seq<char> {
    r.time@ + ","@ + r.dir@ + ","@ + r.data@ + "\n"@
}

/// A record as a text line: `time [dir] data` and a line break.
pub open spec fn text_row(r: DataRecord) -> Seq<char> {
    r.time@ + " ["@ + r.dir@ + "] "@ + r.data@ + "\n"@
}

/// The rows of the given records, one after another.
pub open spec fn csv_rows(records: Seq<DataRecord>) -> Seq<char>
    decreases records.len(),
{
    if records.len() == 0 {
        Seq::empty()
    } else {
        csv_rows(records.drop_last()) + csv_row(records.last())
    }
}

/// The text lines of the given records, one after another.
pub open spec fn text_rows(records: Seq<DataRecord>) -> Seq<char>
    decreases records.len(),
{
    if records.len() == 0 {
        Seq::empty()
    } else {
        text_rows(records.drop_last()) + text_row(records.last())
    }
}

/// The full CSV document: the header line, then one row per record.
pub open spec fn csv_text(records: Seq<DataRecord>) -> Seq<char> {
    csv_header() + "\n"@ + csv_rows(records)
}

/// The text without the `/` characters that end it
/// (`str::trim_end_matches('/')`).
pub open spec fn without_trailing_slashes(s: Seq<char>) -> Seq<char>
    decreases s.len(),
{
    if s.len() > 0 && s.last() == '/' {
        without_trailing_slashes(s.drop_last())
    } else {
        s
    }
}

/// The file extension of an export format.
pub open spec fn extension(format: ExportFormat) -> Seq<char> {
    match format {
        ExportFormat::Csv => "csv"@,
        ExportFormat::Txt => "txt"@,
    }
}

/// The path of an export: `<dir>/serial_export_<stamp>.<csv|txt>`, the
/// directory without its trailing `/`.
pub open spec fn export_path(dir: Seq<char>, stamp: Seq<char>, format: ExportFormat) -> Seq<char> {
    without_trailing_slashes(dir) + "/serial_export_"@ + stamp + "."@ + extension(format)
}

/// The path of an export in the format into the directory, made at the
/// given time stamp.
pub fn export_file_name(dir: &str, stamp: &str, format: ExportFormat) -> (res: String)
    ensures
        res@ == export_path(dir@, stamp@, format),
{
    let n = dir.unicode_len();
    let mut j: usize = n;
    assert(dir@.subrange(0, n as int) =~= dir@);
    while j > 0 && dir.get_char(j - 1) == '/'
        invariant
            n == dir@.len(),
            j <= n,
            without_trailing_slashes(dir@) == without_trailing_slashes(dir@.subrange(0, j as int)),
        decreases j,
    {
        assert(dir@.subrange(0, j as int).drop_last() =~= dir@.subrange(0, j - 1));
        j = j - 1;
    }
    let mut name = String::from_str(dir.substring_char(0, j));
    name.append("/serial_export_");
    name.append(stamp);
    match format {
        ExportFormat::Csv => name.append(".csv"),
        ExportFormat::Txt => name.append(".txt"),
    }
    proof {
        reveal_strlit("csv");
        reveal_strlit(".csv");
        reveal_strlit("txt");
        reveal_strlit(".txt");
        reveal_strlit(".");
    }
    assert(name@ =~= export_path(dir@, stamp@, format));
    name
}

/// The CSV document for the records, as the CSV export writes it.
pub fn csv_document(records: &[DataRecord]) -> (res: String)
    ensures
        res@ == csv_text(records@),
{
    let mut out = String::new();
    out.append("\u{65f6}\u{95f4}\u{6233},\u{65b9}\u{5411},\u{6570}\u{636e}");
    out.append("\n");
    let ghost head = out@;
    let n = records.len();
    let mut i: usize = 0;
    while i < n
        invariant
            n == records@.len(),
            i <= n,
            head == csv_header() + "\n"@,
            out@ == head + csv_rows(records@.subrange(0, i as int)),
        decreases n - i,
    {
        let r = &records[i];
        out.append(r.time.as_str());
        out.append(",");
        out.append(r.dir.as_str());
        out.append(",");
        out.append(r.data.as_str());
        out.append("\n");
        proof {
            assert(records@.subrange(0, i + 1).drop_last() =~= records@.subrange(0, i as int));
            assert(out@ =~= head + csv_rows(records@.subrange(0, i + 1)));
        }
        i = i + 1;
    }
    assert(records@.subrange(0, n as int) =~= records@);
    out
}

/// The plain-text document for the records, as the text export writes it.
pub fn text_document(records: &[DataRecord]) -> (res: String)
    ensures
        res@ == text_rows(records@),
{
    let mut out = String::new();
    let n = records.len();
    let mut i: usize = 0;
    while i < n
        invariant
            n == records@.len(),
            i <= n,
            out@ == text_rows(records@.subrange(0, i as int)),
        decreases n - i,
    {
        let r = &records[i];
        out.append(r.time.as_str());
        out.append(" [");
        out.append(r.dir.as_str());
        out.append("] ");
        out.append(r.data.as_str());
        out.append("\n");
        proof {
            assert(records@.subrange(0, i + 1).drop_last() =~= records@.subrange(0, i as int));
            assert(out@ =~= text_rows(records@.subrange(0, i + 1)));
        }
        i = i + 1;
    }
    assert(records@.subrange(0, n as int) =~= records@);
    out
}

} // verus!
