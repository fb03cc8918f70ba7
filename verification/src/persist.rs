//! The entry list as the contents of a CSV file: one row of three fields for
//! each entry, without a header row.

use vstd::prelude::*;
use crate::clock::Timestamp;
use crate::entry::{entry_views, entries_agree, Entry, EntryView, Note, NoteView, Section, SectionView};
use crate::error::AppError;
use crate::text::str_equal;

verus! {

/// The error of the `csv` crate.
#[verifier::external_type_specification]
#[verifier::external_body]
pub struct ExCsvError(csv::Error);

/// The error of chrono's parsers.
#[verifier::external_type_specification]
#[verifier::external_body]
pub struct ExParseError(chrono::ParseError);

/// A timestamp as an RFC 3339 date and time in its own zone, as chrono's
/// `DateTime::to_rfc3339` writes it; `None` where chrono cannot hold the
/// instant or the offset.
pub uninterp spec fn rfc3339_text(t: Timestamp) -> Option<Seq<char>>;

/// The instant and the offset that chrono's `DateTime::parse_from_rfc3339`
/// reads from a text; `None` where it rejects the text.
pub uninterp spec fn rfc3339_time(text: Seq<char>) -> Option<Timestamp>;

/// The bytes of one CSV row of three fields, as the `csv` crate writes it
/// with its default settings and no header row; `None` where it reports an
/// error.
pub uninterp spec fn csv_line(kind: Seq<char>, when: Seq<char>, text: Seq<char>) -> Option<Seq<u8>>;

/// What the `csv` crate reads from a file's bytes with its default settings
/// and no header row: for each record in turn its fields, or `None` where it
/// reports an error for that record.
pub uninterp spec fn csv_records(data: Seq<u8>) -> Seq<Option<Seq<Seq<char>>>>;

/// Writes a timestamp with chrono's `DateTime::to_rfc3339`, in the zone that
/// its offset gives. The result is [`rfc3339_text`] of the timestamp.
#[verifier::external_body]
pub(crate) fn format_rfc3339(t: &Timestamp) -> (r: Option<String>)
    ensures
        match r {
            Some(s) => rfc3339_text(*t) == Some(s@),
            None => rfc3339_text(*t) is None,
        },
{
    let zone = chrono::FixedOffset::east_opt(t.offset)?;
    let utc = chrono::DateTime::from_timestamp(t.secs, t.nanos)?;
    Some(utc.with_timezone(&zone).to_rfc3339())
}

/// Reads a timestamp with chrono's `DateTime::parse_from_rfc3339`. The
/// result is [`rfc3339_time`] of the text.
#[verifier::external_body]
pub(crate) fn parse_rfc3339(text: &str) -> (r: Result<Timestamp, chrono::ParseError>)
    ensures
        match r {
            Ok(t) => rfc3339_time(text@) == Some(t),
            Err(_) => rfc3339_time(text@) is None,
        },
{
    let time = chrono::DateTime::parse_from_rfc3339(text)?;
    Ok(
        Timestamp {
            secs: time.timestamp(),
            nanos: time.timestamp_subsec_nanos(),
            offset: time.offset().local_minus_utc(),
        },
    )
}

/// Moves a timestamp to the machine's time zone with chrono's
/// `DateTime::with_timezone`: the instant stays, and the offset becomes the
/// one that the zone has at that instant, of which nothing is claimed. A
/// timestamp that chrono cannot hold comes back as it is.
#[verifier::external_body]
pub(crate) fn in_local_zone(t: Timestamp) -> (r: Timestamp)
    ensures
        r.same_instant(t),
{
    match chrono::DateTime::from_timestamp(t.secs, t.nanos) {
        Some(utc) => Timestamp {
            secs: t.secs,
            nanos: t.nanos,
            offset: utc.with_timezone(&chrono::Local).offset().local_minus_utc(),
        },
        None => t,
    }
}

/// Writes one row of three fields with the `csv` crate's
/// `Writer::serialize`, on a writer of its own made without a header row,
/// and hands back the bytes. The result is [`csv_line`] of the three fields.
#[verifier::external_body]
pub(crate) fn write_csv_line(kind: &str, when: &str, text: &str) -> (r: Result<Vec<u8>, csv::Error>)
    ensures
        match r {
            Ok(bytes) => csv_line(kind@, when@, text@) == Some(bytes@),
            Err(_) => csv_line(kind@, when@, text@) is None,
        },
{
    let mut writer = csv::WriterBuilder::new().has_headers(false).from_writer(Vec::new());
    writer.serialize((kind, when, text))?;
    writer.into_inner().map_err(|e| csv::Error::from(e.into_error()))
}

/// Whether a file of this name is offered for loading: the name ends in
/// `.csv` and has something before that.
pub open spec fn csv_name(name: Seq<char>) -> bool {
    name.len() > 4 && name.subrange(name.len() - 4, name.len() as int) == ".csv"@
}

/// Whether a file of this name is offered for loading.
pub fn is_csv_name(name: &str) -> (r: bool)
    ensures
        r == csv_name(name@),
{
    let n = name.unicode_len();
    n > 4 && str_equal(name.substring_char(n - 4, n), ".csv")
}

/// The fields of a record as texts.
pub open spec fn field_texts(fields: Seq<String>) -> Seq<Seq<char>> {
    Seq::new(fields.len(), |i: int| fields[i]@)
}

/// What was read for each record: its fields as texts, or `None` for an
/// error.
pub open spec fn record_texts(records: Seq<Result<Vec<String>, csv::Error>>) -> Seq<
    Option<Seq<Seq<char>>>,
> {
    Seq::new(
        records.len(),
        |i: int|
            match records[i] {
                Ok(fields) => Some(field_texts(fields@)),
                Err(_) => None,
            },
    )
}

/// Reads every record of a file's bytes with the `csv` crate's
/// `Reader::records`, on a reader made without a header row, and hands each
/// one out as its fields or its error. The result is [`csv_records`] of the
/// bytes.
#[verifier::external_body]
pub(crate) fn read_csv_records(data: &[u8]) -> (r: Vec<Result<Vec<String>, csv::Error>>)
    ensures
        record_texts(r@) == csv_records(data@),
{
    let mut reader = csv::ReaderBuilder::new().has_headers(false).from_reader(data);
    let records = reader.records().map(
        |record| record.map(|fields| fields.iter().map(String::from).collect()),
    ).collect();
    records
}

/// The bytes of the row of one entry: `note`, the time and the text for a
/// note; `section`, an empty field and the title for a section.
pub open spec fn encoded_entry(e: EntryView) -> Result<Seq<u8>, AppError> {
    match e {
        EntryView::Note(n) => match rfc3339_text(n.timestamp) {
            None => Err(AppError::Timestamp),
            Some(when) => match csv_line("note"@, when, n.text) {
                Some(bytes) => Ok(bytes),
                None => Err(AppError::Csv),
            },
        },
        EntryView::Section(s) => match csv_line("section"@, Seq::empty(), s.title) {
            Some(bytes) => Ok(bytes),
            None => Err(AppError::Csv),
        },
    }
}

/// The bytes of a file that holds the entries: their rows in order. Where a
/// row cannot be written, the error of the first such row.
pub open spec fn encoded(entries: Seq<EntryView>) -> Result<Seq<u8>, AppError>
    decreases entries.len(),
{
    if entries.len() == 0 {
        Ok(Seq::empty())
    } else {
        match encoded(entries.drop_last()) {
            Err(e) => Err(e),
            Ok(head) => match encoded_entry(entries.last()) {
                Err(e) => Err(e),
                Ok(line) => Ok(head + line),
            },
        }
    }
}

/// An error among the first entries is the error of the whole list.
pub proof fn lemma_encoded_error_stays(entries: Seq<EntryView>, n: int)
    requires
        0 <= n <= entries.len(),
        encoded(entries.take(n)) is Err,
    ensures
        encoded(entries) == encoded(entries.take(n)),
    decreases entries.len() - n,
{
    if n == entries.len() {
        assert(entries.take(n) =~= entries);
    } else {
        assert(entries.take(n + 1).drop_last() =~= entries.take(n));
        lemma_encoded_error_stays(entries, n + 1);
    }
}

/// Writes the entries as the bytes of a CSV file.
pub fn write_entries(entries: &Vec<Entry>) -> (r: Result<Vec<u8>, AppError>)
    ensures
        match r {
            Ok(bytes) => encoded(entry_views(entries@)) == Ok::<Seq<u8>, AppError>(bytes@),
            Err(e) => encoded(entry_views(entries@)) == Err::<Seq<u8>, AppError>(e),
        },
{
    let ghost views = entry_views(entries@);
    let mut out: Vec<u8> = Vec::new();
    let mut i: usize = 0;
    assert(views.take(0) =~= Seq::<EntryView>::empty());
    while i < entries.len()
        invariant
            i <= entries.len(),
            views == entry_views(entries@),
            encoded(views.take(i as int)) == Ok::<Seq<u8>, AppError>(out@),
        decreases entries.len() - i,
    {
        proof {
            assert(views.take(i + 1).drop_last() =~= views.take(i as int));
            assert(views.take(i + 1).last() == entries@[i as int]@);
            reveal_strlit("");
            assert(""@ =~= Seq::<char>::empty());
        }
        let line = match &entries[i] {
            Entry::Note(n) => match format_rfc3339(&n.timestamp) {
                None => {
                    proof {
                        lemma_encoded_error_stays(views, i + 1);
                    }
                    return Err(AppError::Timestamp);
                },
                Some(when) => write_csv_line("note", when.as_str(), n.text.as_str()),
            },
            Entry::Section(s) => write_csv_line("section", "", s.title.as_str()),
        };
        match line {
            Err(_) => {
                proof {
                    lemma_encoded_error_stays(views, i + 1);
                }
                return Err(AppError::Csv);
            },
            Ok(bytes) => {
                let mut bytes = bytes;
                out.append(&mut bytes);
            },
        }
        i += 1;
    }
    assert(views.take(i as int) =~= views);
    Ok(out)
}

/// What a record of the file stands for.
#[derive(Debug, Clone, Copy, PartialEq, Eq, Structural)]
pub enum RecordKind {
    /// A note: the first field is `note`, and a second and a third field
    /// are there.
    Note,
    /// A section: the first field is `section`, and a third field is there.
    Section,
    /// Nothing: the record is passed over.
    Skipped,
}

/// What a record with these fields stands for.
pub open spec fn kind_of(fields: Seq<Seq<char>>) -> RecordKind {
    if fields.len() >= 3 && fields[0] == "note"@ {
        RecordKind::Note
    } else if fields.len() >= 3 && fields[0] == "section"@ {
        RecordKind::Section
    } else {
        RecordKind::Skipped
    }
}

/// Tells what a record stands for.
pub fn record_kind(fields: &Vec<String>) -> (k: RecordKind)
    ensures
        k == kind_of(field_texts(fields@)),
{
    if fields.len() >= 3 && str_equal(fields[0].as_str(), "note") {
        RecordKind::Note
    } else if fields.len() >= 3 && str_equal(fields[0].as_str(), "section") {
        RecordKind::Section
    } else {
        RecordKind::Skipped
    }
}

/// The entry that a record stands for, if it stands for one.
pub open spec fn decoded_record(fields: Seq<Seq<char>>) -> Result<Option<EntryView>, AppError> {
    match kind_of(fields) {
        RecordKind::Note => match rfc3339_time(fields[1]) {
            Some(timestamp) => Ok(Some(EntryView::Note(NoteView { timestamp, text: fields[2] }))),
            None => Err(AppError::Timestamp),
        },
        RecordKind::Section => Ok(Some(EntryView::Section(SectionView { title: fields[2] }))),
        RecordKind::Skipped => Ok(None),
    }
}

/// The entries that the records of a file stand for, in order. Where a record
/// or the time of a note cannot be read, the error of the first such record.
pub open spec fn decoded(records: Seq<Option<Seq<Seq<char>>>>) -> Result<Seq<EntryView>, AppError>
    decreases records.len(),
{
    if records.len() == 0 {
        Ok(Seq::empty())
    } else {
        match decoded(records.drop_last()) {
            Err(e) => Err(e),
            Ok(head) => match records.last() {
                None => Err(AppError::Csv),
                Some(fields) => match decoded_record(fields) {
                    Err(e) => Err(e),
                    Ok(None) => Ok(head),
                    Ok(Some(entry)) => Ok(head.push(entry)),
                },
            },
        }
    }
}

/// An error among the first records is the error of the whole file.
pub proof fn lemma_decoded_error_stays(records: Seq<Option<Seq<Seq<char>>>>, n: int)
    requires
        0 <= n <= records.len(),
        decoded(records.take(n)) is Err,
    ensures
        decoded(records) == decoded(records.take(n)),
    decreases records.len() - n,
{
    if n == records.len() {
        assert(records.take(n) =~= records);
    } else {
        assert(records.take(n + 1).drop_last() =~= records.take(n));
        lemma_decoded_error_stays(records, n + 1);
    }
}

/// Builds the entries that the records of a file stand for. The loaded
/// entries agree with [`decoded`] of the records; the time of each note is
/// shown in the machine's zone.
pub fn read_entries(records: &Vec<Result<Vec<String>, csv::Error>>) -> (r: Result<Vec<Entry>, AppError>)
    ensures
        match r {
            Ok(entries) => decoded(record_texts(records@)) matches Ok(d) && entries_agree(
                entry_views(entries@),
                d,
            ),
            Err(e) => decoded(record_texts(records@)) == Err::<Seq<EntryView>, AppError>(e),
        },
{
    let ghost texts = record_texts(records@);
    let mut out: Vec<Entry> = Vec::new();
    let mut i: usize = 0;
    assert(texts.take(0) =~= Seq::<Option<Seq<Seq<char>>>>::empty());
    while i < records.len()
        invariant
            i <= records.len(),
            texts == record_texts(records@),
            decoded(texts.take(i as int)) matches Ok(d) && entries_agree(entry_views(out@), d),
        decreases records.len() - i,
    {
        proof {
            assert(texts.take(i + 1).drop_last() =~= texts.take(i as int));
            assert(texts.take(i + 1).last() == texts[i as int]);
        }
        let ghost before = entry_views(out@);
        match &records[i] {
            Err(_) => {
                proof {
                    lemma_decoded_error_stays(texts, i + 1);
                }
                return Err(AppError::Csv);
            },
            Ok(fields) => {
                assert(texts[i as int] == Some(field_texts(fields@)));
                match record_kind(fields) {
                    RecordKind::Note => match parse_rfc3339(fields[1].as_str()) {
                        Err(_) => {
                            proof {
                                lemma_decoded_error_stays(texts, i + 1);
                            }
                            return Err(AppError::Timestamp);
                        },
                        Ok(written) => {
                            let timestamp = in_local_zone(written);
                            out.push(Entry::Note(Note { timestamp, text: fields[2].clone() }));
                            assert(entry_views(out@) =~= before.push(out@.last()@));
                        },
                    },
                    RecordKind::Section => {
                        out.push(Entry::Section(Section { title: fields[2].clone() }));
                        assert(entry_views(out@) =~= before.push(out@.last()@));
                    },
                    RecordKind::Skipped => {},
                }
            },
        }
        i += 1;
    }
    assert(texts.take(i as int) =~= texts);
    Ok(out)
}

/// The three fields of the row of an entry.
pub open spec fn row_of(e: EntryView) -> Seq<Seq<char>> {
    match e {
        EntryView::Note(n) => seq!["note"@, rfc3339_text(n.timestamp)->0, n.text],
        EntryView::Section(s) => seq!["section"@, Seq::empty(), s.title],
    }
}

/// The rows of the entries as records of a file.
pub open spec fn rows_of(entries: Seq<EntryView>) -> Seq<Option<Seq<Seq<char>>>> {
    Seq::new(entries.len(), |i: int| Some(row_of(entries[i])))
}

/// Whether the time of every note among the entries can be written, and
/// reading the text back gives the instant of the note.
pub open spec fn times_read_back(entries: Seq<EntryView>) -> bool {
    forall|i: int|
        0 <= i < entries.len() && (#[trigger] entries[i]) is Note ==> {
            let t = entries[i]->Note_0.timestamp;
            rfc3339_text(t) matches Some(when) && rfc3339_time(when) matches Some(back)
                && back.same_instant(t)
        }
}

/// The rows of a list of entries stand for the entries: decoding them gives
/// a list that agrees with the entries, where the time of every note reads
/// back.
pub proof fn lemma_rows_stand_for_entries(entries: Seq<EntryView>)
    requires
        times_read_back(entries),
    ensures
        decoded(rows_of(entries)) matches Ok(back) && entries_agree(back, entries),
    decreases entries.len(),
{
    if entries.len() > 0 {
        let head = entries.drop_last();
        assert forall|i: int| 0 <= i < head.len() && (#[trigger] head[i]) is Note implies {
            let t = head[i]->Note_0.timestamp;
            rfc3339_text(t) matches Some(when) && rfc3339_time(when) matches Some(back)
                && back.same_instant(t)
        } by {
            assert(entries[i] is Note);
        }
        lemma_rows_stand_for_entries(head);
        assert(rows_of(entries).drop_last() =~= rows_of(head));
        assert(rows_of(entries).last() == Some(row_of(entries.last())));
        reveal_strlit("note");
        reveal_strlit("section");
        assert("note"@.len() != "section"@.len());
        let row = row_of(entries.last());
        match entries.last() {
            EntryView::Note(n) => {
                assert(entries[entries.len() - 1] is Note);
                assert(row[0] == "note"@);
                assert(kind_of(row) == RecordKind::Note);
            },
            EntryView::Section(s) => {
                assert(row[0] == "section"@);
                assert(kind_of(row) == RecordKind::Section);
            },
        }
    }
}

/// Loading what was saved gives the entries back, up to the zone in which
/// the time of a note is shown, provided that the two outside readers read
/// back what the writers wrote: the records read from the bytes are the rows
/// that were written, and the time of every note reads back.
pub proof fn lemma_load_reads_back_save(entries: Seq<EntryView>, bytes: Seq<u8>)
    requires
        encoded(entries) == Ok::<Seq<u8>, AppError>(bytes),
        csv_records(bytes) == rows_of(entries),
        times_read_back(entries),
    ensures
        decoded(csv_records(bytes)) matches Ok(back) && entries_agree(back, entries),
{
    lemma_rows_stand_for_entries(entries);
}

} // verus!
