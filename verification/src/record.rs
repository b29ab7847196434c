use vstd::prelude::*;

verus! {

/// The row name of a record: its first field. A record without fields has none.
pub open spec fn row_name_of(record: Seq<Seq<char>>) -> Option<Seq<char>> {
    if record.len() == 0 {
        None
    } else {
        Some(record[0])
    }
}

/// The sample fields of a record: every field after the first, in order.
pub open spec fn sample_fields_of(record: Seq<Seq<char>>) -> Seq<Seq<char>> {
    if record.len() == 0 {
        record
    } else {
        record.subrange(1, record.len() as int)
    }
}

/// Reads the row name of a record.
pub fn row_name(record: &Vec<String>) -> (name: Option<String>)
    ensures
        match name {
            Some(text) => row_name_of(record.deep_view()) == Some(text@),
            None => row_name_of(record.deep_view()) is None,
        },
{
    if record.len() == 0 {
        None
    } else {
        Some(record[0].clone())
    }
}

/// Takes the row name off a record and keeps the sample fields, in order.
pub fn sample_fields(record: Vec<String>) -> (fields: Vec<String>)
    ensures
        fields.deep_view() == sample_fields_of(record.deep_view()),
{
    let mut fields = record;
    if fields.len() > 0 {
        let _ = fields.remove(0);
    }
    assert(fields.deep_view() =~= sample_fields_of(record.deep_view()));
    fields
}

/// A record with a row name is that name followed by its sample fields:
/// taking a record apart loses nothing and reorders nothing.
pub proof fn lemma_record_is_name_then_samples(record: Seq<Seq<char>>)
    requires
        record.len() > 0,
    ensures
        record == seq![row_name_of(record).unwrap()] + sample_fields_of(record),
        sample_fields_of(record).len() == record.len() - 1,
{
    assert(record =~= seq![row_name_of(record).unwrap()] + sample_fields_of(record));
}

} // verus!
