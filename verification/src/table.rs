use vstd::prelude::*;

verus! {

/// The header of the result table.
pub open spec fn header() -> Seq<Seq<char>> {
    seq!["row_names"@, "cohen_d"@]
}

/// The result row of one feature: its name, then its effect size as text.
pub open spec fn result_row_of(name: Seq<char>, value: Seq<char>) -> Seq<Seq<char>> {
    seq![name, value]
}

/// The whole result table: the header, then one row per name, in the order of the names.
pub open spec fn table(names: Seq<Seq<char>>, values: Seq<Seq<char>>) -> Seq<Seq<Seq<char>>>
    recommends
        names.len() == values.len(),
{
    seq![header()] + Seq::new(names.len(), |i: int| result_row_of(names[i], values[i]))
}

/// Builds the header row.
pub fn header_row() -> (row: Vec<String>)
    ensures
        row.deep_view() == header(),
{
    let mut row: Vec<String> = Vec::new();
    row.push(String::from_str("row_names"));
    row.push(String::from_str("cohen_d"));
    assert(row.deep_view() =~= header());
    row
}

/// Builds the result row of one feature.
pub fn result_row(name: String, value: String) -> (row: Vec<String>)
    ensures
        row.deep_view() == result_row_of(name@, value@),
{
    let mut row: Vec<String> = Vec::new();
    row.push(name);
    row.push(value);
    assert(row.deep_view() =~= result_row_of(name@, value@));
    row
}

} // verus!
