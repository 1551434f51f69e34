//! Records of a CSV table as named fields.

use vstd::prelude::*;

verus! {

/// Each header paired with the field at the same position of a record, up to
/// the end of the shorter of the two.
pub open spec fn paired(headers: Seq<String>, record: Seq<String>) -> Seq<(Seq<char>, Seq<char>)> {
    Seq::new(
        if headers.len() <= record.len() {
            headers.len()
        } else {
            record.len()
        },
        |i: int| (headers[i]@, record[i]@),
    )
}

/// The fields of one record under the names of their columns. A record with
/// more fields than there are headers loses the fields beyond them, and
/// headers beyond the last field name nothing.
pub fn process_record(headers: &Vec<String>, record: &Vec<String>) -> (fields: Vec<
    (String, String),
>)
    ensures
        is_record(fields@, headers@, record@),
{
    let count = if headers.len() <= record.len() {
        headers.len()
    } else {
        record.len()
    };
    let mut fields: Vec<(String, String)> = Vec::new();
    let mut i: usize = 0;
    while i < count
        invariant
            i <= count,
            count == paired(headers@, record@).len(),
            count <= headers@.len(),
            count <= record@.len(),
            fields@.len() == i,
            forall|j: int|
                0 <= j < i ==> (#[trigger] fields@[j]).0@ == headers@[j]@ && fields@[j].1@
                    == record@[j]@,
        decreases count - i,
    {
        fields.push((headers[i].clone(), record[i].clone()));
        i += 1;
    }
    fields
}

/// Whether `fields` are the fields of `record` under the names `headers`.
pub open spec fn is_record(
    fields: Seq<(String, String)>,
    headers: Seq<String>,
    record: Seq<String>,
) -> bool {
    &&& fields.len() == paired(headers, record).len()
    &&& forall|i: int|
        0 <= i < fields.len() ==> (#[trigger] fields[i]).0@ == paired(headers, record)[i].0
            && fields[i].1@ == paired(headers, record)[i].1
}

/// Every record of a table as named fields, in the order of the records.
pub fn process_csv(headers: &Vec<String>, records: &Vec<Vec<String>>) -> (rows: Vec<
    Vec<(String, String)>,
>)
    ensures
        rows@.len() == records@.len(),
        forall|r: int|
            0 <= r < rows@.len() ==> is_record((#[trigger] rows@[r])@, headers@, records@[r]@),
{
    let mut rows: Vec<Vec<(String, String)>> = Vec::new();
    let mut r: usize = 0;
    while r < records.len()
        invariant
            r <= records@.len(),
            rows@.len() == r,
            forall|k: int|
                0 <= k < r ==> is_record((#[trigger] rows@[k])@, headers@, records@[k]@),
        decreases records@.len() - r,
    {
        rows.push(process_record(headers, &records[r]));
        r += 1;
    }
    rows
}

} // verus!
