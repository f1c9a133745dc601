use vstd::prelude::*;

use crate::error::SpectrumError;

verus! {

/// What the CSV reader yields on a given byte stream in flexible,
/// header-skipping mode: `Some(records)`, one record (the sequence of its
/// fields) per data row with the header row excluded, or `None` when the
/// stream is not well-formed CSV.
pub uninterp spec fn csv_records(data: Seq<u8>) -> Option<Seq<Seq<Seq<char>>>>;

/// Relies on csv::ReaderBuilder / csv::Reader: parsing is a pure function of
/// the input bytes. In flexible mode rows may differ in field count; the
/// first row is consumed as the header; a malformed stream (e.g. a field
/// that is not valid UTF-8) is reported as an error.
#[verifier::external_body]
fn parse_records(data: &[u8]) -> (r: Result<Vec<Vec<String>>, String>)
    ensures
        r is Ok <==> csv_records(data@) is Some,
        r is Ok ==> r->Ok_0.deep_view() == csv_records(data@)->Some_0,
{
    let mut reader = csv::ReaderBuilder::new()
        .has_headers(true)
        .flexible(true)
        .from_reader(data);
    let mut out: Vec<Vec<String>> = Vec::new();
    for record in reader.records() {
        match record {
            Ok(rec) => out.push(rec.iter().map(|f| f.to_string()).collect()),
            Err(e) => return Err(format!("{e}")),
        }
    }
    Ok(out)
}

/// The first-column entries of the records that have at least two fields, in
/// record order.
pub open spec fn first_fields(records: Seq<Seq<Seq<char>>>) -> Seq<Seq<char>>
    decreases records.len(),
{
    if records.len() == 0 {
        Seq::empty()
    } else if records.last().len() >= 2 {
        first_fields(records.drop_last()).push(records.last()[0])
    } else {
        first_fields(records.drop_last())
    }
}

/// The second-column entries of the records that have at least two fields,
/// in record order.
pub open spec fn second_fields(records: Seq<Seq<Seq<char>>>) -> Seq<Seq<char>>
    decreases records.len(),
{
    if records.len() == 0 {
        Seq::empty()
    } else if records.last().len() >= 2 {
        second_fields(records.drop_last()).push(records.last()[1])
    } else {
        second_fields(records.drop_last())
    }
}

/// Splits a CSV byte stream (header row first) into its first two columns:
/// for every record with at least two fields, field 0 goes to the first
/// result and field 1 to the second, in file order; records with fewer than
/// two fields are skipped. The text of each field is returned as is —
/// trimming and numeric interpretation are the caller's concern. Fails, with
/// no partial result, exactly when the bytes are not well-formed CSV.
pub fn read_csv(data: &[u8]) -> (r: Result<(Vec<String>, Vec<String>), SpectrumError>)
    ensures
        r is Ok <==> csv_records(data@) is Some,
        r is Err ==> r->Err_0 is CsvFormat,
        r is Ok ==> r->Ok_0.0.deep_view() == first_fields(csv_records(data@)->Some_0),
        r is Ok ==> r->Ok_0.1.deep_view() == second_fields(csv_records(data@)->Some_0),
        r is Ok ==> r->Ok_0.0@.len() == r->Ok_0.1@.len(),
{
    let records = match parse_records(data) {
        Ok(rs) => rs,
        Err(msg) => {
            return Err(SpectrumError::CsvFormat(msg));
        },
    };
    let ghost all = records.deep_view();
    let mut time: Vec<String> = Vec::new();
    let mut measured: Vec<String> = Vec::new();
    let n = records.len();
    for i in 0..n
        invariant
            n == records.len(),
            all == records.deep_view(),
            time@.len() == measured@.len(),
            time.deep_view() == first_fields(all.take(i as int)),
            measured.deep_view() == second_fields(all.take(i as int)),
    {
        proof {
            assert(all.take(i + 1).drop_last() =~= all.take(i as int));
            assert(all.take(i + 1).last() == all[i as int]);
            assert(all[i as int] == records@[i as int].deep_view());
        }
        let rec = &records[i];
        if rec.len() >= 2 {
            let t = rec[0].clone();
            let m = rec[1].clone();
            time.push(t);
            measured.push(m);
            proof {
                assert(time.deep_view() =~= first_fields(all.take(i + 1)));
                assert(measured.deep_view() =~= second_fields(all.take(i + 1)));
            }
        } else {
            proof {
                assert(time.deep_view() =~= first_fields(all.take(i + 1)));
                assert(measured.deep_view() =~= second_fields(all.take(i + 1)));
            }
        }
    }
    proof {
        assert(all.take(n as int) =~= all);
    }
    Ok((time, measured))
}

} // verus!
