use fft_spectrum::read_csv;
use fft_spectrum::SpectrumError;

fn strings(fields: &[&str]) -> Vec<String> {
    fields.iter().map(|f| f.to_string()).collect()
}

#[test]
fn short_rows_are_skipped_not_errors() {
    let data = b"t,v\n0,1\n1,2\n2";
    let (time, values) = read_csv(data.as_slice()).unwrap();
    assert_eq!(time, strings(&["0", "1"]));
    assert_eq!(values, strings(&["1", "2"]));
}

#[test]
fn header_row_is_consumed() {
    let data = b"t,v\n3,4\n";
    let (time, values) = read_csv(data.as_slice()).unwrap();
    assert_eq!(time, strings(&["3"]));
    assert_eq!(values, strings(&["4"]));
}

#[test]
fn fields_are_returned_verbatim() {
    let data = b"t,v\n 0 ,\t1.5\n";
    let (time, values) = read_csv(data.as_slice()).unwrap();
    assert_eq!(time, strings(&[" 0 "]));
    assert_eq!(values, strings(&["\t1.5"]));
}

#[test]
fn quoted_separator_stays_in_one_field() {
    let data = b"t,v\n\"a,b\",c\n";
    let (time, values) = read_csv(data.as_slice()).unwrap();
    assert_eq!(time, strings(&["a,b"]));
    assert_eq!(values, strings(&["c"]));
}

#[test]
fn columns_beyond_the_second_are_ignored() {
    let data = b"a,b,c\n1,2,3\n4,5,6\n";
    let (time, values) = read_csv(data.as_slice()).unwrap();
    assert_eq!(time, strings(&["1", "4"]));
    assert_eq!(values, strings(&["2", "5"]));
}

#[test]
fn empty_input_yields_empty_columns() {
    let (time, values) = read_csv(b"".as_slice()).unwrap();
    assert!(time.is_empty());
    assert!(values.is_empty());
}

#[test]
fn invalid_utf8_is_a_format_error() {
    let data = b"t,v\n\xff\xfe,1\n";
    let err = read_csv(data.as_slice()).unwrap_err();
    assert!(matches!(err, SpectrumError::CsvFormat(_)));
}
