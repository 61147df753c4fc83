use ospeak::adapter::{extract, prepare, PaddedBatch, PAD_SYMBOL};
use ospeak::error::ErrorKind;

fn prepared(batch: Vec<Vec<i64>>) -> PaddedBatch {
    match prepare(&batch) {
        Ok(p) => p,
        Err(e) => panic!("unexpected error: {}", e.message),
    }
}

#[test]
fn single_row_keeps_its_symbols() {
    let p = prepared(vec![vec![1, 5, 22]]);
    assert_eq!(p.width, 3);
    assert_eq!(p.lengths, vec![3]);
    assert_eq!(p.rows, vec![vec![1, 5, 22]]);
    assert_eq!(p.row_count(), 1);
}

#[test]
fn rows_of_different_length_share_one_width() {
    let p = prepared(vec![vec![1, 5, 22], vec![3]]);
    assert_eq!(p.width, 3);
    assert_eq!(p.rows, vec![vec![1, 5, 22], vec![3, 0, 0]]);
    assert_eq!(p.lengths, vec![3, 1]);
    for row in &p.rows {
        assert_eq!(row.len(), p.width);
    }
}

#[test]
fn row_order_is_kept_and_lengths_fit_the_width() {
    let batch = vec![vec![7], vec![4, 4, 4, 4], vec![9, 8], vec![2, 3, 5]];
    let p = prepared(batch.clone());
    assert_eq!(p.width, 4);
    assert_eq!(p.lengths, vec![1, 4, 2, 3]);
    for (i, row) in batch.iter().enumerate() {
        assert!(p.lengths[i] <= p.width);
        assert_eq!(&p.rows[i][..p.lengths[i]], row.as_slice());
        assert!(p.rows[i][p.lengths[i]..].iter().all(|&s| s == PAD_SYMBOL));
    }
}

#[test]
fn longest_row_need_not_come_first() {
    let p = prepared(vec![vec![-1], vec![6, 0, 6, 0, 6]]);
    assert_eq!(p.width, 5);
    assert_eq!(p.rows[0], vec![-1, 0, 0, 0, 0]);
    assert_eq!(p.lengths, vec![1, 5]);
}

#[test]
fn empty_batch_is_an_input_error() {
    let e = prepare(&Vec::new()).unwrap_err();
    assert_eq!(e.kind, ErrorKind::Input);
    assert!(e.message.starts_with("Input prep error: "));
}

#[test]
fn empty_row_is_an_input_error() {
    let e = prepare(&vec![vec![1, 2], vec![]]).unwrap_err();
    assert_eq!(e.kind, ErrorKind::Input);
    let e = prepare(&vec![vec![]]).unwrap_err();
    assert_eq!(e.kind, ErrorKind::Input);
}

#[test]
fn extract_takes_the_first_waveform() {
    let out = vec![vec![0.25f32, -0.5, 0.75], vec![0.1f32]];
    assert_eq!(extract(out).unwrap(), vec![0.25f32, -0.5, 0.75]);
}

#[test]
fn extract_of_no_entries_is_an_extraction_error() {
    let e = extract(Vec::<Vec<f32>>::new()).unwrap_err();
    assert_eq!(e.kind, ErrorKind::Extraction);
    assert_eq!(e.to_string(), "Extraction error: no audio produced by the model");
}
