//! What each call hands to the engine, value by value.

use dmatrix::{DMatrix, FloatField, Layout, Query, Status, UIntField};
use dmatrix::{Answer, Created, Creation, Fetched, Progress};

fn matrix(handle: usize, rows: u64, cols: u64) -> DMatrix {
    let progress = DMatrix::new(Created { status: Status::new(0, String::new()), handle });
    let progress = match progress {
        Progress::Ask(creation, _) => {
            creation.step(Answer { status: Status::new(0, String::new()), count: rows })
        }
        _ => panic!("no row query"),
    };
    let progress = match progress {
        Progress::Ask(creation, _) => {
            creation.step(Answer { status: Status::new(0, String::new()), count: cols })
        }
        _ => panic!("no column query"),
    };
    match progress {
        Progress::Ready(matrix) => matrix,
        _ => panic!("not ready"),
    }
}

#[test]
fn status_zero_is_success() {
    assert!(Status::new(0, "stale text".to_string()).is_ok());
    assert!(Status::new(0, "stale text".to_string()).check().is_ok());
}

#[test]
fn every_other_status_is_an_error_with_the_engines_message() {
    for code in [-1, 1, 3, i32::MIN, i32::MAX] {
        let status = Status::new(code, "bad input".to_string());
        assert!(!status.is_ok());
        let error = status.check().unwrap_err();
        assert_eq!(error.description(), "bad input");
        assert_eq!(error.to_string(), "bad input");
    }
}

#[test]
fn field_keys_are_the_engines() {
    assert_eq!(FloatField::Label.key(), "label");
    assert_eq!(FloatField::Weight.key(), "weight");
    assert_eq!(FloatField::BaseMargin.key(), "base_margin");
    assert_eq!(UIntField::RootIndex.key(), "root_index");
}

#[test]
fn field_keys_are_c_strings_and_differ() {
    let keys = [
        FloatField::Label.key(),
        FloatField::Weight.key(),
        FloatField::BaseMargin.key(),
        UIntField::RootIndex.key(),
    ];
    for (i, a) in keys.iter().enumerate() {
        assert!(!a.is_empty());
        assert!(a.bytes().all(|b| b != 0 && b < 128));
        for b in keys.iter().skip(i + 1) {
            assert_ne!(a, b);
        }
    }
}

#[test]
fn layouts_transpose_into_each_other() {
    assert_eq!(Layout::Csr.transposed(), Layout::Csc);
    assert_eq!(Layout::Csc.transposed(), Layout::Csr);
    assert_eq!(Layout::Csr.transposed().transposed(), Layout::Csr);
}

#[test]
fn load_is_quiet_and_keeps_the_path() {
    let call = DMatrix::load(b"some/path.bin");
    assert_eq!(call.fname, b"some/path.bin");
    assert!(call.silent);
}

#[test]
fn csr_call_counts_the_whole_triplet() {
    let indptr = [0usize, 2, 3, 6, 8];
    let indices = [0u32, 2, 2, 0, 1, 2, 1, 2];
    let data = [1.0f32, 2.0, 3.0, 4.0, 5.0, 6.0, 7.0, 8.0];
    let call = DMatrix::from_csr(&indptr, &indices, &data, None);
    assert_eq!(call.layout, Layout::Csr);
    assert_eq!(call.indptr, &indptr);
    assert_eq!(call.indices, &indices);
    assert_eq!(call.data, &data);
    assert_eq!(call.nindptr, 5);
    assert_eq!(call.nelem, 8);
    assert_eq!(call.extent, 0);
}

#[test]
fn an_explicit_extent_is_handed_on() {
    let indptr = [0usize, 1];
    let indices = [4u32];
    let data = [1.5f32];
    assert_eq!(DMatrix::from_csr(&indptr, &indices, &data, Some(10)).extent, 10);
    assert_eq!(DMatrix::from_csc(&indptr, &indices, &data, Some(7)).extent, 7);
    assert_eq!(DMatrix::from_csc(&indptr, &indices, &data, Some(0)).extent, 0);
    assert_eq!(DMatrix::from_csc(&indptr, &indices, &data, None).extent, 0);
}

#[test]
fn csc_call_differs_from_csr_in_layout_alone() {
    let indptr = [0usize, 2, 3];
    let indices = [0u32, 2, 2];
    let data = [1.0f32, 2.0, 3.0];
    let csr = DMatrix::from_csr(&indptr, &indices, &data, Some(4));
    let csc = DMatrix::from_csc(&indptr, &indices, &data, Some(4));
    assert_eq!(csc.layout, Layout::Csc);
    assert_eq!(csr.layout.transposed(), csc.layout);
    assert_eq!(csr.indptr, csc.indptr);
    assert_eq!(csr.indices, csc.indices);
    assert_eq!(csr.data, csc.data);
    assert_eq!(csr.nindptr, csc.nindptr);
    assert_eq!(csr.nelem, csc.nelem);
    assert_eq!(csr.extent, csc.extent);
}

#[test]
fn empty_triplet_is_accepted() {
    let indptr: [usize; 0] = [];
    let indices: [u32; 0] = [];
    let data: [f32; 0] = [];
    let call = DMatrix::from_csr(&indptr, &indices, &data, None);
    assert_eq!(call.nindptr, 0);
    assert_eq!(call.nelem, 0);
}

#[test]
fn dense_call_keeps_shape_and_sentinel() {
    let data = [1.0f32, 2.0, 3.0, 4.0, 5.0, 6.0];
    let call = DMatrix::from_dense(&data, 2, 3, 0.0);
    assert_eq!((call.nrow, call.ncol, call.missing), (2, 3, 0.0));
    assert_eq!(call.data, &data);
    let call = DMatrix::from_dense(&data, 10, 20, 0.5);
    assert_eq!((call.nrow, call.ncol, call.missing), (10, 20, 0.5));
    assert_eq!(call.data.len(), 6);
}

#[test]
fn shape_is_what_the_engine_reported() {
    let dmat = matrix(0xbeef, 6513, 127);
    assert_eq!(dmat.handle(), 0xbeef);
    assert_eq!(dmat.num_rows(), 6513);
    assert_eq!(dmat.num_cols(), 127);
    let dmat = matrix(1, 0, u32::MAX as u64);
    assert_eq!(dmat.num_rows(), 0);
    assert_eq!(dmat.num_cols(), u32::MAX as usize);
}

#[test]
fn save_call_names_the_matrix_and_the_path() {
    let dmat = matrix(42, 1, 1);
    let call = dmat.save(b"out.bin", false);
    assert_eq!(call.handle, 42);
    assert_eq!(call.fname, b"out.bin");
    assert!(!call.silent);
    assert!(dmat.save(b"out.bin", true).silent);
}

#[test]
fn setters_hand_on_key_values_and_length() {
    let mut dmat = matrix(42, 4, 4);
    let values = [0.1f32, -4.5, 11.29842, 333333.33];
    let call = dmat.set_labels(&values);
    assert_eq!((call.handle, call.field, call.len), (42, "label", 4));
    assert_eq!(call.array, &values);
    let call = dmat.set_weights(&values[..2]);
    assert_eq!((call.handle, call.field, call.len), (42, "weight", 2));
    let call = dmat.set_base_margin(&values[..0]);
    assert_eq!((call.handle, call.field, call.len), (42, "base_margin", 0));
    let call = dmat.set_float_info(FloatField::Weight, &values);
    assert_eq!((call.handle, call.field, call.len), (42, "weight", 4));
    let roots = [3u32, 22, 1];
    let call = dmat.set_root_index(&roots);
    assert_eq!((call.handle, call.field, call.len), (42, "root_index", 3));
    assert_eq!(call.array, &roots);
    let call = dmat.set_uint_info(UIntField::RootIndex, &roots[1..]);
    assert_eq!((call.handle, call.field, call.len), (42, "root_index", 2));
    assert_eq!(call.array, &[22, 1]);
    assert_eq!((dmat.handle(), dmat.num_rows(), dmat.num_cols()), (42, 4, 4));
}

#[test]
fn getters_name_the_key_that_the_setters_store_under() {
    let mut dmat = matrix(9, 1, 1);
    let none: [f32; 0] = [];
    let stored = dmat.set_labels(&none).field.to_string();
    assert_eq!(dmat.get_labels().field, stored);
    let stored = dmat.set_weights(&none).field.to_string();
    assert_eq!(dmat.get_weights().field, stored);
    let stored = dmat.set_base_margin(&none).field.to_string();
    assert_eq!(dmat.get_base_margin().field, stored);
    let stored = dmat.set_root_index(&[]).field.to_string();
    assert_eq!(dmat.get_root_index().field, stored);
    assert_eq!(dmat.get_float_info(FloatField::BaseMargin).field, "base_margin");
    assert_eq!(dmat.get_uint_info(UIntField::RootIndex).field, "root_index");
    assert_eq!(dmat.get_labels().handle, 9);
    assert_eq!(dmat.get_root_index().handle, 9);
}

#[test]
fn group_is_handed_on_as_it_is() {
    let mut dmat = matrix(5, 3, 3);
    let call = dmat.set_group(&[1, 2, 3]);
    assert_eq!((call.handle, call.len), (5, 3));
    assert_eq!(call.group, &[1, 2, 3]);
    let call = dmat.set_group(&[3, 1, 1, 0]);
    assert_eq!(call.group, &[3, 1, 1, 0]);
    assert_eq!(call.len, 4);
}

#[test]
fn a_fetched_field_is_returned_whole() {
    let dmat = matrix(5, 3, 3);
    let stored = [1.0f32, 10.0, -123.456789, 44.9555];
    let view = dmat
        .view_of(Fetched { status: Status::new(0, String::new()), values: &stored[..] })
        .unwrap();
    assert_eq!(view, stored);
    let nothing: [u32; 0] = [];
    let view = dmat
        .view_of(Fetched { status: Status::new(0, String::new()), values: &nothing[..] })
        .unwrap();
    assert!(view.is_empty());
}

#[test]
fn a_failed_fetch_is_the_engines_error() {
    let dmat = matrix(5, 3, 3);
    let junk = [7u32];
    let error = dmat
        .view_of(Fetched { status: Status::new(-1, "unknown field".to_string()), values: &junk[..] })
        .unwrap_err();
    assert_eq!(error.description(), "unknown field");
}

#[test]
fn release_asks_for_the_matrix_to_be_freed() {
    let dmat = matrix(0x77, 2, 2);
    assert_eq!(dmat.release(), Query::Free { handle: 0x77 });
    assert_eq!(Query::Free { handle: 0x77 }.handle(), 0x77);
    assert_eq!(Query::NumRow { handle: 1 }.handle(), 1);
    assert_eq!(Query::NumCol { handle: 2 }.handle(), 2);
}

fn answer(code: i32, message: &str, count: u64) -> Answer {
    Answer { status: Status::new(code, message.to_string()), count }
}

fn expect_ask(progress: Progress, query: Query) -> Creation {
    match progress {
        Progress::Ask(creation, asked) => {
            assert_eq!(asked, query);
            creation
        }
        other => panic!("expected {:?}, got {:?}", query, other),
    }
}

#[test]
fn a_failed_creation_asks_nothing() {
    let progress = DMatrix::new(Created {
        status: Status::new(-1, "no such file".to_string()),
        handle: 0,
    });
    match progress {
        Progress::Failed(error) => assert_eq!(error.description(), "no such file"),
        other => panic!("{:?}", other),
    }
}

#[test]
fn a_construction_asks_for_rows_then_columns() {
    let progress = DMatrix::new(Created { status: Status::new(0, String::new()), handle: 8 });
    let creation = expect_ask(progress, Query::NumRow { handle: 8 });
    let creation = expect_ask(creation.step(answer(0, "", 4)), Query::NumCol { handle: 8 });
    match creation.step(answer(0, "", 3)) {
        Progress::Ready(dmat) => {
            assert_eq!((dmat.handle(), dmat.num_rows(), dmat.num_cols()), (8, 4, 3));
        }
        other => panic!("{:?}", other),
    }
}

#[test]
fn a_failed_row_query_releases_the_handle_first() {
    let progress = DMatrix::new(Created { status: Status::new(0, String::new()), handle: 8 });
    let creation = expect_ask(progress, Query::NumRow { handle: 8 });
    let creation = expect_ask(creation.step(answer(-1, "rows failed", 0)), Query::Free { handle: 8 });
    match creation.step(answer(0, "", 0)) {
        Progress::Failed(error) => assert_eq!(error.description(), "rows failed"),
        other => panic!("{:?}", other),
    }
}

#[test]
fn a_failed_column_query_releases_the_handle_first() {
    let progress = DMatrix::new(Created { status: Status::new(0, String::new()), handle: 8 });
    let creation = expect_ask(progress, Query::NumRow { handle: 8 });
    let creation = expect_ask(creation.step(answer(0, "", 4)), Query::NumCol { handle: 8 });
    let creation = expect_ask(creation.step(answer(2, "cols failed", 0)), Query::Free { handle: 8 });
    match creation.step(answer(0, "", 0)) {
        Progress::Failed(error) => assert_eq!(error.description(), "cols failed"),
        other => panic!("{:?}", other),
    }
}

#[test]
fn a_failed_release_is_fatal() {
    let progress = DMatrix::new(Created { status: Status::new(0, String::new()), handle: 8 });
    let creation = expect_ask(progress, Query::NumRow { handle: 8 });
    let creation = expect_ask(creation.step(answer(-1, "rows failed", 0)), Query::Free { handle: 8 });
    match creation.step(answer(-1, "free failed", 0)) {
        Progress::Fatal(error) => assert_eq!(error.description(), "free failed"),
        other => panic!("{:?}", other),
    }
}

#[test]
fn a_release_succeeds_on_zero_alone() {
    assert!(Status::new(0, String::new()).check_release().is_ok());
    for code in [-1, 1, 7] {
        let failure = Status::new(code, "still in use".to_string()).check_release().unwrap_err();
        assert_eq!(failure.description(), "still in use");
    }
}
