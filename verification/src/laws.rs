//! What holds of the calls and of a construction, whatever the engine does.

use vstd::prelude::*;
use crate::call::{
    CreateFromMat, CreateFromSparse, GetFloatInfo, GetUIntInfo, Layout, Query, SetFloatInfo,
    SetUIntInfo,
};
use crate::construct::{advance, asked, begin, run, Outcome, Said, Stage};
use crate::dmatrix::{extent_or_infer, MatrixView};
use crate::error::succeeded;
use crate::field::{FloatField, UIntField};

verus! {

/// A construction settles within three answers: by then it has come to a
/// matrix, a failure or a fatal failure, and asks nothing more.
pub proof fn lemma_construction_settles(
    code: i32,
    message: Seq<char>,
    handle: usize,
    answers: Seq<Said>,
)
    requires
        answers.len() >= 3,
    ensures
        !(run(begin(code, message, handle), answers) is Ask),
{
    lemma_construction_runs(code, message, handle, answers);
}

/// A construction comes to a matrix exactly when the creation call and both
/// shape queries succeed. The matrix then owns the handle that the engine
/// created, and its shape is the two counts that the engine reported, rows
/// first.
pub proof fn lemma_ready_exactly_when_all_succeed(
    code: i32,
    message: Seq<char>,
    handle: usize,
    answers: Seq<Said>,
)
    requires
        answers.len() >= 3,
    ensures
        run(begin(code, message, handle), answers) is Ready <==> succeeded(code) && succeeded(
            answers[0].code,
        ) && succeeded(answers[1].code),
        run(begin(code, message, handle), answers) matches Outcome::Ready(matrix) ==> {
            &&& matrix.handle == handle
            &&& matrix.num_rows == answers[0].count as usize
            &&& matrix.num_cols == answers[1].count as usize
            &&& answers[0].count <= usize::MAX ==> matrix.num_rows == answers[0].count
            &&& answers[1].count <= usize::MAX ==> matrix.num_cols == answers[1].count
        },
{
    lemma_construction_runs(code, message, handle, answers);
}

/// A handle that no matrix comes to own is released exactly once, right
/// after the query that failed; a handle that a matrix owns is not released
/// by the construction; and where no handle was created nothing is asked at
/// all. Every query is made on the handle that the engine created.
pub proof fn lemma_release_exactly_when_orphaned(
    code: i32,
    message: Seq<char>,
    handle: usize,
    answers: Seq<Said>,
)
    requires
        answers.len() >= 3,
    ensures
        asked(begin(code, message, handle), answers) == queries_put(
            handle,
            succeeded(code),
            succeeded(answers[0].code),
            succeeded(answers[1].code),
        ),
{
    lemma_construction_runs(code, message, handle, answers);
}

/// A construction that starts from a handle that is not null never holds a
/// null handle, whatever the engine answers: no query is made on a null
/// handle, and no matrix owns one.
pub proof fn lemma_handle_never_null(
    code: i32,
    message: Seq<char>,
    handle: usize,
    answers: Seq<Said>,
)
    requires
        succeeded(code) ==> handle != 0,
    ensures
        run(begin(code, message, handle), answers).wf(),
        forall|i: int|
            0 <= i < asked(begin(code, message, handle), answers).len() ==> (#[trigger] asked(
                begin(code, message, handle),
                answers,
            )[i]).handle() != 0,
{
    lemma_run_keeps_wf(begin(code, message, handle), answers);
}

/// Well-formedness is kept along a run, and the queries of a well-formed
/// run are made on handles that are not null.
pub proof fn lemma_run_keeps_wf(start: Outcome, answers: Seq<Said>)
    requires
        start.wf(),
    ensures
        run(start, answers).wf(),
        forall|i: int|
            0 <= i < asked(start, answers).len() ==> (#[trigger] asked(start, answers)[i]).handle()
                != 0,
    decreases answers.len(),
{
    if answers.len() > 0 {
        match start {
            Outcome::Ask(stage, query) => {
                let next = advance(stage, answers.first());
                let rest = asked(next, answers.drop_first());
                lemma_run_keeps_wf(next, answers.drop_first());
                assert forall|i: int| 0 <= i < asked(start, answers).len() implies (#[trigger] asked(
                    start,
                    answers,
                )[i]).handle() != 0 by {
                    if i > 0 {
                        assert(asked(start, answers)[i] == rest[i - 1]);
                    }
                }
            },
            _ => {},
        }
    }
}

/// The queries of a construction, by which of its calls succeeded.
pub open spec fn queries_put(handle: usize, created: bool, rows: bool, cols: bool) -> Seq<Query> {
    if !created {
        Seq::empty()
    } else if !rows {
        seq![Query::NumRow { handle }, Query::Free { handle }]
    } else if !cols {
        seq![Query::NumRow { handle }, Query::NumCol { handle }, Query::Free { handle }]
    } else {
        seq![Query::NumRow { handle }, Query::NumCol { handle }]
    }
}

/// A failed construction reports the first call that failed: the creation
/// call's message, or that of the shape query after which the handle was
/// released. Where that release fails too, the outcome is fatal and carries
/// the release's message.
pub proof fn lemma_failure_reports_first_error(
    code: i32,
    message: Seq<char>,
    handle: usize,
    answers: Seq<Said>,
)
    requires
        answers.len() >= 3,
    ensures
        run(begin(code, message, handle), answers) == settled(code, message, handle, answers),
{
    lemma_construction_runs(code, message, handle, answers);
}

/// Where a construction ends, by its first three answers.
pub open spec fn settled(code: i32, message: Seq<char>, handle: usize, answers: Seq<Said>) -> Outcome
    recommends
        answers.len() >= 3,
{
    if !succeeded(code) {
        Outcome::Failed(message)
    } else if !succeeded(answers[0].code) {
        if succeeded(answers[1].code) {
            Outcome::Failed(answers[0].message)
        } else {
            Outcome::Fatal(answers[1].message)
        }
    } else if !succeeded(answers[1].code) {
        if succeeded(answers[2].code) {
            Outcome::Failed(answers[1].message)
        } else {
            Outcome::Fatal(answers[2].message)
        }
    } else {
        Outcome::Ready(
            MatrixView {
                handle,
                num_rows: answers[0].count as usize,
                num_cols: answers[1].count as usize,
            },
        )
    }
}

proof fn lemma_construction_runs(code: i32, message: Seq<char>, handle: usize, answers: Seq<Said>)
    requires
        answers.len() >= 3,
    ensures
        run(begin(code, message, handle), answers) == settled(code, message, handle, answers),
        asked(begin(code, message, handle), answers) == queries_put(
            handle,
            succeeded(code),
            succeeded(answers[0].code),
            succeeded(answers[1].code),
        ),
{
    let first = begin(code, message, handle);
    let rest1 = answers.drop_first();
    let rest2 = rest1.drop_first();
    let rest3 = rest2.drop_first();
    assert(rest1.first() == answers[1]);
    assert(rest2.first() == answers[2]);
    reveal_with_fuel(run, 5);
    reveal_with_fuel(asked, 5);
    if succeeded(code) {
        let second = advance(Stage::CountingRows { handle }, answers[0]);
        assert(run(first, answers) == run(second, rest1));
        assert(asked(first, answers) == seq![Query::NumRow { handle }] + asked(second, rest1));
        if succeeded(answers[0].code) {
            let third = advance(
                Stage::CountingCols { handle, num_rows: answers[0].count as usize },
                answers[1],
            );
            assert(run(second, rest1) == run(third, rest2));
            assert(asked(second, rest1) == seq![Query::NumCol { handle }] + asked(third, rest2));
            if succeeded(answers[1].code) {
                assert(asked(third, rest2) == Seq::<Query>::empty());
            } else {
                let fourth = advance(Stage::Releasing { error: answers[1].message }, answers[2]);
                assert(run(third, rest2) == run(fourth, rest3));
                assert(asked(third, rest2) == seq![Query::Free { handle }] + asked(fourth, rest3));
                assert(asked(fourth, rest3) == Seq::<Query>::empty());
            }
        } else {
            let third = advance(Stage::Releasing { error: answers[0].message }, answers[1]);
            assert(run(second, rest1) == run(third, rest2));
            assert(asked(second, rest1) == seq![Query::Free { handle }] + asked(third, rest2));
            assert(asked(third, rest2) == Seq::<Query>::empty());
        }
    }
    assert(asked(first, answers) =~= queries_put(
        handle,
        succeeded(code),
        succeeded(answers[0].code),
        succeeded(answers[1].code),
    ));
}

/// The shape of a matrix depends on nothing but the two counts that the
/// engine reported: each count is kept for its own axis. Two constructions
/// for which the engine reports the same two counts, in the other order,
/// come to matrices that are transposed in shape.
pub proof fn lemma_transposed_reports_give_transposed_shapes(
    handle: usize,
    other: usize,
    answers: Seq<Said>,
    swapped: Seq<Said>,
)
    requires
        answers.len() >= 3,
        swapped.len() >= 3,
        succeeded(answers[0].code) && succeeded(answers[1].code),
        succeeded(swapped[0].code) && succeeded(swapped[1].code),
        swapped[0].count == answers[1].count,
        swapped[1].count == answers[0].count,
    ensures
        run(begin(0, Seq::empty(), handle), answers) is Ready,
        run(begin(0, Seq::empty(), other), swapped) is Ready,
        run(begin(0, Seq::empty(), other), swapped)->Ready_0.num_rows == run(
            begin(0, Seq::empty(), handle),
            answers,
        )->Ready_0.num_cols,
        run(begin(0, Seq::empty(), other), swapped)->Ready_0.num_cols == run(
            begin(0, Seq::empty(), handle),
            answers,
        )->Ready_0.num_rows,
{
    lemma_construction_runs(0, Seq::empty(), handle, answers);
    lemma_construction_runs(0, Seq::empty(), other, swapped);
}

/// Where the engine reports of a sparse call what its interface documents
/// (one run less than the boundaries it was given, and across the runs the
/// extent it was told, where it was told one), a matrix built from
/// compressed sparse rows has one row less than `indptr` has elements, and
/// the number of columns that the caller gave.
pub proof fn lemma_csr_shape_where_engine_reports_as_documented<F>(
    call: CreateFromSparse<F>,
    indptr: Seq<usize>,
    indices: Seq<u32>,
    data: Seq<F>,
    num_cols: Option<usize>,
    handle: usize,
    answers: Seq<Said>,
)
    requires
        call.describes(Layout::Csr, indptr, indices, data, extent_or_infer(num_cols)),
        indptr.len() >= 1,
        answers.len() >= 3,
        succeeded(answers[0].code) && succeeded(answers[1].code),
        answers[0].count == call.nindptr - 1,
        call.extent > 0 ==> answers[1].count == call.extent,
    ensures
        run(begin(0, Seq::empty(), handle), answers) is Ready,
        run(begin(0, Seq::empty(), handle), answers)->Ready_0.num_rows == indptr.len() - 1,
        forall|n: usize|
            num_cols == Some(n) && n > 0 ==> run(
                begin(0, Seq::empty(), handle),
                answers,
            )->Ready_0.num_cols == n,
{
    lemma_construction_runs(0, Seq::empty(), handle, answers);
}

/// Where the engine reports of a sparse call what its interface documents
/// (one run less than the boundaries it was given, and across the runs the
/// extent it was told, where it was told one), a matrix built from
/// compressed sparse columns has one column less than `indptr` has
/// elements, and the number of rows that the caller gave.
pub proof fn lemma_csc_shape_where_engine_reports_as_documented<F>(
    call: CreateFromSparse<F>,
    indptr: Seq<usize>,
    indices: Seq<u32>,
    data: Seq<F>,
    num_rows: Option<usize>,
    handle: usize,
    answers: Seq<Said>,
)
    requires
        call.describes(Layout::Csc, indptr, indices, data, extent_or_infer(num_rows)),
        indptr.len() >= 1,
        answers.len() >= 3,
        succeeded(answers[0].code) && succeeded(answers[1].code),
        answers[1].count == call.nindptr - 1,
        call.extent > 0 ==> answers[0].count == call.extent,
    ensures
        run(begin(0, Seq::empty(), handle), answers) is Ready,
        run(begin(0, Seq::empty(), handle), answers)->Ready_0.num_cols == indptr.len() - 1,
        forall|n: usize|
            num_rows == Some(n) && n > 0 ==> run(
                begin(0, Seq::empty(), handle),
                answers,
            )->Ready_0.num_rows == n,
{
    lemma_construction_runs(0, Seq::empty(), handle, answers);
}

/// Where the engine reports of a dense call the shape that it was told, the
/// matrix has the shape that the caller gave, whatever the buffer holds.
pub proof fn lemma_dense_shape_where_engine_reports_as_told<F>(
    call: CreateFromMat<F>,
    data: Seq<F>,
    num_rows: usize,
    num_cols: usize,
    missing: F,
    handle: usize,
    answers: Seq<Said>,
)
    requires
        call.describes(data, num_rows, num_cols, missing),
        answers.len() >= 3,
        succeeded(answers[0].code) && succeeded(answers[1].code),
        answers[0].count == call.nrow,
        answers[1].count == call.ncol,
    ensures
        run(begin(0, Seq::empty(), handle), answers) is Ready,
        run(begin(0, Seq::empty(), handle), answers)->Ready_0.num_rows == num_rows,
        run(begin(0, Seq::empty(), handle), answers)->Ready_0.num_cols == num_cols,
{
    lemma_construction_runs(0, Seq::empty(), handle, answers);
}

/// Rows and columns are dual: the call for compressed sparse rows and the
/// call for compressed sparse columns, built from one triplet and one
/// extent, hand the engine the same slices and the same counts. They differ
/// in the layout alone, and each has the other's.
pub proof fn lemma_sparse_layouts_dual<F>(
    csr: CreateFromSparse<F>,
    csc: CreateFromSparse<F>,
    indptr: Seq<usize>,
    indices: Seq<u32>,
    data: Seq<F>,
    extent: usize,
)
    requires
        csr.describes(Layout::Csr, indptr, indices, data, extent),
        csc.describes(Layout::Csc, indptr, indices, data, extent),
    ensures
        csr.layout == csc.layout.transposed(),
        csc.layout == csr.layout.transposed(),
        csr.indptr@ == csc.indptr@,
        csr.indices@ == csc.indices@,
        csr.data@ == csc.data@,
        csr.nindptr == csc.nindptr,
        csr.nelem == csc.nelem,
        csr.extent == csc.extent,
{
}

/// Nothing of a sparse triplet is cut off: the call counts every run
/// boundary and every entry it was given, and every entry has its index.
pub proof fn lemma_sparse_call_is_whole<F>(
    call: CreateFromSparse<F>,
    layout: Layout,
    indptr: Seq<usize>,
    indices: Seq<u32>,
    data: Seq<F>,
    extent: usize,
)
    requires
        call.describes(layout, indptr, indices, data, extent),
    ensures
        call.nindptr == indptr.len(),
        call.nelem == data.len(),
        call.nelem == indices.len(),
{
}

/// A floating-point field is read from where it was stored: the call that
/// stores a field and the call that reads it name the same key of the same
/// matrix, and a call that reads another field names another key.
pub proof fn lemma_float_field_read_where_stored<F>(
    store: SetFloatInfo<F>,
    read: GetFloatInfo,
    handle: usize,
    stored: FloatField,
    fetched: FloatField,
    values: Seq<F>,
)
    requires
        store.stores(handle, stored.spec_key(), values),
        read.reads(handle, fetched.spec_key()),
    ensures
        store.handle == read.handle,
        store.field@ == read.field@ <==> stored == fetched,
        store.array@ == values,
{
    crate::field::lemma_float_keys_distinct(stored, fetched);
}

/// An unsigned-integer field is read from where it was stored: the call
/// that stores a field and the call that reads it name the same key of the
/// same matrix.
pub proof fn lemma_uint_field_read_where_stored(
    store: SetUIntInfo,
    read: GetUIntInfo,
    handle: usize,
    stored: UIntField,
    fetched: UIntField,
    values: Seq<u32>,
)
    requires
        store.stores(handle, stored.spec_key(), values),
        read.reads(handle, fetched.spec_key()),
    ensures
        store.handle == read.handle,
        store.field@ == read.field@,
        store.array@ == values,
{
}

} // verus!
