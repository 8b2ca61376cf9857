//! Building a matrix: from the engine's reply to a creation call, through
//! the two shape queries, to a matrix, or to an error once the handle is
//! released again.
//!
//! The driver performs each [`Query`] it is handed and comes back with the
//! engine's [`Answer`] until no query is left.

use vstd::prelude::*;
use crate::call::{Answer, Created, Query};
use crate::dmatrix::{DMatrix, MatrixView};
use crate::error::{succeeded, ReleaseFailure, XGBError};

verus! {

/// A construction that waits for the engine's answer to a query.
///
/// While a construction holds a handle, the handle is not null.
#[derive(Debug)]
pub struct Creation {
    pending: Pending,
}

#[derive(Debug)]
enum Pending {
    CountingRows { handle: usize },
    CountingCols { handle: usize, num_rows: usize },
    Releasing { error: XGBError },
}

/// What a construction has come to.
#[must_use]
#[derive(Debug)]
pub enum Progress {
    /// The driver performs the query and hands the answer to
    /// [`Creation::step`].
    Ask(Creation, Query),
    /// The matrix is built and owns its handle.
    Ready(DMatrix),
    /// The engine failed a call. No handle is left behind.
    Failed(XGBError),
    /// The engine refused to release a handle that it had given out. This
    /// breaks the engine's own promise and cannot be recovered from.
    Fatal(ReleaseFailure),
}

/// What a [`Creation`] holds.
pub enum Stage {
    /// The handle exists and its number of rows was asked for.
    CountingRows { handle: usize },
    /// The number of rows is known and the number of columns was asked for.
    CountingCols { handle: usize, num_rows: usize },
    /// A shape query failed with `error`, and the engine was asked to
    /// release the handle that no matrix will own.
    Releasing { error: Seq<char> },
}

impl Stage {
    /// A handle that is held is not null.
    pub open spec fn wf(self) -> bool {
        match self {
            Stage::CountingRows { handle } => handle != 0,
            Stage::CountingCols { handle, .. } => handle != 0,
            Stage::Releasing { .. } => true,
        }
    }
}

/// What a [`Progress`] holds.
pub enum Outcome {
    Ask(Stage, Query),
    Ready(MatrixView),
    Failed(Seq<char>),
    Fatal(Seq<char>),
}

impl Outcome {
    /// A handle that is held, or that a query is made on, is not null.
    pub open spec fn wf(self) -> bool {
        match self {
            Outcome::Ask(stage, query) => stage.wf() && query.handle() != 0,
            Outcome::Ready(matrix) => matrix.handle != 0,
            _ => true,
        }
    }
}

/// What an [`Answer`] holds.
pub struct Said {
    pub code: i32,
    pub message: Seq<char>,
    pub count: u64,
}

impl View for Creation {
    type V = Stage;

    closed spec fn view(&self) -> Stage {
        match self.pending {
            Pending::CountingRows { handle } => Stage::CountingRows { handle },
            Pending::CountingCols { handle, num_rows } => Stage::CountingCols { handle, num_rows },
            Pending::Releasing { error } => Stage::Releasing { error: error@ },
        }
    }
}

impl Creation {
    #[verifier::type_invariant]
    spec fn inv(self) -> bool {
        self@.wf()
    }
}

impl View for Progress {
    type V = Outcome;

    open spec fn view(&self) -> Outcome {
        match self {
            Progress::Ask(creation, query) => Outcome::Ask(creation@, *query),
            Progress::Ready(matrix) => Outcome::Ready(matrix@),
            Progress::Failed(error) => Outcome::Failed(error@),
            Progress::Fatal(error) => Outcome::Fatal(error@),
        }
    }
}

impl View for Answer {
    type V = Said;

    open spec fn view(&self) -> Said {
        Said { code: self.status.code, message: self.status.message@, count: self.count }
    }
}

/// Where a construction starts, given the engine's reply to the creation
/// call. A failed creation leaves no handle, so nothing is released; a
/// handle that exists is first asked for its number of rows.
pub open spec fn begin(code: i32, message: Seq<char>, handle: usize) -> Outcome {
    if succeeded(code) {
        Outcome::Ask(Stage::CountingRows { handle }, Query::NumRow { handle })
    } else {
        Outcome::Failed(message)
    }
}

/// One step of a construction: what the answer to the pending query leads
/// to.
///
/// A count is kept as the engine reported it, cut to the machine's word
/// where it is wider. A failed shape query leads to the release of the
/// handle, and only then to the failure; a failed release is fatal.
pub open spec fn advance(stage: Stage, said: Said) -> Outcome {
    match stage {
        Stage::CountingRows { handle } => if succeeded(said.code) {
            Outcome::Ask(
                Stage::CountingCols { handle, num_rows: said.count as usize },
                Query::NumCol { handle },
            )
        } else {
            Outcome::Ask(Stage::Releasing { error: said.message }, Query::Free { handle })
        },
        Stage::CountingCols { handle, num_rows } => if succeeded(said.code) {
            Outcome::Ready(MatrixView { handle, num_rows, num_cols: said.count as usize })
        } else {
            Outcome::Ask(Stage::Releasing { error: said.message }, Query::Free { handle })
        },
        Stage::Releasing { error } => if succeeded(said.code) {
            Outcome::Failed(error)
        } else {
            Outcome::Fatal(said.message)
        },
    }
}

/// Where a construction stands after the engine's answers, taken in order.
/// Answers that come after the construction has settled are not looked at.
pub open spec fn run(start: Outcome, answers: Seq<Said>) -> Outcome
    decreases answers.len(),
{
    if answers.len() == 0 {
        start
    } else {
        match start {
            Outcome::Ask(stage, _) => run(advance(stage, answers.first()), answers.drop_first()),
            _ => start,
        }
    }
}

/// The queries that a construction puts to the engine, in order, while the
/// engine gives these answers.
pub open spec fn asked(start: Outcome, answers: Seq<Said>) -> Seq<Query>
    decreases answers.len(),
{
    match start {
        Outcome::Ask(stage, query) => if answers.len() == 0 {
            seq![query]
        } else {
            seq![query] + asked(advance(stage, answers.first()), answers.drop_first())
        },
        _ => Seq::empty(),
    }
}

/// The count that the engine reported, as a machine word.
fn word(count: u64) -> (n: usize)
    ensures
        n == count as usize,
        count <= usize::MAX ==> n == count,
{
    #[verifier::truncate]
    (count as usize)
}

impl DMatrix {
    /// Starts the construction of a matrix from the engine's reply to a
    /// creation call.
    ///
    /// A reply that reports success names the handle of the new matrix, so
    /// its handle is not null.
    pub fn new(created: Created) -> (progress: Progress)
        requires
            succeeded(created.status.code) ==> created.handle != 0,
        ensures
            progress@ == begin(created.status.code, created.status.message@, created.handle),
            progress@.wf(),
    {
        if created.status.code == 0 {
            let handle: usize = created.handle;
            Progress::Ask(
                Creation { pending: Pending::CountingRows { handle } },
                Query::NumRow { handle },
            )
        } else {
            Progress::Failed(XGBError::new(created.status.message))
        }
    }
}

impl Creation {
    /// Takes the engine's answer to the pending query and says what the
    /// construction has come to.
    pub fn step(self, answer: Answer) -> (progress: Progress)
        ensures
            progress@ == advance(self@, answer@),
            progress@.wf(),
    {
        proof {
            use_type_invariant(&self);
        }
        let ok: bool = answer.status.code == 0;
        match self.pending {
            Pending::CountingRows { handle } => {
                if ok {
                    let num_rows: usize = word(answer.count);
                    Progress::Ask(
                        Creation { pending: Pending::CountingCols { handle, num_rows } },
                        Query::NumCol { handle },
                    )
                } else {
                    let error = XGBError::new(answer.status.message);
                    Progress::Ask(
                        Creation { pending: Pending::Releasing { error } },
                        Query::Free { handle },
                    )
                }
            },
            Pending::CountingCols { handle, num_rows } => {
                if ok {
                    let num_cols: usize = word(answer.count);
                    Progress::Ready(DMatrix::assemble(handle, num_rows, num_cols))
                } else {
                    let error = XGBError::new(answer.status.message);
                    Progress::Ask(
                        Creation { pending: Pending::Releasing { error } },
                        Query::Free { handle },
                    )
                }
            },
            Pending::Releasing { error } => {
                match answer.status.check_release() {
                    Ok(()) => Progress::Failed(error),
                    Err(failure) => Progress::Fatal(failure),
                }
            },
        }
    }
}

} // verus!
