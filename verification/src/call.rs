//! What the engine is asked, and what it says back.
//!
//! A request holds the arguments of one engine primitive as plain values.
//! Slices are borrowed from the caller: the engine copies what it keeps, so
//! a request only has to live until the call returns.
//!
//! A request on a matrix borrows the matrix for as long as the request
//! lives: shared where it reads, exclusively where it stores. So a matrix
//! cannot be released while a request on it is pending, and nothing can be
//! stored into it while a view of one of its fields is held.

use vstd::prelude::*;
use crate::error::Status;

verus! {

/// The axis along which a compressed sparse matrix is cut into runs.
#[derive(Clone, Copy, Debug, PartialEq, Eq, Structural)]
pub enum Layout {
    /// Compressed sparse rows: one run of entries per row, indexed by column.
    Csr,
    /// Compressed sparse columns: one run of entries per column, indexed by row.
    Csc,
}

impl Layout {
    /// The other layout.
    pub open spec fn spec_transposed(self) -> Layout {
        match self {
            Layout::Csr => Layout::Csc,
            Layout::Csc => Layout::Csr,
        }
    }

    /// The other layout.
    #[verifier::when_used_as_spec(spec_transposed)]
    pub fn transposed(self) -> (t: Layout)
        ensures
            t == self.spec_transposed(),
    {
        match self {
            Layout::Csr => Layout::Csc,
            Layout::Csc => Layout::Csr,
        }
    }
}

/// Asks the engine to read a matrix from a file, in a format that the engine
/// detects by itself.
#[derive(Debug)]
pub struct CreateFromFile<'a> {
    /// The file's path, as the bytes the operating system knows it by.
    pub fname: &'a [u8],
    /// Whether the engine keeps quiet while it loads.
    pub silent: bool,
}

/// Asks the engine to build a matrix from a compressed sparse triplet.
#[derive(Debug)]
pub struct CreateFromSparse<'a, F> {
    /// Whether the runs are rows or columns.
    pub layout: Layout,
    /// Where each run starts among the entries, and where the last one ends.
    pub indptr: &'a [usize],
    /// The position of each entry across its run.
    pub indices: &'a [u32],
    /// The value of each entry.
    pub data: &'a [F],
    /// The number of run boundaries handed over.
    pub nindptr: usize,
    /// The number of entries handed over.
    pub nelem: usize,
    /// The extent across the runs (columns of a row layout, rows of a column
    /// layout), or zero for the engine to infer it from the indices.
    pub extent: usize,
}

impl<'a, F> CreateFromSparse<'a, F> {
    /// The counts describe the slices in full, and every entry has both an
    /// index and a value.
    pub open spec fn wf(&self) -> bool {
        &&& self.nindptr == self.indptr@.len()
        &&& self.nelem == self.data@.len()
        &&& self.indices@.len() == self.data@.len()
    }

    /// The call hands over exactly this triplet, whole, in this layout, with
    /// this extent across the runs.
    pub open spec fn describes(
        &self,
        layout: Layout,
        indptr: Seq<usize>,
        indices: Seq<u32>,
        data: Seq<F>,
        extent: usize,
    ) -> bool {
        &&& self.wf()
        &&& self.layout == layout
        &&& self.indptr@ == indptr
        &&& self.indices@ == indices
        &&& self.data@ == data
        &&& self.extent == extent
    }
}

/// Asks the engine to build a matrix from a dense row-major buffer.
#[derive(Debug)]
pub struct CreateFromMat<'a, F> {
    /// The values, row after row.
    pub data: &'a [F],
    /// The number of rows.
    pub nrow: u64,
    /// The number of columns.
    pub ncol: u64,
    /// The value that stands for an absent entry.
    pub missing: F,
}

impl<'a, F> CreateFromMat<'a, F> {
    /// The call hands over exactly this buffer, whole, with this shape and
    /// this value for an absent entry.
    pub open spec fn describes(&self, data: Seq<F>, num_rows: usize, num_cols: usize, missing: F) -> bool {
        &&& self.data@ == data
        &&& self.nrow == num_rows
        &&& self.ncol == num_cols
        &&& self.missing == missing
    }
}

/// Asks the engine to write a matrix to a file in its binary format.
#[derive(Debug)]
pub struct SaveBinary<'a> {
    pub handle: usize,
    /// The file's path, as the bytes the operating system knows it by.
    pub fname: &'a [u8],
    /// Whether the engine keeps quiet while it saves.
    pub silent: bool,
}

/// Asks the engine to store a floating-point field of a matrix.
#[derive(Debug)]
pub struct SetFloatInfo<'a, F> {
    pub handle: usize,
    /// The key of the field.
    pub field: &'a str,
    /// The values to store.
    pub array: &'a [F],
    /// The number of values handed over.
    pub len: u64,
}

impl<'a, F> SetFloatInfo<'a, F> {
    /// The call stores exactly these values, whole, under this key of this
    /// matrix.
    pub open spec fn stores(&self, handle: usize, key: Seq<char>, values: Seq<F>) -> bool {
        &&& self.handle == handle
        &&& self.field@ == key
        &&& self.array@ == values
        &&& self.len == values.len()
    }
}

/// Asks the engine to store an unsigned-integer field of a matrix.
#[derive(Debug)]
pub struct SetUIntInfo<'a> {
    pub handle: usize,
    /// The key of the field.
    pub field: &'a str,
    /// The values to store.
    pub array: &'a [u32],
    /// The number of values handed over.
    pub len: u64,
}

impl<'a> SetUIntInfo<'a> {
    /// The call stores exactly these values, whole, under this key of this
    /// matrix.
    pub open spec fn stores(&self, handle: usize, key: Seq<char>, values: Seq<u32>) -> bool {
        &&& self.handle == handle
        &&& self.field@ == key
        &&& self.array@ == values
        &&& self.len == values.len()
    }
}

/// Asks the engine to store the group boundaries of a matrix.
#[derive(Debug)]
pub struct SetGroup<'a> {
    pub handle: usize,
    /// The boundaries, as given by the caller.
    pub group: &'a [u32],
    /// The number of boundaries handed over.
    pub len: u64,
}

/// Asks the engine for a floating-point field of a matrix.
#[derive(Clone, Copy, Debug)]
pub struct GetFloatInfo<'a> {
    pub handle: usize,
    /// The key of the field.
    pub field: &'a str,
}

impl<'a> GetFloatInfo<'a> {
    /// The call reads what is stored under this key of this matrix.
    pub open spec fn reads(&self, handle: usize, key: Seq<char>) -> bool {
        &&& self.handle == handle
        &&& self.field@ == key
    }
}

/// Asks the engine for an unsigned-integer field of a matrix.
#[derive(Clone, Copy, Debug)]
pub struct GetUIntInfo<'a> {
    pub handle: usize,
    /// The key of the field.
    pub field: &'a str,
}

impl<'a> GetUIntInfo<'a> {
    /// The call reads what is stored under this key of this matrix.
    pub open spec fn reads(&self, handle: usize, key: Seq<char>) -> bool {
        &&& self.handle == handle
        &&& self.field@ == key
    }
}

/// The calls that take a handle and nothing else.
#[derive(Clone, Copy, Debug, PartialEq, Eq, Structural)]
pub enum Query {
    /// Asks for the number of rows.
    NumRow { handle: usize },
    /// Asks for the number of columns.
    NumCol { handle: usize },
    /// Asks the engine to release the matrix. The handle is dead afterwards.
    Free { handle: usize },
}

impl Query {
    /// The handle that the call is made on.
    pub open spec fn spec_handle(self) -> usize {
        match self {
            Query::NumRow { handle } => handle,
            Query::NumCol { handle } => handle,
            Query::Free { handle } => handle,
        }
    }

    /// The handle that the call is made on.
    #[verifier::when_used_as_spec(spec_handle)]
    pub fn handle(self) -> (h: usize)
        ensures
            h == self.spec_handle(),
    {
        match self {
            Query::NumRow { handle } => handle,
            Query::NumCol { handle } => handle,
            Query::Free { handle } => handle,
        }
    }
}

/// What the engine said to a creation call.
#[derive(Debug)]
pub struct Created {
    pub status: Status,
    /// The handle of the new matrix. It means something only on success.
    pub handle: usize,
}

/// What the engine said to a [`Query`].
#[derive(Debug)]
pub struct Answer {
    pub status: Status,
    /// The count reported, where the call succeeded and reports one.
    pub count: u64,
}

/// What the engine said when asked for a field.
#[derive(Debug)]
pub struct Fetched<'a, T> {
    pub status: Status,
    /// The engine's own storage of the field, empty where the field was
    /// never set. It means something only on success.
    pub values: &'a [T],
}

} // verus!
