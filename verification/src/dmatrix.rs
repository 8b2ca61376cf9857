//! The data matrix: a handle that the engine gave out, and the shape it
//! reported for it.

use vstd::prelude::*;
use crate::call::{
    CreateFromFile, CreateFromMat, CreateFromSparse, Fetched, GetFloatInfo, GetUIntInfo, Layout,
    Query, SaveBinary, SetFloatInfo, SetGroup, SetUIntInfo,
};
use crate::error::{succeeded, XGBError, XGBResult};
use crate::field::{FloatField, UIntField};

verus! {

/// A matrix that lives in the engine.
///
/// A value of this type owns its handle: it cannot be copied, and giving it
/// up with [`DMatrix::release`] is the only way to get the call that frees
/// the handle. The handle is never null and never changes. The shape is the
/// one the engine reported when the matrix was built; it is never asked for
/// again.
#[must_use]
#[derive(Debug)]
pub struct DMatrix {
    handle: usize,
    num_rows: usize,
    num_cols: usize,
}

/// What a [`DMatrix`] holds.
pub struct MatrixView {
    pub handle: usize,
    pub num_rows: usize,
    pub num_cols: usize,
}

impl View for DMatrix {
    type V = MatrixView;

    closed spec fn view(&self) -> MatrixView {
        MatrixView { handle: self.handle, num_rows: self.num_rows, num_cols: self.num_cols }
    }
}

/// The extent the engine is told: the caller's, or zero for "infer it".
pub open spec fn extent_or_infer(extent: Option<usize>) -> usize {
    match extent {
        Some(n) => n,
        None => 0,
    }
}

impl DMatrix {
    #[verifier::type_invariant]
    spec fn inv(self) -> bool {
        self.handle != 0
    }

    /// Wraps a handle with the shape reported for it.
    pub(crate) fn assemble(handle: usize, num_rows: usize, num_cols: usize) -> (m: DMatrix)
        requires
            handle != 0,
        ensures
            m@ == (MatrixView { handle, num_rows, num_cols }),
    {
        DMatrix { handle, num_rows, num_cols }
    }

    /// The call that loads a matrix from the file at `path`, quietly.
    pub fn load<'a>(path: &'a [u8]) -> (call: CreateFromFile<'a>)
        ensures
            call.fname@ == path@,
            call.silent,
    {
        CreateFromFile { fname: path, silent: true }
    }

    /// The call that builds a matrix from a triplet of the given layout.
    fn from_sparse<'a, F>(
        layout: Layout,
        indptr: &'a [usize],
        indices: &'a [u32],
        data: &'a [F],
        extent: Option<usize>,
    ) -> (call: CreateFromSparse<'a, F>)
        requires
            indices@.len() == data@.len(),
        ensures
            call.describes(layout, indptr@, indices@, data@, extent_or_infer(extent)),
    {
        let extent: usize = match extent {
            Some(n) => n,
            None => 0,
        };
        CreateFromSparse {
            layout,
            indptr,
            indices,
            data,
            nindptr: indptr.len(),
            nelem: data.len(),
            extent,
        }
    }

    /// The call that builds a matrix from compressed sparse rows.
    ///
    /// Every entry needs both an index and a value, so the two slices must be
    /// equally long. Without `num_cols` the engine infers the number of
    /// columns from the indices.
    pub fn from_csr<'a, F>(
        indptr: &'a [usize],
        indices: &'a [u32],
        data: &'a [F],
        num_cols: Option<usize>,
    ) -> (call: CreateFromSparse<'a, F>)
        requires
            indices@.len() == data@.len(),
        ensures
            call.describes(Layout::Csr, indptr@, indices@, data@, extent_or_infer(num_cols)),
    {
        Self::from_sparse(Layout::Csr, indptr, indices, data, num_cols)
    }

    /// The call that builds a matrix from compressed sparse columns.
    ///
    /// Every entry needs both an index and a value, so the two slices must be
    /// equally long. Without `num_rows` the engine infers the number of rows
    /// from the indices.
    pub fn from_csc<'a, F>(
        indptr: &'a [usize],
        indices: &'a [u32],
        data: &'a [F],
        num_rows: Option<usize>,
    ) -> (call: CreateFromSparse<'a, F>)
        requires
            indices@.len() == data@.len(),
        ensures
            call.describes(Layout::Csc, indptr@, indices@, data@, extent_or_infer(num_rows)),
    {
        Self::from_sparse(Layout::Csc, indptr, indices, data, num_rows)
    }

    /// The call that builds a matrix of the given shape from a dense
    /// row-major buffer, in which `missing` stands for an absent entry.
    ///
    /// The buffer's length is not held against the shape.
    pub fn from_dense<'a, F>(data: &'a [F], num_rows: usize, num_cols: usize, missing: F) -> (call:
        CreateFromMat<'a, F>)
        ensures
            call.describes(data@, num_rows, num_cols, missing),
    {
        CreateFromMat { data, nrow: num_rows as u64, ncol: num_cols as u64, missing }
    }

    /// The call that writes this matrix to the file at `path`.
    pub fn save<'a>(&'a self, path: &'a [u8], silent: bool) -> (call: SaveBinary<'a>)
        ensures
            call.handle == self@.handle,
            call.fname@ == path@,
            call.silent == silent,
    {
        SaveBinary { handle: self.handle, fname: path, silent }
    }

    /// The handle of this matrix.
    pub fn handle(&self) -> (h: usize)
        ensures
            h == self@.handle,
            h != 0,
    {
        proof {
            use_type_invariant(self);
        }
        self.handle
    }

    /// The number of rows that the engine reported when the matrix was built.
    pub fn num_rows(&self) -> (n: usize)
        ensures
            n == self@.num_rows,
    {
        self.num_rows
    }

    /// The number of columns that the engine reported when the matrix was
    /// built.
    pub fn num_cols(&self) -> (n: usize)
        ensures
            n == self@.num_cols,
    {
        self.num_cols
    }

    /// The call that reads the root index of each row.
    pub fn get_root_index<'a>(&'a self) -> (call: GetUIntInfo<'a>)
        ensures
            call.reads(self@.handle, UIntField::RootIndex.spec_key()),
    {
        self.get_uint_info(UIntField::RootIndex)
    }

    /// The call that stores the root index of each row.
    pub fn set_root_index<'a>(&'a mut self, array: &'a [u32]) -> (call: SetUIntInfo<'a>)
        ensures
            *final(self) == *old(self),
            call.stores(old(self)@.handle, UIntField::RootIndex.spec_key(), array@),
    {
        self.set_uint_info(UIntField::RootIndex, array)
    }

    /// The call that reads the label of each row.
    pub fn get_labels<'a>(&'a self) -> (call: GetFloatInfo<'a>)
        ensures
            call.reads(self@.handle, FloatField::Label.spec_key()),
    {
        self.get_float_info(FloatField::Label)
    }

    /// The call that stores the label of each row.
    pub fn set_labels<'a, F>(&'a mut self, array: &'a [F]) -> (call: SetFloatInfo<'a, F>)
        ensures
            *final(self) == *old(self),
            call.stores(old(self)@.handle, FloatField::Label.spec_key(), array@),
    {
        self.set_float_info(FloatField::Label, array)
    }

    /// The call that reads the weight of each row.
    pub fn get_weights<'a>(&'a self) -> (call: GetFloatInfo<'a>)
        ensures
            call.reads(self@.handle, FloatField::Weight.spec_key()),
    {
        self.get_float_info(FloatField::Weight)
    }

    /// The call that stores the weight of each row.
    pub fn set_weights<'a, F>(&'a mut self, array: &'a [F]) -> (call: SetFloatInfo<'a, F>)
        ensures
            *final(self) == *old(self),
            call.stores(old(self)@.handle, FloatField::Weight.spec_key(), array@),
    {
        self.set_float_info(FloatField::Weight, array)
    }

    /// The call that reads the base margin of each row.
    pub fn get_base_margin<'a>(&'a self) -> (call: GetFloatInfo<'a>)
        ensures
            call.reads(self@.handle, FloatField::BaseMargin.spec_key()),
    {
        self.get_float_info(FloatField::BaseMargin)
    }

    /// The call that stores the base margin of each row: the prediction that
    /// boosting starts from.
    pub fn set_base_margin<'a, F>(&'a mut self, array: &'a [F]) -> (call: SetFloatInfo<'a, F>)
        ensures
            *final(self) == *old(self),
            call.stores(old(self)@.handle, FloatField::BaseMargin.spec_key(), array@),
    {
        self.set_float_info(FloatField::BaseMargin, array)
    }

    /// The call that stores the group boundaries, needed for ranking. The
    /// boundaries are handed on as they are: any sequence is accepted here.
    pub fn set_group<'a>(&'a mut self, group: &'a [u32]) -> (call: SetGroup<'a>)
        ensures
            *final(self) == *old(self),
            call.handle == old(self)@.handle,
            call.group@ == group@,
            call.len == group@.len(),
    {
        SetGroup { handle: self.handle, group, len: group.len() as u64 }
    }

    /// The call that reads a floating-point field.
    pub fn get_float_info<'a>(&'a self, field: FloatField) -> (call: GetFloatInfo<'a>)
        ensures
            call.reads(self@.handle, field.spec_key()),
    {
        GetFloatInfo { handle: self.handle, field: field.key() }
    }

    /// The call that stores a floating-point field.
    pub fn set_float_info<'a, F>(&'a mut self, field: FloatField, array: &'a [F]) -> (call:
        SetFloatInfo<'a, F>)
        ensures
            *final(self) == *old(self),
            call.stores(old(self)@.handle, field.spec_key(), array@),
    {
        SetFloatInfo { handle: self.handle, field: field.key(), array, len: array.len() as u64 }
    }

    /// The call that reads an unsigned-integer field.
    pub fn get_uint_info<'a>(&'a self, field: UIntField) -> (call: GetUIntInfo<'a>)
        ensures
            call.reads(self@.handle, field.spec_key()),
    {
        GetUIntInfo { handle: self.handle, field: field.key() }
    }

    /// The call that stores an unsigned-integer field.
    pub fn set_uint_info<'a>(&'a mut self, field: UIntField, array: &'a [u32]) -> (call: SetUIntInfo<
        'a,
    >)
        ensures
            *final(self) == *old(self),
            call.stores(old(self)@.handle, field.spec_key(), array@),
    {
        SetUIntInfo { handle: self.handle, field: field.key(), array, len: array.len() as u64 }
    }

    /// Decides what a read of a field yields: on success the engine's view
    /// of the field, whole and unchanged, and otherwise the engine's error.
    ///
    /// The view borrows the matrix. While it is held the matrix can neither
    /// be released nor asked to store anything, so the view cannot outlive
    /// the storage it points into.
    pub fn view_of<'a, T>(&'a self, fetched: Fetched<'a, T>) -> (r: XGBResult<&'a [T]>)
        ensures
            r is Ok <==> succeeded(fetched.status.code),
            r matches Ok(values) ==> values@ == fetched.values@,
            r matches Err(e) ==> e@ == fetched.status.message@,
    {
        if fetched.status.code == 0 {
            Ok(fetched.values)
        } else {
            Err(XGBError::new(fetched.status.message))
        }
    }

    /// Gives the matrix up. The call that frees its handle is all that is
    /// left of it, so a handle is freed at most once. What the engine says
    /// to that call goes to [`crate::error::Status::check_release`].
    pub fn release(self) -> (call: Query)
        ensures
            call == (Query::Free { handle: self@.handle }),
            call.handle() != 0,
    {
        proof {
            use_type_invariant(&self);
        }
        Query::Free { handle: self.handle }
    }
}

} // verus!
