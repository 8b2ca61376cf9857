//! A verified core for driving a gradient-boosting engine's data matrix.
//!
//! The engine is foreign code reached through a C interface, so this crate
//! never calls it. Each operation is split in two: a function that says
//! exactly what the engine is to be asked, and a function that takes what
//! the engine said and decides what the caller gets. A driver outside this
//! crate performs the calls in between.

pub mod call;
pub mod construct;
pub mod dmatrix;
pub mod error;
pub mod field;
pub mod laws;

pub use crate::call::{
    Answer, CreateFromFile, CreateFromMat, CreateFromSparse, Created, Fetched, GetFloatInfo,
    GetUIntInfo, Layout, Query, SaveBinary, SetFloatInfo, SetGroup, SetUIntInfo,
};
pub use crate::construct::{Creation, Progress};
pub use crate::dmatrix::DMatrix;
pub use crate::error::{ReleaseFailure, Status, XGBError, XGBResult};
pub use crate::field::{FloatField, UIntField};
