//! The auxiliary fields of a matrix and the keys the engine knows them by.

use vstd::prelude::*;

verus! {

/// The auxiliary fields that hold one floating-point value per row.
#[derive(Clone, Copy, Debug, PartialEq, Eq, Structural)]
pub enum FloatField {
    /// The ground-truth label of each row.
    Label,
    /// The weight of each row.
    Weight,
    /// The margin that boosting starts from, for each row.
    BaseMargin,
}

/// The auxiliary fields that hold one unsigned integer per row.
#[derive(Clone, Copy, Debug, PartialEq, Eq, Structural)]
pub enum UIntField {
    /// The root index of each row, for multi-task settings.
    RootIndex,
}

impl FloatField {
    /// The key under which the engine stores this field.
    pub open spec fn spec_key(self) -> Seq<char> {
        match self {
            FloatField::Label => "label"@,
            FloatField::Weight => "weight"@,
            FloatField::BaseMargin => "base_margin"@,
        }
    }

    /// The key under which the engine stores this field.
    pub fn key(self) -> (k: &'static str)
        ensures
            k@ == self.spec_key(),
    {
        match self {
            FloatField::Label => "label",
            FloatField::Weight => "weight",
            FloatField::BaseMargin => "base_margin",
        }
    }
}

impl UIntField {
    /// The key under which the engine stores this field.
    pub open spec fn spec_key(self) -> Seq<char> {
        match self {
            UIntField::RootIndex => "root_index"@,
        }
    }

    /// The key under which the engine stores this field.
    pub fn key(self) -> (k: &'static str)
        ensures
            k@ == self.spec_key(),
    {
        match self {
            UIntField::RootIndex => "root_index",
        }
    }
}

/// Whether a key can be handed to the engine as a C string: it is not empty,
/// every character is a single ASCII byte, and none is the terminator.
pub open spec fn is_c_key(key: Seq<char>) -> bool {
    &&& key.len() > 0
    &&& forall|i: int| 0 <= i < key.len() ==> 0 < #[trigger] key[i] as int && (key[i] as int) < 128
}

/// Every floating-point field's key can be handed to the engine as a C
/// string, so marshalling a key never fails.
pub proof fn lemma_float_keys_are_c_keys(field: FloatField)
    ensures
        is_c_key(field.spec_key()),
{
    reveal_strlit("label");
    reveal_strlit("weight");
    reveal_strlit("base_margin");
}

/// Every unsigned-integer field's key can be handed to the engine as a C
/// string, so marshalling a key never fails.
pub proof fn lemma_uint_keys_are_c_keys(field: UIntField)
    ensures
        is_c_key(field.spec_key()),
{
    reveal_strlit("root_index");
}

/// Two floating-point fields share a key only if they are the same field:
/// what is stored under one field is never read back under another.
pub proof fn lemma_float_keys_distinct(a: FloatField, b: FloatField)
    ensures
        a.spec_key() == b.spec_key() <==> a == b,
{
    reveal_strlit("label");
    reveal_strlit("weight");
    reveal_strlit("base_margin");
    assert("label"@.len() == 5);
    assert("weight"@.len() == 6);
    assert("base_margin"@.len() == 11);
}

/// No floating-point field shares its key with an unsigned-integer field.
pub proof fn lemma_float_and_uint_keys_distinct(a: FloatField, b: UIntField)
    ensures
        a.spec_key() != b.spec_key(),
{
    reveal_strlit("label");
    reveal_strlit("weight");
    reveal_strlit("base_margin");
    reveal_strlit("root_index");
    assert("label"@.len() == 5);
    assert("weight"@.len() == 6);
    assert("base_margin"@.len() == 11);
    assert("root_index"@.len() == 10);
}

} // verus!
