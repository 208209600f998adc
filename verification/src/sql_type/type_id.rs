use vstd::prelude::*;

verus! {

/// Every SQL type.
#[derive(Debug, Clone, Copy, PartialEq, Eq, Structural)]
pub enum TypeId {
    Boolean,
    TinyInt,
    SmallInt,
    Integer,
    BigInt,
    Decimal,
    Varchar,
    Timestamp,
}

} // verus!
