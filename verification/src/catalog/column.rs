use vstd::prelude::*;

use crate::common::text::{decimal, push_decimal};
use crate::sql_type::sql_type::{sql_type_name, type_id_to_string};
use crate::sql_type::type_id::TypeId;

verus! {

/// The mathematical view of a column: its name, type, storage size and
/// offset in the tuple.
pub struct ColumnView {
    pub name: Seq<char>,
    pub type_id: TypeId,
    pub length: nat,
    pub offset: nat,
}

/// The storage size of a value of type `type_id`; for VARCHAR, the given
/// maximum length.
pub open spec fn type_size(type_id: TypeId, length: u32) -> nat {
    match type_id {
        TypeId::Boolean | TypeId::TinyInt => 1,
        TypeId::SmallInt => 2,
        TypeId::Integer => 4,
        TypeId::BigInt | TypeId::Decimal | TypeId::Timestamp => 8,
        TypeId::Varchar => length as nat,
    }
}

/// A Column represents a single column in a table schema.
pub struct Column {
    /// Column name.
    pub(crate) column_name: String,
    /// Column value's type.
    pub(crate) column_type: TypeId,
    /// The size of the column (in bytes). For fixed-length types this is the
    /// type size; for variable-length types this is the specified max length.
    pub(crate) length: usize,
    /// Column offset in the tuple.
    pub(crate) column_offset: usize,
}

impl View for Column {
    type V = ColumnView;

    closed spec fn view(&self) -> ColumnView {
        ColumnView {
            name: self.column_name@,
            type_id: self.column_type,
            length: self.length as nat,
            offset: self.column_offset as nat,
        }
    }
}

impl Column {
    /// An inlined column takes at most eight bytes, and a VARCHAR's
    /// maximum length fits in 32 bits.
    #[verifier::type_invariant]
    pub open spec fn small(self) -> bool {
        &&& self@.type_id != TypeId::Varchar ==> self@.length <= 8
        &&& self@.length <= u32::MAX
    }

    /// Non-variable-length constructor for creating a Column.
    pub fn new(column_name: String, column_type: TypeId) -> (r: Self)
        requires
            column_type != TypeId::Varchar,
        ensures
            r@ == (ColumnView {
                name: column_name@,
                type_id: column_type,
                length: type_size(column_type, 0),
                offset: 0,
            }),
    {
        let length = Self::type_size(column_type, 0) as usize;
        Column { column_name, column_type, length, column_offset: 0 }
    }

    /// Variable-length constructor for creating a Column.
    pub fn new_with_length(column_name: String, column_type: TypeId, length: u32) -> (r: Self)
        requires
            column_type == TypeId::Varchar,
        ensures
            r@ == (ColumnView {
                name: column_name@,
                type_id: column_type,
                length: type_size(column_type, length),
                offset: 0,
            }),
    {
        let length = Self::type_size(column_type, length) as usize;
        Column { column_name, column_type, length, column_offset: 0 }
    }

    /// Replicate a Column with a different name.
    pub fn new_with_name(column_name: String, column: &Column) -> (r: Self)
        ensures
            r@ == (ColumnView { name: column_name@, ..column@ }),
    {
        proof {
            use_type_invariant(column);
        }
        Column {
            column_name,
            column_type: column.column_type,
            length: column.length,
            column_offset: column.column_offset,
        }
    }

    /// Return a copy of this column with a different name.
    pub fn with_column_name(&self, column_name: String) -> (r: Self)
        ensures
            r@ == (ColumnView { name: column_name@, ..self@ }),
    {
        proof {
            use_type_invariant(self);
        }
        Column {
            column_name,
            column_type: self.column_type,
            length: self.length,
            column_offset: self.column_offset,
        }
    }

    /// A copy of this column.
    pub fn duplicate(&self) -> (r: Self)
        ensures
            r == *self,
    {
        proof {
            use_type_invariant(self);
        }
        Column {
            column_name: self.column_name.clone(),
            column_type: self.column_type,
            length: self.length,
            column_offset: self.column_offset,
        }
    }

    /// Sets the column's offset in the tuple.
    pub(crate) fn set_offset(&mut self, offset: usize)
        ensures
            final(self)@ == (ColumnView { offset: offset as nat, ..old(self)@ }),
    {
        proof {
            use_type_invariant(&*self);
        }
        self.column_offset = offset;
    }

    /// Get the column name.
    pub fn get_name(&self) -> (r: &str)
        ensures
            r@ == self@.name,
    {
        self.column_name.as_str()
    }

    /// Get the storage size of this column.
    pub fn get_storage_size(&self) -> (r: usize)
        ensures
            r == self@.length,
    {
        self.length
    }

    /// Get the column's offset in the tuple.
    pub fn get_offset(&self) -> (r: usize)
        ensures
            r == self@.offset,
    {
        self.column_offset
    }

    /// Get the column type.
    pub fn get_type(&self) -> (r: TypeId)
        ensures
            r == self@.type_id,
    {
        self.column_type
    }

    /// Check if the column is inlined (i.e., not VARCHAR).
    pub fn is_inlined(&self) -> (r: bool)
        ensures
            r == (self@.type_id != TypeId::Varchar),
    {
        self.column_type != TypeId::Varchar
    }

    /// Return the size in bytes of the type.
    fn type_size(type_id: TypeId, length: u32) -> (r: u32)
        ensures
            r == type_size(type_id, length),
    {
        match type_id {
            TypeId::Boolean | TypeId::TinyInt => 1,
            TypeId::SmallInt => 2,
            TypeId::Integer => 4,
            TypeId::BigInt | TypeId::Decimal | TypeId::Timestamp => 8,
            TypeId::Varchar => length,
        }
    }
}

/// The text of a column: `name:TYPE`, with `(length)` after a VARCHAR when
/// simplified; else `Column[name, TYPE, Offset:offset, Length:length]`.
pub open spec fn column_text(c: ColumnView, simplified: bool) -> Seq<char> {
    if simplified {
        c.name + ":"@ + sql_type_name(c.type_id) + if c.type_id == TypeId::Varchar {
            "("@ + decimal(c.length) + ")"@
        } else {
            Seq::empty()
        }
    } else {
        "Column["@ + c.name + ", "@ + sql_type_name(c.type_id) + ", Offset:"@ + decimal(c.offset)
            + ", Length:"@ + decimal(c.length) + "]"@
    }
}

impl Column {
    /// Get a string representation of this column.
    pub fn to_string_simplified(&self, simplified: bool) -> (r: String)
        ensures
            r@ == column_text(self@, simplified),
    {
        let mut s = self.column_name.clone();
        if simplified {
            s.append(":");
            s.append(type_id_to_string(self.column_type).as_str());
            if self.column_type == TypeId::Varchar {
                s.append("(");
                push_decimal(&mut s, self.length as u64);
                s.append(")");
            }
            proof {
                reveal_strlit(":");
                reveal_strlit("(");
                reveal_strlit(")");
            }
            assert(s@ =~= column_text(self@, simplified));
            return s;
        }
        let mut r = String::from_str("Column[");
        r.append(s.as_str());
        r.append(", ");
        r.append(type_id_to_string(self.column_type).as_str());
        r.append(", Offset:");
        push_decimal(&mut r, self.column_offset as u64);
        r.append(", Length:");
        push_decimal(&mut r, self.length as u64);
        r.append("]");
        assert(r@ =~= column_text(self@, simplified));
        r
    }
}

} // verus!
