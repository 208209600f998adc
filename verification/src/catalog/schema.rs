use std::rc::Rc;
use vstd::prelude::*;

use crate::catalog::column::{column_text, Column, ColumnView};
use crate::common::text::{decimal, push_decimal};
use crate::sql_type::type_id::TypeId;

verus! {

/// A shared, immutable schema.
pub type SchemaRef = Rc<Schema>;

/// The bytes a column takes in the fixed-length part of a tuple: its storage
/// size when inlined, a pointer's size otherwise.
pub open spec fn slot_size(c: ColumnView) -> nat {
    if c.type_id != TypeId::Varchar {
        c.length
    } else {
        vstd::layout::size_of::<usize>()
    }
}

/// The offset of column `i` when `cols` are laid out left to right.
pub open spec fn layout_offset(cols: Seq<ColumnView>, i: int) -> nat
    decreases i,
{
    if i <= 0 {
        0
    } else {
        layout_offset(cols, i - 1) + slot_size(cols[i - 1])
    }
}

/// The columns `cols` with their offsets set by laying them out.
pub open spec fn laid_out(cols: Seq<ColumnView>) -> Seq<ColumnView> {
    Seq::new(cols.len(), |i: int| ColumnView { offset: layout_offset(cols, i), ..cols[i] })
}

/// The indices of the columns of `cols` that are not inlined, in order.
pub open spec fn uninlined_indices(cols: Seq<ColumnView>) -> Seq<usize>
    decreases cols.len(),
{
    if cols.len() == 0 {
        Seq::empty()
    } else {
        let rest = uninlined_indices(cols.drop_last());
        if cols.last().type_id == TypeId::Varchar {
            rest.push((cols.len() - 1) as usize)
        } else {
            rest
        }
    }
}

/// The views of a sequence of columns.
pub open spec fn column_views(cols: Seq<Column>) -> Seq<ColumnView> {
    cols.map_values(|c: Column| c@)
}

/// The mathematical view of a schema: its columns, the bytes of a tuple's
/// fixed-length part, whether every column is inlined, and the indices of the
/// columns that are not.
pub struct SchemaView {
    pub columns: Seq<ColumnView>,
    pub length: nat,
    pub inlined: bool,
    pub uninlined: Seq<usize>,
}

/// The schema that `Schema::new` builds from `cols`.
pub open spec fn schema_of(cols: Seq<ColumnView>) -> SchemaView {
    SchemaView {
        columns: laid_out(cols),
        length: layout_offset(cols, cols.len() as int),
        inlined: forall|i: int| 0 <= i < cols.len() ==> cols[i].type_id != TypeId::Varchar,
        uninlined: uninlined_indices(cols),
    }
}

/// A Schema represents the schema (column types, names, offsets, etc.)
/// for a table. It is composed of Column objects.
pub struct Schema {
    /// Fixed-length column size, i.e. the number of bytes used by one tuple.
    length: usize,
    /// All the columns in the schema, inlined and uninlined.
    pub(crate) columns: Vec<Column>,
    /// True if all the columns are inlined, false otherwise.
    tuple_is_inlined: bool,
    /// Indices of all uninlined columns.
    uninlined_columns: Vec<usize>,
}

impl View for Schema {
    type V = SchemaView;

    closed spec fn view(&self) -> SchemaView {
        SchemaView {
            columns: column_views(self.columns@),
            length: self.length as nat,
            inlined: self.tuple_is_inlined,
            uninlined: self.uninlined_columns@,
        }
    }
}

/// The views of columns after a push are the views before, then the new column's.
pub proof fn lemma_column_views_push(s: Seq<Column>, c: Column)
    ensures
        column_views(s.push(c)) == column_views(s).push(c@),
{
    assert(column_views(s.push(c)) =~= column_views(s).push(c@));
}

proof fn lemma_layout_monotone(cols: Seq<ColumnView>, i: int, j: int)
    requires
        0 <= i <= j <= cols.len(),
    ensures
        layout_offset(cols, i) <= layout_offset(cols, j),
    decreases j - i,
{
    if i < j {
        lemma_layout_monotone(cols, i, j - 1);
    }
}

proof fn lemma_uninlined_bounded(cols: Seq<ColumnView>)
    ensures
        uninlined_indices(cols).len() <= cols.len(),
        forall|j: int| 0 <= j < uninlined_indices(cols).len() ==> #[trigger] uninlined_indices(cols)[j] < cols.len(),
    decreases cols.len(),
{
    if cols.len() > 0 {
        lemma_uninlined_bounded(cols.drop_last());
    }
}

/// Laying out columns depends on their sizes and types alone, not on their
/// previous offsets.
pub proof fn lemma_layout_of_laid_out(cols: Seq<ColumnView>, i: int)
    requires
        0 <= i <= cols.len(),
    ensures
        layout_offset(laid_out(cols), i) == layout_offset(cols, i),
    decreases i,
{
    if i > 0 {
        lemma_layout_of_laid_out(cols, i - 1);
    }
}

impl Schema {
    /// The fixed-length part of a tuple of this schema is its columns laid
    /// out one after another.
    #[verifier::type_invariant]
    pub open spec fn layout_fits(self) -> bool {
        &&& layout_offset(self@.columns, self@.columns.len() as int) == self@.length
        &&& self@.length <= usize::MAX
        &&& self@.columns.len() <= u32::MAX
        &&& self@.uninlined.len() <= self@.columns.len()
    }

    /// Constructs the schema corresponding to the vector of columns,
    /// read left-to-right: each column's offset is the sum of the slot sizes
    /// of the columns before it.
    pub fn new(columns: Vec<Column>) -> (r: Self)
        requires
            layout_offset(column_views(columns@), columns@.len() as int) <= usize::MAX,
            columns@.len() <= u32::MAX,
        ensures
            r@ == schema_of(column_views(columns@)),
    {
        let ghost cols = column_views(columns@);
        let mut curr_offset: usize = 0;
        let mut tuple_is_inlined = true;
        let mut uninlined_columns: Vec<usize> = Vec::new();
        let mut schema_columns: Vec<Column> = Vec::with_capacity(columns.len());
        let mut index: usize = 0;
        while index < columns.len()
            invariant
                cols == column_views(columns@),
                layout_offset(cols, cols.len() as int) <= usize::MAX,
                0 <= index <= columns@.len(),
                curr_offset == layout_offset(cols, index as int),
                tuple_is_inlined == forall|i: int| 0 <= i < index ==> cols[i].type_id != TypeId::Varchar,
                uninlined_columns@ == uninlined_indices(cols.take(index as int)),
                column_views(schema_columns@) == laid_out(cols).take(index as int),
            decreases columns@.len() - index,
        {
            let mut column = columns[index].duplicate();
            proof {
                lemma_layout_monotone(cols, index as int + 1, cols.len() as int);
                assert(cols.take(index as int + 1).drop_last() =~= cols.take(index as int));
            }
            if !column.is_inlined() {
                tuple_is_inlined = false;
                uninlined_columns.push(index);
            }
            column.set_offset(curr_offset);
            if column.is_inlined() {
                curr_offset = curr_offset + column.get_storage_size();
            } else {
                curr_offset = curr_offset + core::mem::size_of::<usize>();
            }
            let ghost prev = schema_columns@;
            proof {
                lemma_column_views_push(prev, column);
                assert(column@ == laid_out(cols)[index as int]);
                assert(laid_out(cols).take(index as int + 1) =~= laid_out(cols).take(index as int).push(
                    laid_out(cols)[index as int],
                ));
            }
            schema_columns.push(column);
            index = index + 1;
        }
        assert(cols.take(index as int) =~= cols);
        assert(laid_out(cols).take(index as int) =~= laid_out(cols));
        proof {
            lemma_layout_of_laid_out(cols, cols.len() as int);
            lemma_uninlined_bounded(cols);
        }
        Schema { length: curr_offset, columns: schema_columns, tuple_is_inlined, uninlined_columns }
    }

    /// Create a new Schema from the columns of `from` at the indices `attrs`,
    /// in that order.
    pub fn copy_schema(from: &Schema, attrs: &[usize]) -> (r: Self)
        requires
            forall|i: int| 0 <= i < attrs@.len() ==> #[trigger] attrs@[i] < from@.columns.len(),
            attrs@.len() <= u32::MAX,
            layout_offset(
                Seq::new(attrs@.len(), |i: int| from@.columns[attrs@[i] as int]),
                attrs@.len() as int,
            ) <= usize::MAX,
        ensures
            r@ == schema_of(Seq::new(attrs@.len(), |i: int| from@.columns[attrs@[i] as int])),
    {
        let ghost picked = Seq::new(attrs@.len(), |i: int| from@.columns[attrs@[i] as int]);
        let mut cols: Vec<Column> = Vec::with_capacity(attrs.len());
        let mut i: usize = 0;
        while i < attrs.len()
            invariant
                0 <= i <= attrs@.len(),
                forall|k: int| 0 <= k < attrs@.len() ==> #[trigger] attrs@[k] < from@.columns.len(),
                picked == Seq::new(attrs@.len(), |k: int| from@.columns[attrs@[k] as int]),
                column_views(cols@) == picked.take(i as int),
            decreases attrs@.len() - i,
        {
            let c = from.columns[attrs[i]].duplicate();
            proof {
                lemma_column_views_push(cols@, c);
                assert(from@.columns[attrs@[i as int] as int] == from.columns@[attrs@[i as int] as int]@);
                assert(picked.take(i as int + 1) =~= picked.take(i as int).push(picked[i as int]));
            }
            cols.push(c);
            i += 1;
        }
        assert(picked.take(i as int) =~= picked);
        Schema::new(cols)
    }

    /// A copy of this schema.
    pub fn duplicate(&self) -> (r: Self)
        ensures
            r@ == self@,
    {
        proof {
            use_type_invariant(self);
        }
        let mut cols: Vec<Column> = Vec::with_capacity(self.columns.len());
        let mut i: usize = 0;
        while i < self.columns.len()
            invariant
                0 <= i <= self.columns@.len(),
                column_views(cols@) == column_views(self.columns@).take(i as int),
            decreases self.columns@.len() - i,
        {
            let c = self.columns[i].duplicate();
            proof {
                lemma_column_views_push(cols@, c);
                assert(column_views(self.columns@).take(i as int + 1) =~= column_views(self.columns@).take(
                    i as int,
                ).push(column_views(self.columns@)[i as int]));
            }
            cols.push(c);
            i += 1;
        }
        assert(column_views(self.columns@).take(i as int) =~= column_views(self.columns@));
        let mut un: Vec<usize> = Vec::with_capacity(self.uninlined_columns.len());
        let mut j: usize = 0;
        while j < self.uninlined_columns.len()
            invariant
                0 <= j <= self.uninlined_columns@.len(),
                un@ == self.uninlined_columns@.take(j as int),
            decreases self.uninlined_columns@.len() - j,
        {
            un.push(self.uninlined_columns[j]);
            j += 1;
            assert(un@ =~= self.uninlined_columns@.take(j as int));
        }
        assert(self.uninlined_columns@.take(j as int) =~= self.uninlined_columns@);
        Schema {
            length: self.length,
            columns: cols,
            tuple_is_inlined: self.tuple_is_inlined,
            uninlined_columns: un,
        }
    }

    /// Get all the columns in the schema.
    pub fn get_columns(&self) -> (r: &Vec<Column>)
        ensures
            column_views(r@) == self@.columns,
    {
        &self.columns
    }

    /// Get a specific column from the schema by index.
    pub fn get_column(&self, col_idx: usize) -> (r: &Column)
        requires
            col_idx < self@.columns.len(),
        ensures
            r@ == self@.columns[col_idx as int],
    {
        &self.columns[col_idx]
    }

    /// Look up the index of a column by name: the first column with that name.
    pub fn get_col_idx(&self, col_name: &str) -> (r: u32)
        requires
            exists|i: int| 0 <= i < self@.columns.len() && #[trigger] self@.columns[i].name == col_name@,
        ensures
            r < self@.columns.len(),
            self@.columns[r as int].name == col_name@,
            forall|j: int| 0 <= j < r ==> #[trigger] self@.columns[j].name != col_name@,
    {
        match self.try_get_col_idx(col_name) {
            Some(i) => i,
            None => {
                assert(false);
                0
            },
        }
    }

    /// Look up the index of a column by name: the first column with that
    /// name, or `None` if there is none.
    pub fn try_get_col_idx(&self, col_name: &str) -> (r: Option<u32>)
        ensures
            match r {
                Some(i) => {
                    &&& i < self@.columns.len()
                    &&& self@.columns[i as int].name == col_name@
                    &&& forall|j: int| 0 <= j < i ==> #[trigger] self@.columns[j].name != col_name@
                },
                None => forall|j: int| 0 <= j < self@.columns.len() ==> #[trigger] self@.columns[j].name != col_name@,
            },
    {
        proof {
            use_type_invariant(self);
        }
        let mut i: usize = 0;
        while i < self.columns.len()
            invariant
                self@.columns.len() <= u32::MAX,
                0 <= i <= self.columns@.len(),
                self@.columns == column_views(self.columns@),
                forall|j: int| 0 <= j < i ==> #[trigger] self@.columns[j].name != col_name@,
            decreases self.columns@.len() - i,
        {
            if crate::common::text::str_eq(self.columns[i].get_name(), col_name) {
                return Some(i as u32);
            }
            i += 1;
        }
        None
    }

    /// Get the indices of non-inlined columns.
    pub fn get_unlined_columns(&self) -> (r: &Vec<usize>)
        ensures
            r@ == self@.uninlined,
    {
        &self.uninlined_columns
    }

    /// Get the number of columns in the schema.
    pub fn get_column_count(&self) -> (r: usize)
        ensures
            r == self@.columns.len(),
    {
        self.columns.len()
    }

    /// Get the number of non-inlined columns.
    pub fn get_unlined_column_count(&self) -> (r: u32)
        ensures
            r == self@.uninlined.len(),
    {
        proof {
            use_type_invariant(self);
        }
        self.uninlined_columns.len() as u32
    }

    /// Get the number of bytes used by one tuple.
    pub fn get_inlined_storage_size(&self) -> (r: usize)
        ensures
            r == self@.length,
    {
        self.length
    }

    /// Check if all columns are inlined.
    pub fn is_inlined(&self) -> (r: bool)
        ensures
            r == self@.inlined,
    {
        self.tuple_is_inlined
    }
}


/// Whether a schema of `n` columns fits the machine: it counts its columns
/// in a `u32`, and the fixed part of its tuples, at most 8 bytes per column,
/// is sized by a `usize`.
pub open spec fn columns_fit(n: int) -> bool {
    &&& 0 <= n <= u32::MAX
    &&& 8 * n <= usize::MAX
}

/// Whether a schema of `n` columns fits the machine.
pub fn fits_columns(n: usize) -> (r: bool)
    ensures
        r == columns_fit(n as int),
{
    n <= 0xffff_ffff && n <= usize::MAX / 8
}

/// Columns whose inlined ones take at most 8 bytes lay out within `usize`
/// when there are few enough to fit the machine.
pub proof fn lemma_few_small_columns_fit(cols: Seq<ColumnView>)
    requires
        columns_fit(cols.len() as int),
        forall|j: int| 0 <= j < cols.len() ==> #[trigger] cols[j].type_id != TypeId::Varchar ==> cols[j].length <= 8,
    ensures
        layout_offset(cols, cols.len() as int) <= usize::MAX,
        cols.len() <= u32::MAX,
{
    lemma_small_layout(cols, cols.len() as int);
}

/// Two column lists with the same types and sizes lay out alike.
pub proof fn lemma_layout_same_sizes(a: Seq<ColumnView>, b: Seq<ColumnView>, i: int)
    requires
        0 <= i <= a.len(),
        a.len() == b.len(),
        forall|j: int|
            0 <= j < a.len() ==> #[trigger] a[j].type_id == b[j].type_id && a[j].length == b[j].length,
    ensures
        layout_offset(a, i) == layout_offset(b, i),
    decreases i,
{
    if i > 0 {
        lemma_layout_same_sizes(a, b, i - 1);
        assert(a[i - 1].type_id == b[i - 1].type_id && a[i - 1].length == b[i - 1].length);
    }
}

/// Laying out the first columns of `a + b` is laying out those of `a`.
pub proof fn lemma_layout_prefix(a: Seq<ColumnView>, b: Seq<ColumnView>, i: int)
    requires
        0 <= i <= a.len(),
    ensures
        layout_offset(a + b, i) == layout_offset(a, i),
    decreases i,
{
    if i > 0 {
        lemma_layout_prefix(a, b, i - 1);
        assert((a + b)[i - 1] == a[i - 1]);
    }
}

/// `a + b` lays out as `a` followed by `b`.
pub proof fn lemma_layout_concat(a: Seq<ColumnView>, b: Seq<ColumnView>, i: int)
    requires
        0 <= i <= b.len(),
    ensures
        layout_offset(a + b, a.len() + i) == layout_offset(a, a.len() as int) + layout_offset(b, i),
    decreases i,
{
    if i == 0 {
        lemma_layout_prefix(a, b, a.len() as int);
    } else {
        lemma_layout_concat(a, b, i - 1);
        assert((a + b)[a.len() + i - 1] == b[i - 1]);
    }
}

/// `Rc::clone`: another pointer to the same schema.
#[verifier::external_body]
pub fn share_schema(s: &SchemaRef) -> (r: SchemaRef)
    ensures
        r == *s,
{
    Rc::clone(s)
}

/// When every inlined column takes at most 8 bytes, `n` columns take at
/// most `8 * n` bytes.
pub proof fn lemma_small_layout(cols: Seq<ColumnView>, i: int)
    requires
        0 <= i <= cols.len(),
        forall|j: int| 0 <= j < cols.len() ==> #[trigger] cols[j].type_id != TypeId::Varchar ==> cols[j].length <= 8,
    ensures
        layout_offset(cols, i) <= 8 * i,
    decreases i,
{
    broadcast use vstd::layout::layout_of_primitives;
    if i > 0 {
        lemma_small_layout(cols, i - 1);
        assert(vstd::layout::size_of::<usize>() * 8 == usize::BITS);
    }
}

/// The texts of the columns `cols`, separated by `, `.
pub open spec fn joined_column_texts(cols: Seq<ColumnView>, simplified: bool) -> Seq<char>
    decreases cols.len(),
{
    if cols.len() == 0 {
        Seq::empty()
    } else if cols.len() == 1 {
        column_text(cols[0], simplified)
    } else {
        joined_column_texts(cols.drop_last(), simplified) + ", "@ + column_text(cols.last(), simplified)
    }
}

/// The text of a schema: its columns' texts in brackets, after a header
/// with the number of columns, whether all are inlined and the tuple length
/// when not simplified.
pub open spec fn schema_text(s: SchemaView, simplified: bool) -> Seq<char> {
    if simplified {
        "("@ + joined_column_texts(s.columns, true) + ")"@
    } else {
        "Schema[NumColumns:"@ + decimal(s.columns.len()) + ", IsInlined:"@ + (if s.inlined {
            "true"@
        } else {
            "false"@
        }) + ", Length:"@ + decimal(s.length) + "] :: ("@ + joined_column_texts(s.columns, false)
            + ")"@
    }
}

impl Schema {
    /// Get a string representation of this schema.
    pub fn to_string_simplified(&self, simplified: bool) -> (r: String)
        ensures
            r@ == schema_text(self@, simplified),
    {
        proof {
            reveal_strlit("(");
            reveal_strlit(")");
            reveal_strlit(", ");
            reveal_strlit("true");
            reveal_strlit("false");
        }
        let mut s = if simplified {
            String::from_str("(")
        } else {
            let mut h = String::from_str("Schema[NumColumns:");
            push_decimal(&mut h, self.columns.len() as u64);
            h.append(", IsInlined:");
            if self.tuple_is_inlined {
                h.append("true");
            } else {
                h.append("false");
            }
            h.append(", Length:");
            push_decimal(&mut h, self.length as u64);
            h.append("] :: (");
            h
        };
        let ghost head = s@;
        let ghost cols = column_views(self.columns@);
        let mut i: usize = 0;
        while i < self.columns.len()
            invariant
                0 <= i <= self.columns@.len(),
                cols == column_views(self.columns@),
                s@ == head + joined_column_texts(cols.take(i as int), simplified),
            decreases self.columns@.len() - i,
        {
            let ghost before = s@;
            if i > 0 {
                s.append(", ");
            }
            let t = self.columns[i].to_string_simplified(simplified);
            s.append(t.as_str());
            proof {
                let taken = cols.take(i as int + 1);
                assert(taken.drop_last() =~= cols.take(i as int));
                assert(taken.last() == cols[i as int]);
                if i == 0 {
                    assert(cols.take(0) =~= Seq::<ColumnView>::empty());
                }
            }
            i += 1;
            assert(s@ =~= head + joined_column_texts(cols.take(i as int), simplified));
        }
        s.append(")");
        assert(cols.take(i as int) =~= cols);
        assert(s@ =~= schema_text(self@, simplified));
        s
    }
}

/// The uninlined-column list of a schema is strictly increasing and holds
/// exactly the positions of its VARCHAR columns.
pub proof fn law_uninlined_columns(cols: Seq<ColumnView>)
    requires
        cols.len() <= usize::MAX,
    ensures
        forall|a: int, b: int|
            0 <= a < b < uninlined_indices(cols).len() ==> #[trigger] uninlined_indices(cols)[a]
                < #[trigger] uninlined_indices(cols)[b],
        forall|j: int| 0 <= j < uninlined_indices(cols).len() ==> #[trigger] uninlined_indices(cols)[j] < cols.len(),
        forall|i: int|
            0 <= i < cols.len() ==> (#[trigger] cols[i].type_id == TypeId::Varchar <==> uninlined_indices(
                cols,
            ).contains(i as usize)),
    decreases cols.len(),
{
    if cols.len() > 0 {
        let d = cols.drop_last();
        law_uninlined_columns(d);
        let rest = uninlined_indices(d);
        let u = uninlined_indices(cols);
        let last = (cols.len() - 1) as usize;
        assert forall|i: int| 0 <= i < cols.len() implies (#[trigger] cols[i].type_id == TypeId::Varchar
            <==> u.contains(i as usize)) by {
            if i < cols.len() - 1 {
                assert(cols[i] == d[i]);
                if u.contains(i as usize) {
                    let k = choose|k: int| 0 <= k < u.len() && u[k] == i as usize;
                    if k < rest.len() {
                        assert(u[k] == rest[k]);
                    }
                }
                if rest.contains(i as usize) {
                    let k = choose|k: int| 0 <= k < rest.len() && rest[k] == i as usize;
                    assert(u[k] == rest[k]);
                }
            } else {
                if u.contains(i as usize) {
                    let k = choose|k: int| 0 <= k < u.len() && u[k] == i as usize;
                    if k < rest.len() {
                        assert(u[k] == rest[k]);
                    }
                }
                if cols[i].type_id == TypeId::Varchar {
                    assert(u[rest.len() as int] == last);
                }
            }
        }
    }
}

} // verus!
