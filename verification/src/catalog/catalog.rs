use std::rc::Rc;
use vstd::prelude::*;

use crate::catalog::schema::{Schema, SchemaView};
use crate::common::text::str_eq;

verus! {

/// Type alias for table OID.
pub type TableOid = u32;

/// Type alias for column OID.
pub type ColumnOid = u32;

/// Type alias for index OID.
pub type IndexOid = u32;

/// A shared handle on the catalog.
pub type CatalogRef = Rc<Catalog>;

/// Index type enum.
#[derive(Debug, Clone, Copy, PartialEq, Eq, Structural)]
pub enum IndexType {
    BPlusTreeIndex,
}

/// TableInfo maintains metadata about a table.
pub struct TableInfo {
    /// The table schema.
    pub schema: Schema,
    /// The table name.
    pub name: String,
    /// The table OID.
    pub oid: TableOid,
}

/// The mathematical view of a table's metadata.
pub struct TableView {
    pub schema: SchemaView,
    pub name: Seq<char>,
    pub oid: TableOid,
}

impl View for TableInfo {
    type V = TableView;

    open spec fn view(&self) -> TableView {
        TableView { schema: self.schema@, name: self.name@, oid: self.oid }
    }
}

impl TableInfo {
    /// Construct a new TableInfo instance.
    pub fn new(schema: Schema, name: String, oid: TableOid) -> (r: Self)
        ensures
            r@ == (TableView { schema: schema@, name: name@, oid }),
    {
        TableInfo { schema, name, oid }
    }
}

/// IndexInfo maintains metadata about an index.
pub struct IndexInfo {
    /// The schema for the index key.
    pub key_schema: Schema,
    /// The name of the index.
    pub name: String,
    /// The unique OID for the index.
    pub index_oid: IndexOid,
    /// The name of the table on which the index is created.
    pub table_name: String,
    /// The size of the index key, in bytes.
    pub key_size: usize,
    /// Is primary key index?
    pub is_primary_key: bool,
    /// The index type.
    pub index_type: IndexType,
}

/// The mathematical view of an index's metadata.
pub struct IndexView {
    pub key_schema: SchemaView,
    pub name: Seq<char>,
    pub index_oid: IndexOid,
    pub table_name: Seq<char>,
    pub key_size: nat,
    pub is_primary_key: bool,
    pub index_type: IndexType,
}

impl View for IndexInfo {
    type V = IndexView;

    open spec fn view(&self) -> IndexView {
        IndexView {
            key_schema: self.key_schema@,
            name: self.name@,
            index_oid: self.index_oid,
            table_name: self.table_name@,
            key_size: self.key_size as nat,
            is_primary_key: self.is_primary_key,
            index_type: self.index_type,
        }
    }
}

impl IndexInfo {
    /// Construct a new IndexInfo instance.
    pub fn new(
        key_schema: Schema,
        name: String,
        index_oid: IndexOid,
        table_name: String,
        key_size: usize,
        is_primary_key: bool,
        index_type: IndexType,
    ) -> (r: Self)
        ensures
            r@ == (IndexView {
                key_schema: key_schema@,
                name: name@,
                index_oid,
                table_name: table_name@,
                key_size: key_size as nat,
                is_primary_key,
                index_type,
            }),
    {
        IndexInfo { key_schema, name, index_oid, table_name, key_size, is_primary_key, index_type }
    }
}

/// The Catalog handles table creation, table lookup, index creation, and
/// index lookup. Tables and indexes get consecutive OIDs from 0 on.
pub struct Catalog {
    /// The metadata of every table, by OID.
    tables: Vec<TableInfo>,
    /// The metadata of every index, by OID.
    indexes: Vec<IndexInfo>,
}

impl Catalog {
    /// The tables, by OID.
    pub closed spec fn tables(&self) -> Seq<TableView> {
        self.tables@.map_values(|t: TableInfo| t@)
    }

    /// The indexes, by OID.
    pub closed spec fn indexes(&self) -> Seq<IndexView> {
        self.indexes@.map_values(|i: IndexInfo| i@)
    }

    /// Whether some table is named `name`.
    pub open spec fn has_table(&self, name: Seq<char>) -> bool {
        exists|i: int| 0 <= i < self.tables().len() && #[trigger] self.tables()[i].name == name
    }

    /// Whether the table named `table` has an index named `name`.
    pub open spec fn has_index(&self, name: Seq<char>, table: Seq<char>) -> bool {
        exists|i: int|
            0 <= i < self.indexes().len() && #[trigger] self.indexes()[i].name == name
                && self.indexes()[i].table_name == table
    }

    pub open spec fn wf(&self) -> bool {
        &&& forall|i: int| 0 <= i < self.tables().len() ==> #[trigger] self.tables()[i].oid == i
        &&& forall|i: int, j: int|
            0 <= i < j < self.tables().len() ==> #[trigger] self.tables()[i].name != #[trigger] self.tables()[j].name
        &&& forall|i: int| 0 <= i < self.indexes().len() ==> #[trigger] self.indexes()[i].index_oid == i
        &&& forall|i: int, j: int|
            0 <= i < j < self.indexes().len() ==> !(#[trigger] self.indexes()[i].name == #[trigger] self.indexes()[j].name
                && self.indexes()[i].table_name == self.indexes()[j].table_name)
        &&& forall|i: int| 0 <= i < self.indexes().len() ==> self.has_table(#[trigger] self.indexes()[i].table_name)
    }

    /// Construct a new, empty Catalog.
    pub fn new() -> (r: Self)
        ensures
            r.wf(),
            r.tables() == Seq::<TableView>::empty(),
            r.indexes() == Seq::<IndexView>::empty(),
    {
        let r = Catalog { tables: Vec::new(), indexes: Vec::new() };
        assert(r.tables() =~= Seq::<TableView>::empty());
        assert(r.indexes() =~= Seq::<IndexView>::empty());
        r
    }

    fn find_table(&self, table_name: &str) -> (r: Option<usize>)
        ensures
            match r {
                Some(i) => i < self.tables().len() && self.tables()[i as int].name == table_name@,
                None => !self.has_table(table_name@),
            },
    {
        let mut i: usize = 0;
        while i < self.tables.len()
            invariant
                0 <= i <= self.tables@.len(),
                forall|j: int| 0 <= j < i ==> #[trigger] self.tables()[j].name != table_name@,
            decreases self.tables@.len() - i,
        {
            if str_eq(self.tables[i].name.as_str(), table_name) {
                return Some(i);
            }
            i += 1;
        }
        None
    }

    /// Create a new table and return its OID, or `None` if a table of that
    /// name exists.
    pub fn create_table(&mut self, table_name: &str, schema: &Schema) -> (r: Option<TableOid>)
        requires
            old(self).wf(),
            old(self).tables().len() < u32::MAX,
        ensures
            final(self).wf(),
            final(self).indexes() == old(self).indexes(),
            match r {
                None => old(self).has_table(table_name@) && final(self).tables() == old(self).tables(),
                Some(oid) => {
                    &&& !old(self).has_table(table_name@)
                    &&& oid == old(self).tables().len()
                    &&& final(self).tables() == old(self).tables().push(
                        TableView { schema: schema@, name: table_name@, oid },
                    )
                },
            },
    {
        if self.find_table(table_name).is_some() {
            return None;
        }
        let table_oid = self.tables.len() as TableOid;
        let schema_copy = schema.duplicate();
        let meta = TableInfo::new(schema_copy, String::from_str(table_name), table_oid);
        let ghost old_tables = self.tables();
        self.tables.push(meta);
        assert(self.tables() =~= old_tables.push(TableView { schema: schema@, name: table_name@, oid: table_oid }));
        assert forall|i: int| 0 <= i < self.indexes().len() implies self.has_table(#[trigger] self.indexes()[i].table_name) by {
            let j = choose|j: int| 0 <= j < old_tables.len() && #[trigger] old_tables[j].name == self.indexes()[i].table_name;
            assert(self.tables()[j].name == old_tables[j].name);
        }
        Some(table_oid)
    }

    /// Query table metadata by name.
    pub fn get_table_by_name(&self, table_name: &str) -> (r: Option<&TableInfo>)
        requires
            self.wf(),
        ensures
            match r {
                Some(t) => t@.name == table_name@ && t@.oid < self.tables().len() && self.tables()[t@.oid as int] == t@,
                None => !self.has_table(table_name@),
            },
    {
        match self.find_table(table_name) {
            Some(i) => Some(&self.tables[i]),
            None => None,
        }
    }

    /// Query table metadata by name.
    pub fn get_table_ref_by_name(&self, table_name: &str) -> (r: Option<&TableInfo>)
        requires
            self.wf(),
        ensures
            match r {
                Some(t) => t@.name == table_name@ && t@.oid < self.tables().len() && self.tables()[t@.oid as int] == t@,
                None => !self.has_table(table_name@),
            },
    {
        self.get_table_by_name(table_name)
    }

    /// Query table metadata by OID.
    pub fn get_table_by_oid(&self, table_oid: TableOid) -> (r: Option<&TableInfo>)
        requires
            self.wf(),
        ensures
            match r {
                Some(t) => table_oid < self.tables().len() && t@ == self.tables()[table_oid as int],
                None => table_oid >= self.tables().len(),
            },
    {
        if (table_oid as usize) < self.tables.len() {
            Some(&self.tables[table_oid as usize])
        } else {
            None
        }
    }

    fn find_index(&self, index_name: &str, table_name: &str) -> (r: Option<usize>)
        ensures
            match r {
                Some(i) => i < self.indexes().len() && self.indexes()[i as int].name == index_name@
                    && self.indexes()[i as int].table_name == table_name@,
                None => !self.has_index(index_name@, table_name@),
            },
    {
        let mut i: usize = 0;
        while i < self.indexes.len()
            invariant
                0 <= i <= self.indexes@.len(),
                forall|j: int|
                    0 <= j < i ==> !(#[trigger] self.indexes()[j].name == index_name@ && self.indexes()[j].table_name
                        == table_name@),
            decreases self.indexes@.len() - i,
        {
            if str_eq(self.indexes[i].name.as_str(), index_name) && str_eq(
                self.indexes[i].table_name.as_str(),
                table_name,
            ) {
                return Some(i);
            }
            i += 1;
        }
        None
    }

    /// Record a new index on the table `table_name` and return its OID, or
    /// `None` if there is no such table or the table already has an index of
    /// that name.
    pub fn create_index(
        &mut self,
        index_name: &str,
        table_name: &str,
        key_schema: &Schema,
        keysize: usize,
        is_primary_key: bool,
        index_type: IndexType,
    ) -> (r: Option<IndexOid>)
        requires
            old(self).wf(),
            old(self).indexes().len() < u32::MAX,
        ensures
            final(self).wf(),
            final(self).tables() == old(self).tables(),
            match r {
                None => (!old(self).has_table(table_name@) || old(self).has_index(index_name@, table_name@))
                    && final(self).indexes() == old(self).indexes(),
                Some(oid) => {
                    &&& old(self).has_table(table_name@)
                    &&& !old(self).has_index(index_name@, table_name@)
                    &&& oid == old(self).indexes().len()
                    &&& final(self).indexes() == old(self).indexes().push(
                        IndexView {
                            key_schema: key_schema@,
                            name: index_name@,
                            index_oid: oid,
                            table_name: table_name@,
                            key_size: keysize as nat,
                            is_primary_key,
                            index_type: IndexType::BPlusTreeIndex,
                        },
                    )
                },
            },
    {
        let t = self.find_table(table_name);
        if t.is_none() {
            return None;
        }
        if self.find_index(index_name, table_name).is_some() {
            return None;
        }
        let index_oid = self.indexes.len() as IndexOid;
        let info = IndexInfo::new(
            key_schema.duplicate(),
            String::from_str(index_name),
            index_oid,
            String::from_str(table_name),
            keysize,
            is_primary_key,
            match index_type {
                IndexType::BPlusTreeIndex => IndexType::BPlusTreeIndex,
            },
        );
        let ghost old_indexes = self.indexes();
        self.indexes.push(info);
        assert(self.indexes() =~= old_indexes.push(info@));
        assert(self.tables()[t.unwrap() as int].name == table_name@);
        Some(index_oid)
    }

    /// Get the index by name and table name.
    pub fn get_index_by_name(&self, index_name: &str, table_name: &str) -> (r: Option<&IndexInfo>)
        requires
            self.wf(),
        ensures
            match r {
                Some(x) => x@.name == index_name@ && x@.table_name == table_name@ && x@.index_oid
                    < self.indexes().len() && self.indexes()[x@.index_oid as int] == x@,
                None => !self.has_index(index_name@, table_name@),
            },
    {
        match self.find_index(index_name, table_name) {
            Some(i) => Some(&self.indexes[i]),
            None => None,
        }
    }

    /// Get the index by name and table OID.
    pub fn get_index_by_name_and_table_oid(&self, index_name: &str, table_oid: TableOid) -> (r: Option<&IndexInfo>)
        requires
            self.wf(),
        ensures
            match r {
                Some(x) => table_oid < self.tables().len() && x@.name == index_name@ && x@.table_name
                    == self.tables()[table_oid as int].name && x@.index_oid < self.indexes().len()
                    && self.indexes()[x@.index_oid as int] == x@,
                None => table_oid >= self.tables().len() || !self.has_index(
                    index_name@,
                    self.tables()[table_oid as int].name,
                ),
            },
    {
        match self.get_table_by_oid(table_oid) {
            None => None,
            Some(t) => self.get_index_by_name(index_name, t.name.as_str()),
        }
    }

    /// Get the index by index OID.
    pub fn get_index_by_oid(&self, index_oid: IndexOid) -> (r: Option<&IndexInfo>)
        requires
            self.wf(),
        ensures
            match r {
                Some(x) => index_oid < self.indexes().len() && x@ == self.indexes()[index_oid as int],
                None => index_oid >= self.indexes().len(),
            },
    {
        if (index_oid as usize) < self.indexes.len() {
            Some(&self.indexes[index_oid as usize])
        } else {
            None
        }
    }

    /// Get all indexes for the table identified by `table_name`, by OID.
    pub fn get_table_indexes(&self, table_name: &str) -> (r: Vec<&IndexInfo>)
        requires
            self.wf(),
        ensures
            r@.map_values(|x: &IndexInfo| x@) == self.indexes().filter(on_table(table_name@)),
    {
        let mut r: Vec<&IndexInfo> = Vec::new();
        let ghost pred = on_table(table_name@);
        let mut i: usize = 0;
        while i < self.indexes.len()
            invariant
                0 <= i <= self.indexes@.len(),
                pred == on_table(table_name@),
                r@.map_values(|x: &IndexInfo| x@) == self.indexes().take(i as int).filter(pred),
            decreases self.indexes@.len() - i,
        {
            proof {
                reveal_with_fuel(Seq::<_>::filter, 1);
                assert(self.indexes().take(i as int + 1).drop_last() =~= self.indexes().take(i as int));
            }
            if str_eq(self.indexes[i].table_name.as_str(), table_name) {
                r.push(&self.indexes[i]);
            }
            i += 1;
            assert(r@.map_values(|x: &IndexInfo| x@) =~= self.indexes().take(i as int).filter(pred));
        }
        assert(self.indexes().take(i as int) =~= self.indexes());
        r
    }

    /// Get all table names, by OID.
    pub fn get_table_names(&self) -> (r: Vec<String>)
        requires
            self.wf(),
        ensures
            r@.map_values(|s: String| s@) == self.tables().map_values(|t: TableView| t.name),
    {
        let mut r: Vec<String> = Vec::new();
        let mut i: usize = 0;
        while i < self.tables.len()
            invariant
                0 <= i <= self.tables@.len(),
                r@.len() == i,
                forall|j: int| 0 <= j < i ==> #[trigger] r@[j]@ == self.tables@[j].name@,
            decreases self.tables@.len() - i,
        {
            r.push(self.tables[i].name.clone());
            i += 1;
        }
        assert(r@.map_values(|s: String| s@) =~= self.tables().map_values(|t: TableView| t.name));
        r
    }
}

impl Catalog {
    /// A copy of this catalog.
    pub fn duplicate(&self) -> (r: Catalog)
        ensures
            r.tables() == self.tables(),
            r.indexes() == self.indexes(),
    {
        let mut tables: Vec<TableInfo> = Vec::new();
        let mut i: usize = 0;
        while i < self.tables.len()
            invariant
                0 <= i <= self.tables@.len(),
                tables@.map_values(|t: TableInfo| t@) == self.tables().take(i as int),
            decreases self.tables@.len() - i,
        {
            let t = &self.tables[i];
            let copy = TableInfo::new(t.schema.duplicate(), t.name.clone(), t.oid);
            let ghost before = tables@;
            tables.push(copy);
            assert(tables@.map_values(|t: TableInfo| t@) =~= self.tables().take(i + 1)) by {
                assert(before.map_values(|t: TableInfo| t@) =~= self.tables().take(i as int));
                assert(tables@ == before.push(copy));
                assert(copy@ == t@);
                assert(self.tables()[i as int] == self.tables@[i as int]@);
                assert(tables@.map_values(|t: TableInfo| t@) =~= before.map_values(|t: TableInfo| t@).push(copy@));
            }
            i += 1;
        }
        let mut indexes: Vec<IndexInfo> = Vec::new();
        let mut k: usize = 0;
        while k < self.indexes.len()
            invariant
                0 <= k <= self.indexes@.len(),
                indexes@.map_values(|x: IndexInfo| x@) == self.indexes().take(k as int),
            decreases self.indexes@.len() - k,
        {
            let x = &self.indexes[k];
            let copy = IndexInfo::new(
                x.key_schema.duplicate(),
                x.name.clone(),
                x.index_oid,
                x.table_name.clone(),
                x.key_size,
                x.is_primary_key,
                match x.index_type {
                    IndexType::BPlusTreeIndex => IndexType::BPlusTreeIndex,
                },
            );
            let ghost before = indexes@;
            indexes.push(copy);
            assert(indexes@.map_values(|x: IndexInfo| x@) =~= self.indexes().take(k + 1)) by {
                assert(before.map_values(|x: IndexInfo| x@) =~= self.indexes().take(k as int));
                assert(indexes@ == before.push(copy));
                assert(copy@ == x@);
                assert(self.indexes()[k as int] == self.indexes@[k as int]@);
                assert(indexes@.map_values(|x: IndexInfo| x@) =~= before.map_values(|x: IndexInfo| x@).push(copy@));
            }
            k += 1;
        }
        let r = Catalog { tables, indexes };
        assert(self.tables().take(i as int) =~= self.tables());
        assert(self.indexes().take(k as int) =~= self.indexes());
        r
    }
}

impl Catalog {
    /// The metadata of every table, by OID.
    pub fn get_tables_info(&self) -> (r: Vec<&TableInfo>)
        ensures
            r@.map_values(|t: &TableInfo| t@) == self.tables(),
    {
        let mut r: Vec<&TableInfo> = Vec::new();
        let mut i: usize = 0;
        while i < self.tables.len()
            invariant
                0 <= i <= self.tables@.len(),
                r@.map_values(|t: &TableInfo| t@) == self.tables().take(i as int),
            decreases self.tables@.len() - i,
        {
            let ghost before = r@;
            r.push(&self.tables[i]);
            assert(r@.map_values(|t: &TableInfo| t@) =~= self.tables().take(i + 1)) by {
                assert(before.map_values(|t: &TableInfo| t@) =~= self.tables().take(i as int));
                assert(r@.map_values(|t: &TableInfo| t@) =~= before.map_values(|t: &TableInfo| t@).push(self.tables@[i as int]@));
            }
            i += 1;
        }
        assert(self.tables().take(i as int) =~= self.tables());
        r
    }
}

impl Catalog {
    /// The number of tables.
    pub fn table_count(&self) -> (r: usize)
        ensures
            r == self.tables().len(),
    {
        self.tables.len()
    }

    /// The number of indexes.
    pub fn index_count(&self) -> (r: usize)
        ensures
            r == self.indexes().len(),
    {
        self.indexes.len()
    }
}

/// A table that `create_table` made is the one `get_table_by_name` finds
/// under its name afterwards, with the schema and the OID it was given:
/// `before` had no table `name`, creation appended it as `before`'s next
/// OID, and `found` is a table of `after` named `name`.
pub proof fn law_created_table_is_found(
    before: Catalog,
    after: Catalog,
    name: Seq<char>,
    schema: SchemaView,
    found: TableView,
)
    requires
        after.wf(),
        !before.has_table(name),
        after.tables() == before.tables().push(TableView { schema, name, oid: before.tables().len() as TableOid }),
        found.name == name,
        found.oid < after.tables().len(),
        after.tables()[found.oid as int] == found,
    ensures
        found == (TableView { schema, name, oid: before.tables().len() as TableOid }),
{
    let last = before.tables().len() as int;
    assert(after.tables()[last].name == name);
    if found.oid < last {
        assert(after.tables()[found.oid as int] == before.tables()[found.oid as int]);
        assert(before.tables()[found.oid as int].name == name);
    }
}

/// OIDs are given in order from 0: the table at position `i` has OID `i`,
/// and so has the index at position `i`.
pub proof fn law_oids_sequential(cat: Catalog)
    requires
        cat.wf(),
    ensures
        forall|i: int| 0 <= i < cat.tables().len() ==> #[trigger] cat.tables()[i].oid == i,
        forall|i: int| 0 <= i < cat.indexes().len() ==> #[trigger] cat.indexes()[i].index_oid == i,
{
}

/// Whether an index is on the table named `t`.
pub open spec fn on_table(t: Seq<char>) -> spec_fn(IndexView) -> bool {
    |x: IndexView| x.table_name == t
}

/// The indexes that a run of steps created, in order: step `i` created
/// `steps[i]` when it is `Some`, and no index otherwise.
pub open spec fn created_indexes(steps: Seq<Option<IndexView>>) -> Seq<IndexView>
    decreases steps.len(),
{
    if steps.len() == 0 {
        Seq::empty()
    } else {
        let before = created_indexes(steps.drop_last());
        match steps.last() {
            Some(x) => before.push(x),
            None => before,
        }
    }
}

/// Over a run of catalog operations from a catalog without indexes, where
/// step `i` either is a successful `create_index`, which adds `steps[i]`
/// (see its `ensures`), or keeps the index list (`create_table`, a refused
/// `create_index`), the catalog's indexes are those created, in order; so
/// `get_table_indexes(t)` returns exactly the indexes created on table `t`,
/// in order of creation, and each once, their OIDs being their positions
/// (`law_oids_sequential`).
pub proof fn law_table_indexes_are_the_created_ones(
    run: Seq<Catalog>,
    steps: Seq<Option<IndexView>>,
    t: Seq<char>,
)
    requires
        run.len() == steps.len() + 1,
        run[0].indexes() == Seq::<IndexView>::empty(),
        forall|i: int|
            0 <= i < steps.len() ==> #[trigger] run[i + 1].indexes() == match steps[i] {
                Some(x) => run[i].indexes().push(x),
                None => run[i].indexes(),
            },
    ensures
        run.last().indexes() == created_indexes(steps),
        run.last().indexes().filter(on_table(t)) == created_indexes(steps).filter(on_table(t)),
    decreases steps.len(),
{
    if steps.len() > 0 {
        let r2 = run.drop_last();
        let s2 = steps.drop_last();
        assert forall|i: int| 0 <= i < s2.len() implies #[trigger] r2[i + 1].indexes() == match s2[i] {
            Some(x) => r2[i].indexes().push(x),
            None => r2[i].indexes(),
        } by {
            assert(r2[i + 1] == run[i + 1] && r2[i] == run[i] && s2[i] == steps[i]);
        }
        law_table_indexes_are_the_created_ones(r2, s2, t);
        let n = steps.len() - 1;
        assert(r2.last() == run[n]);
        assert(run.last() == run[n + 1]);
        assert(run[n + 1].indexes() == match steps[n] {
            Some(x) => run[n].indexes().push(x),
            None => run[n].indexes(),
        });
    }
}

} // verus!
