//! Excel sheet rows: typed cells flattened into a closed tagged union, rows
//! into counted arrays, and the release calls that take them apart again.

use vstd::prelude::*;
use crate::buffer::{c_string_of, c_string_view, ffi_to_c_string, ffi_free_string, no_nul};
use crate::release::sum_of;

verus! {

/// A decoded table cell. A 32-bit float is held as its bit pattern and
/// copied as such; text is held as its bytes.
pub enum Field {
    String(Vec<u8>),
    Bool(bool),
    Int8(i8),
    UInt8(u8),
    Int16(i16),
    UInt16(u16),
    Int32(i32),
    UInt32(u32),
    Float32(u32),
    Int64(i64),
    UInt64(u64),
}

/// One decoded subrow: its id and its cells in column order.
pub struct ExcelSubrow {
    pub subrow_id: u16,
    pub columns: Vec<Field>,
}

/// The shape of a decoded row: one set of cells, or several subrows.
pub enum ExcelRowKind {
    SingleRow(Vec<Field>),
    SubRows(Vec<ExcelSubrow>),
}

/// A decoded row of a sheet.
pub struct ExcelRow {
    pub row_id: u32,
    pub kind: ExcelRowKind,
}

/// The exported cell: one arm per cell kind, in the same order. A text cell
/// holds its null-terminated bytes.
pub enum physis_ColumnData {
    String(Vec<u8>),
    Bool(bool),
    Int8(i8),
    UInt8(u8),
    Int16(i16),
    UInt16(u16),
    Int32(i32),
    UInt32(u32),
    Float32(u32),
    Int64(i64),
    UInt64(u64),
}

/// An exported subrow: its id and exactly one cell per column.
pub struct physis_ExcelRow {
    pub subrow_id: u16,
    pub column_data: Vec<physis_ColumnData>,
}

/// An exported row: its id and its subrows, counted.
pub struct physis_ExcelRows {
    pub row_id: u32,
    pub row_data: Vec<physis_ExcelRow>,
    pub row_count: u32,
}

/// An exported sheet page.
pub struct physis_EXD {
    pub column_count: u32,
    pub row_count: u32,
    pub rows: Vec<physis_ExcelRows>,
}

/// The discriminant of a decoded cell.
pub open spec fn field_tag(f: Field) -> u32 {
    match f {
        Field::String(_) => 0,
        Field::Bool(_) => 1,
        Field::Int8(_) => 2,
        Field::UInt8(_) => 3,
        Field::Int16(_) => 4,
        Field::UInt16(_) => 5,
        Field::Int32(_) => 6,
        Field::UInt32(_) => 7,
        Field::Float32(_) => 8,
        Field::Int64(_) => 9,
        Field::UInt64(_) => 10,
    }
}

/// The discriminant of an exported cell.
pub open spec fn column_tag(c: physis_ColumnData) -> u32 {
    match c {
        physis_ColumnData::String(_) => 0,
        physis_ColumnData::Bool(_) => 1,
        physis_ColumnData::Int8(_) => 2,
        physis_ColumnData::UInt8(_) => 3,
        physis_ColumnData::Int16(_) => 4,
        physis_ColumnData::UInt16(_) => 5,
        physis_ColumnData::Int32(_) => 6,
        physis_ColumnData::UInt32(_) => 7,
        physis_ColumnData::Float32(_) => 8,
        physis_ColumnData::Int64(_) => 9,
        physis_ColumnData::UInt64(_) => 10,
    }
}

/// A cell can be exported: text holds no NUL byte.
pub open spec fn field_converts(f: Field) -> bool {
    match f {
        Field::String(s) => no_nul(s@),
        _ => true,
    }
}

/// The exported cell carries the decoded cell's discriminant and payload.
pub open spec fn column_matches(c: physis_ColumnData, f: Field) -> bool {
    column_tag(c) == field_tag(f) && match (f, c) {
        (Field::String(s), physis_ColumnData::String(t)) => c_string_of(s@) == Some(t@),
        (Field::Bool(a), physis_ColumnData::Bool(b)) => a == b,
        (Field::Int8(a), physis_ColumnData::Int8(b)) => a == b,
        (Field::UInt8(a), physis_ColumnData::UInt8(b)) => a == b,
        (Field::Int16(a), physis_ColumnData::Int16(b)) => a == b,
        (Field::UInt16(a), physis_ColumnData::UInt16(b)) => a == b,
        (Field::Int32(a), physis_ColumnData::Int32(b)) => a == b,
        (Field::UInt32(a), physis_ColumnData::UInt32(b)) => a == b,
        (Field::Float32(a), physis_ColumnData::Float32(b)) => a == b,
        (Field::Int64(a), physis_ColumnData::Int64(b)) => a == b,
        (Field::UInt64(a), physis_ColumnData::UInt64(b)) => a == b,
        _ => false,
    }
}

impl physis_ColumnData {
    /// The discriminant shared by construction and release.
    pub fn discriminant(&self) -> (r: u32)
        ensures
            r == column_tag(*self),
    {
        match self {
            physis_ColumnData::String(_) => 0,
            physis_ColumnData::Bool(_) => 1,
            physis_ColumnData::Int8(_) => 2,
            physis_ColumnData::UInt8(_) => 3,
            physis_ColumnData::Int16(_) => 4,
            physis_ColumnData::UInt16(_) => 5,
            physis_ColumnData::Int32(_) => 6,
            physis_ColumnData::UInt32(_) => 7,
            physis_ColumnData::Float32(_) => 8,
            physis_ColumnData::Int64(_) => 9,
            physis_ColumnData::UInt64(_) => 10,
        }
    }
}

/// Exports one cell; `None` when its text holds a NUL byte.
pub fn to_c_field(f: &Field) -> (r: Option<physis_ColumnData>)
    ensures
        match r {
            None => !field_converts(*f),
            Some(c) => field_converts(*f) && column_matches(c, *f),
        },
{
    match f {
        Field::String(s) => match ffi_to_c_string(s) {
            Some(t) => Some(physis_ColumnData::String(t)),
            None => None,
        },
        Field::Bool(b) => Some(physis_ColumnData::Bool(*b)),
        Field::Int8(i) => Some(physis_ColumnData::Int8(*i)),
        Field::UInt8(i) => Some(physis_ColumnData::UInt8(*i)),
        Field::Int16(i) => Some(physis_ColumnData::Int16(*i)),
        Field::UInt16(i) => Some(physis_ColumnData::UInt16(*i)),
        Field::Int32(i) => Some(physis_ColumnData::Int32(*i)),
        Field::UInt32(i) => Some(physis_ColumnData::UInt32(*i)),
        Field::Float32(i) => Some(physis_ColumnData::Float32(*i)),
        Field::Int64(i) => Some(physis_ColumnData::Int64(*i)),
        Field::UInt64(i) => Some(physis_ColumnData::UInt64(*i)),
    }
}

/// Every cell of a row can be exported.
pub open spec fn cells_convert(cells: Seq<Field>) -> bool {
    forall|j: int| 0 <= j < cells.len() ==> field_converts(#[trigger] cells[j])
}

/// The exported cells carry the decoded ones, one for one.
pub open spec fn cells_match(cs: Seq<physis_ColumnData>, cells: Seq<Field>) -> bool {
    &&& cs.len() == cells.len()
    &&& forall|j: int| 0 <= j < cells.len() ==> column_matches(#[trigger] cs[j], cells[j])
}

/// Exports a subrow; `None`, with nothing half-built, when any cell fails.
pub fn to_c_row(subrow_id: u16, cells: &Vec<Field>) -> (r: Option<physis_ExcelRow>)
    ensures
        match r {
            None => !cells_convert(cells@),
            Some(row) => cells_convert(cells@) && row.subrow_id == subrow_id
                && cells_match(row.column_data@, cells@),
        },
{
    let mut out: Vec<physis_ColumnData> = Vec::new();
    let mut j: usize = 0;
    while j < cells.len()
        invariant
            j <= cells@.len(),
            cells_match(out@, cells@.subrange(0, j as int)),
            cells_convert(cells@.subrange(0, j as int)),
        decreases cells@.len() - j,
    {
        match to_c_field(&cells[j]) {
            Some(c) => {
                out.push(c);
            },
            None => {
                assert(!field_converts(cells@[j as int]));
                return None;
            },
        }
        j = j + 1;
        assert(cells@.subrange(0, j as int).drop_last() =~= cells@.subrange(0, j - 1));
    }
    assert(cells@.subrange(0, j as int) =~= cells@);
    Some(physis_ExcelRow { subrow_id, column_data: out })
}

/// The subrows a decoded row exports as: a single row is subrow 0.
pub open spec fn subrows_of(kind: ExcelRowKind) -> Seq<(u16, Seq<Field>)> {
    match kind {
        ExcelRowKind::SingleRow(cells) => seq![(0u16, cells@)],
        ExcelRowKind::SubRows(rows) => rows@.map_values(|s: ExcelSubrow| (s.subrow_id, s.columns@)),
    }
}

/// Every subrow of the row has `column_count` cells, all exportable.
pub open spec fn row_converts(column_count: u32, row: ExcelRow) -> bool {
    forall|k: int| 0 <= k < subrows_of(row.kind).len() ==> {
        &&& (#[trigger] subrows_of(row.kind)[k]).1.len() == column_count
        &&& cells_convert(subrows_of(row.kind)[k].1)
    }
}

/// The exported row carries the decoded row: id, count and every subrow.
pub open spec fn row_matches(e: physis_ExcelRows, row: ExcelRow) -> bool {
    let subs = subrows_of(row.kind);
    &&& e.row_id == row.row_id
    &&& e.row_count as int == e.row_data@.len()
    &&& e.row_data@.len() == subs.len()
    &&& forall|k: int| 0 <= k < subs.len() ==> {
        &&& (#[trigger] e.row_data@[k]).subrow_id == subs[k].0
        &&& cells_match(e.row_data@[k].column_data@, subs[k].1)
    }
}

/// A row's subrow count fits the exported count.
pub open spec fn row_fits(row: ExcelRow) -> bool {
    subrows_of(row.kind).len() <= u32::MAX
}

/// Exports one decoded row; `None` when a subrow is not `column_count`
/// cells wide or a cell fails.
pub fn to_c_entry(column_count: u32, row: &ExcelRow) -> (r: Option<physis_ExcelRows>)
    requires
        row_fits(*row),
    ensures
        match r {
            None => !row_converts(column_count, *row),
            Some(e) => row_converts(column_count, *row) && row_matches(e, *row),
        },
{
    let ghost subs = subrows_of(row.kind);
    let mut out: Vec<physis_ExcelRow> = Vec::new();
    match &row.kind {
        ExcelRowKind::SingleRow(cells) => {
            assert(subs.len() == 1 && subs[0] == (0u16, cells@));
            if cells.len() != column_count as usize {
                assert(subrows_of(row.kind)[0].1.len() != column_count);
                return None;
            }
            match to_c_row(0u16, cells) {
                Some(r) => {
                    out.push(r);
                    assert(out@[0] == r);
                },
                None => {
                    assert(!cells_convert(subrows_of(row.kind)[0].1));
                    return None;
                },
            }
        },
        ExcelRowKind::SubRows(rows) => {
            let mut k: usize = 0;
            while k < rows.len()
                invariant
                    subs == subrows_of(row.kind),
                    subs == rows@.map_values(|s: ExcelSubrow| (s.subrow_id, s.columns@)),
                    k <= rows@.len(),
                    out@.len() == k,
                    forall|m: int| 0 <= m < k ==> {
                        &&& (#[trigger] out@[m]).subrow_id == subs[m].0
                        &&& cells_match(out@[m].column_data@, subs[m].1)
                        &&& subs[m].1.len() == column_count
                        &&& cells_convert(subs[m].1)
                    },
                decreases rows@.len() - k,
            {
                let sub = &rows[k];
                assert(subs[k as int] == (sub.subrow_id, sub.columns@));
                if sub.columns.len() != column_count as usize {
                    assert(subrows_of(row.kind)[k as int].1.len() != column_count);
                    return None;
                }
                match to_c_row(sub.subrow_id, &sub.columns) {
                    Some(r) => {
                        out.push(r);
                        assert(out@[k as int] == r);
                    },
                    None => {
                        assert(!cells_convert(subrows_of(row.kind)[k as int].1));
                        return None;
                    },
                }
                k = k + 1;
            }
            assert(subs.len() == rows@.len());
        },
    }
    assert(out@.len() == subs.len());
    assert forall|m: int| 0 <= m < subs.len() implies {
        &&& (#[trigger] out@[m]).subrow_id == subs[m].0
        &&& cells_match(out@[m].column_data@, subs[m].1)
        &&& subs[m].1.len() == column_count
        &&& cells_convert(subs[m].1)
    } by {
    }
    assert forall|m: int| 0 <= m < subrows_of(row.kind).len() implies {
        &&& (#[trigger] subrows_of(row.kind)[m]).1.len() == column_count
        &&& cells_convert(subrows_of(row.kind)[m].1)
    } by {
        assert(out@[m].subrow_id == subs[m].0);
    }
    let count = out.len() as u32;
    Some(physis_ExcelRows { row_id: row.row_id, row_data: out, row_count: count })
}

/// A decoded row exports, as `e`.
pub open spec fn entry_exports(column_count: u32, e: physis_ExcelRows, row: ExcelRow) -> bool {
    row_converts(column_count, row) && row_matches(e, row)
}

/// Every row of the sheet exports at `column_count` columns.
pub open spec fn sheet_converts(column_count: u32, rows: Seq<ExcelRow>) -> bool {
    forall|i: int| 0 <= i < rows.len() ==> row_converts(column_count, #[trigger] rows[i])
}

/// The sheet's counts fit the exported counts.
pub open spec fn sheet_fits(rows: Seq<ExcelRow>) -> bool {
    &&& rows.len() <= u32::MAX
    &&& forall|i: int| 0 <= i < rows.len() ==> row_fits(#[trigger] rows[i])
}

/// The exported page carries the decoded rows, in order.
pub open spec fn sheet_matches(e: physis_EXD, column_count: u32, rows: Seq<ExcelRow>) -> bool {
    &&& e.column_count == column_count
    &&& e.row_count as int == rows.len()
    &&& e.rows@.len() == rows.len()
    &&& forall|i: int| 0 <= i < rows.len() ==> row_matches(#[trigger] e.rows@[i], rows[i])
}

/// The sentinel page: no columns, no rows.
pub open spec fn is_empty_sheet(e: physis_EXD) -> bool {
    e.column_count == 0 && e.row_count == 0 && e.rows@.len() == 0
}

/// An exported subrow has one cell per column.
pub open spec fn subrow_wf(r: physis_ExcelRow, column_count: u32) -> bool {
    r.column_data@.len() == column_count
}

/// An exported row's count agrees with its subrows, each `column_count` wide.
pub open spec fn rows_wf(e: physis_ExcelRows, column_count: u32) -> bool {
    &&& e.row_count as int == e.row_data@.len()
    &&& forall|k: int| 0 <= k < e.row_data@.len() ==> subrow_wf(#[trigger] e.row_data@[k], column_count)
}

impl physis_EXD {
    /// Counts agree with the arrays held, at every level.
    pub open spec fn wf(&self) -> bool {
        &&& self.row_count as int == self.rows@.len()
        &&& forall|i: int| 0 <= i < self.rows@.len() ==> rows_wf(#[trigger] self.rows@[i], self.column_count)
    }

    /// The sentinel page.
    pub fn empty() -> (r: physis_EXD)
        ensures
            is_empty_sheet(r),
            r.wf(),
    {
        physis_EXD { column_count: 0, row_count: 0, rows: Vec::new() }
    }
}

impl Default for physis_EXD {
    fn default() -> (r: physis_EXD)
        ensures
            is_empty_sheet(r),
    {
        physis_EXD::empty()
    }
}

/// Whether every count of a sheet fits the exported counts.
pub fn check_sheet_fits(rows: &Vec<ExcelRow>) -> (r: bool)
    ensures
        r == sheet_fits(rows@),
{
    if rows.len() > u32::MAX as usize {
        return false;
    }
    let mut i: usize = 0;
    while i < rows.len()
        invariant
            rows@.len() <= u32::MAX,
            i <= rows@.len(),
            forall|m: int| 0 <= m < i ==> row_fits(#[trigger] rows@[m]),
        decreases rows@.len() - i,
    {
        match &rows[i].kind {
            ExcelRowKind::SingleRow(_) => {},
            ExcelRowKind::SubRows(subs) => {
                assert(subrows_of(rows@[i as int].kind).len() == subs@.len());
                if subs.len() > u32::MAX as usize {
                    return false;
                }
            },
        }
        i = i + 1;
    }
    true
}

/// Exports a decoded sheet page whose rows are `column_count` cells wide.
/// If any row fails to export, the whole page is the empty sentinel.
pub fn flatten_excel_sheet(column_count: u32, rows: &Vec<ExcelRow>) -> (r: physis_EXD)
    requires
        sheet_fits(rows@),
    ensures
        r.wf(),
        sheet_converts(column_count, rows@) ==> sheet_matches(r, column_count, rows@),
        !sheet_converts(column_count, rows@) ==> is_empty_sheet(r),
{
    let mut out: Vec<physis_ExcelRows> = Vec::new();
    let mut i: usize = 0;
    while i < rows.len()
        invariant
            sheet_fits(rows@),
            i <= rows@.len(),
            out@.len() == i,
            forall|m: int| 0 <= m < i ==> entry_exports(column_count, #[trigger] out@[m], rows@[m]),
        decreases rows@.len() - i,
    {
        assert(row_fits(rows@[i as int]));
        let ghost prev = out@;
        match to_c_entry(column_count, &rows[i]) {
            Some(e) => {
                out.push(e);
                assert(out@[i as int] == e);
                assert(entry_exports(column_count, out@[i as int], rows@[i as int]));
            },
            None => {
                assert(!row_converts(column_count, rows@[i as int]));
                return physis_EXD::empty();
            },
        }
        assert forall|m: int| 0 <= m < i + 1 implies entry_exports(column_count, #[trigger] out@[m], rows@[m]) by {
            if m < i {
                assert(out@[m] == prev[m]);
            }
        }
        i = i + 1;
    }
    assert forall|m: int| 0 <= m < rows@.len() implies row_converts(column_count, #[trigger] rows@[m]) by {
        assert(entry_exports(column_count, out@[m], rows@[m]));
    }
    assert forall|m: int| 0 <= m < rows@.len() implies row_matches(#[trigger] out@[m], rows@[m]) by {
        assert(entry_exports(column_count, out@[m], rows@[m]));
    }
    let r = physis_EXD { column_count, row_count: out.len() as u32, rows: out };
    assert forall|m: int| 0 <= m < r.rows@.len() implies rows_wf(#[trigger] r.rows@[m], column_count) by {
        let subs = subrows_of(rows@[m].kind);
        assert(row_matches(r.rows@[m], rows@[m]));
        assert forall|k: int| 0 <= k < r.rows@[m].row_data@.len() implies
            subrow_wf(#[trigger] r.rows@[m].row_data@[k], column_count) by {
            assert(subs[k].1.len() == column_count);
        }
    }
    r
}

/// Finds the exported row with id `row_id`: its position in `exd.rows`.
pub fn physis_exd_get_row(exd: &physis_EXD, row_id: u32) -> (r: Option<usize>)
    ensures
        match r {
            Some(i) => i < exd.rows@.len() && exd.rows@[i as int].row_id == row_id
                && forall|j: int| 0 <= j < i ==> (#[trigger] exd.rows@[j]).row_id != row_id,
            None => forall|j: int| 0 <= j < exd.rows@.len() ==> (#[trigger] exd.rows@[j]).row_id != row_id,
        },
{
    let mut i: usize = 0;
    while i < exd.rows.len()
        invariant
            i <= exd.rows@.len(),
            forall|j: int| 0 <= j < i ==> (#[trigger] exd.rows@[j]).row_id != row_id,
        decreases exd.rows@.len() - i,
    {
        if exd.rows[i].row_id == row_id {
            return Some(i);
        }
        i = i + 1;
    }
    None
}

/// What releasing an exported cell destroys: the cell, and its string.
pub open spec fn column_cost(c: physis_ColumnData) -> nat {
    match c {
        physis_ColumnData::String(_) => 2,
        _ => 1,
    }
}

/// What releasing an exported subrow destroys.
pub open spec fn subrow_cost(r: physis_ExcelRow) -> nat {
    sum_of(r.column_data@.map_values(|c: physis_ColumnData| column_cost(c)))
}

/// What releasing an exported row destroys: the row and its subrows'
/// cells. The empty row record holds nothing to destroy.
pub open spec fn rows_cost(e: physis_ExcelRows) -> nat {
    if e.row_data@.len() == 0 {
        0
    } else {
        1 + sum_of(e.row_data@.map_values(|r: physis_ExcelRow| subrow_cost(r)))
    }
}

/// What releasing an exported page destroys.
pub open spec fn exd_cost(x: physis_EXD) -> nat {
    sum_of(x.rows@.map_values(|e: physis_ExcelRows| rows_cost(e)))
}

/// What dropping a decoded cell destroys: the cell, and its string.
pub open spec fn field_cost(f: Field) -> nat {
    match f {
        Field::String(_) => 2,
        _ => 1,
    }
}

/// What dropping a decoded set of cells destroys.
pub open spec fn cells_cost(cells: Seq<Field>) -> nat {
    sum_of(cells.map_values(|f: Field| field_cost(f)))
}

/// What dropping a decoded row destroys: the row and all its cells; a row
/// without subrows counts as nothing, as its export does.
pub open spec fn row_cost(row: ExcelRow) -> nat {
    if subrows_of(row.kind).len() == 0 {
        0
    } else {
        1 + sum_of(subrows_of(row.kind).map_values(|p: (u16, Seq<Field>)| cells_cost(p.1)))
    }
}

/// What dropping a decoded page destroys.
pub open spec fn sheet_cost(rows: Seq<ExcelRow>) -> nat {
    sum_of(rows.map_values(|r: ExcelRow| row_cost(r)))
}

fn release_columns(cells: Vec<physis_ColumnData>) -> (released: usize)
    requires
        sum_of(cells@.map_values(|c: physis_ColumnData| column_cost(c))) <= usize::MAX,
    ensures
        released == sum_of(cells@.map_values(|c: physis_ColumnData| column_cost(c))),
{
    let ghost total = sum_of(cells@.map_values(|c: physis_ColumnData| column_cost(c)));
    let mut cells = cells;
    let mut released: usize = 0;
    while cells.len() > 0
        invariant
            total <= usize::MAX,
            released + sum_of(cells@.map_values(|c: physis_ColumnData| column_cost(c))) == total,
        decreases cells@.len(),
    {
        let ghost before = cells@;
        let c = cells.pop().unwrap();
        assert(before.map_values(|c: physis_ColumnData| column_cost(c)).drop_last()
            =~= cells@.map_values(|c: physis_ColumnData| column_cost(c)));
        let n: usize = match c {
            physis_ColumnData::String(s) => 1 + ffi_free_string(Some(s)),
            _ => 1,
        };
        released = released + n;
    }
    released
}

fn release_subrows(rows: Vec<physis_ExcelRow>) -> (released: usize)
    requires
        sum_of(rows@.map_values(|r: physis_ExcelRow| subrow_cost(r))) <= usize::MAX,
    ensures
        released == sum_of(rows@.map_values(|r: physis_ExcelRow| subrow_cost(r))),
{
    let ghost total = sum_of(rows@.map_values(|r: physis_ExcelRow| subrow_cost(r)));
    let mut rows = rows;
    let mut released: usize = 0;
    while rows.len() > 0
        invariant
            total <= usize::MAX,
            released + sum_of(rows@.map_values(|r: physis_ExcelRow| subrow_cost(r))) == total,
        decreases rows@.len(),
    {
        let ghost before = rows@;
        let r = rows.pop().unwrap();
        assert(before.map_values(|r: physis_ExcelRow| subrow_cost(r)).drop_last()
            =~= rows@.map_values(|r: physis_ExcelRow| subrow_cost(r)));
        let n = release_columns(r.column_data);
        released = released + n;
    }
    released
}

/// Releases one exported row and everything it holds, returning how many
/// elements were destroyed. The row must be `exd.column_count` cells wide,
/// as it was built. Releasing the empty row record is a no-op.
pub fn physis_exd_free_rows(exd: &physis_EXD, rows: physis_ExcelRows) -> (released: usize)
    requires
        rows_wf(rows, exd.column_count),
        rows_cost(rows) <= usize::MAX,
    ensures
        released == rows_cost(rows),
        rows.row_data@.len() == 0 ==> released == 0,
{
    if rows.row_data.len() == 0 {
        0
    } else {
        1 + release_subrows(rows.row_data)
    }
}

/// Releases an exported page and everything it holds, returning how many
/// elements were destroyed. The sentinel page releases nothing.
pub fn physis_gamedata_free_sheet(exd: physis_EXD) -> (released: usize)
    requires
        exd.wf(),
        exd_cost(exd) <= usize::MAX,
    ensures
        released == exd_cost(exd),
{
    let ghost total = exd_cost(exd);
    let mut rows = exd.rows;
    let mut released: usize = 0;
    while rows.len() > 0
        invariant
            total <= usize::MAX,
            released + sum_of(rows@.map_values(|e: physis_ExcelRows| rows_cost(e))) == total,
        decreases rows@.len(),
    {
        let ghost before = rows@;
        let e = rows.pop().unwrap();
        assert(before.map_values(|e: physis_ExcelRows| rows_cost(e)).drop_last()
            =~= rows@.map_values(|e: physis_ExcelRows| rows_cost(e)));
        let n = if e.row_data.len() == 0 {
            0
        } else {
            1 + release_subrows(e.row_data)
        };
        released = released + n;
    }
    released
}

proof fn lemma_cells_cost(cs: Seq<physis_ColumnData>, cells: Seq<Field>)
    requires
        cells_match(cs, cells),
    ensures
        sum_of(cs.map_values(|c: physis_ColumnData| column_cost(c))) == cells_cost(cells),
{
    assert forall|j: int| 0 <= j < cells.len() implies column_cost(#[trigger] cs[j]) == field_cost(cells[j]) by {
        assert(column_matches(cs[j], cells[j]));
    }
    assert(cs.map_values(|c: physis_ColumnData| column_cost(c)) =~= cells.map_values(|f: Field| field_cost(f)));
}

/// Releasing a row exported from a decoded row destroys exactly as many
/// elements as dropping the decoded row would; both are nothing for a row
/// without subrows.
pub proof fn lemma_row_release_matches_drop(column_count: u32, row: ExcelRow, e: physis_ExcelRows)
    requires
        row_converts(column_count, row),
        row_matches(e, row),
    ensures
        rows_cost(e) == row_cost(row),
{
    lemma_row_cost(e, row);
}

proof fn lemma_row_cost(e: physis_ExcelRows, row: ExcelRow)
    requires
        row_matches(e, row),
    ensures
        rows_cost(e) == row_cost(row),
{
    let subs = subrows_of(row.kind);
    assert forall|k: int| 0 <= k < subs.len() implies subrow_cost(#[trigger] e.row_data@[k]) == cells_cost(subs[k].1) by {
        lemma_cells_cost(e.row_data@[k].column_data@, subs[k].1);
    }
    assert(e.row_data@.map_values(|r: physis_ExcelRow| subrow_cost(r))
        =~= subs.map_values(|p: (u16, Seq<Field>)| cells_cost(p.1)));
}

/// Releasing a page exported from decoded rows destroys exactly as many
/// elements as dropping those rows would: nothing leaks, nothing is
/// destroyed twice.
pub proof fn lemma_sheet_release_matches_drop(column_count: u32, rows: Seq<ExcelRow>, e: physis_EXD)
    requires
        sheet_converts(column_count, rows),
        sheet_matches(e, column_count, rows),
    ensures
        exd_cost(e) == sheet_cost(rows),
{
    assert forall|i: int| 0 <= i < rows.len() implies rows_cost(#[trigger] e.rows@[i]) == row_cost(rows[i]) by {
        lemma_row_cost(e.rows@[i], rows[i]);
    }
    assert(e.rows@.map_values(|x: physis_ExcelRows| rows_cost(x)) =~= rows.map_values(|r: ExcelRow| row_cost(r)));
}

/// The sentinel page is a valid input to its release call, which destroys
/// nothing.
pub proof fn lemma_empty_sheet_release(e: physis_EXD)
    requires
        is_empty_sheet(e),
    ensures
        e.wf(),
        exd_cost(e) == 0,
{
    assert(e.rows@.map_values(|x: physis_ExcelRows| rows_cost(x)) =~= Seq::<nat>::empty());
}

} // verus!
