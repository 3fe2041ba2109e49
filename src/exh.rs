//! Excel sheet headers: pages, languages and column layout, each exported
//! as a counted array.

use vstd::prelude::*;
use crate::buffer::{copy_vec, physis_Buffer};
use crate::common::{GamePlatform, to_physis_platform};

verus! {

/// An exported page of a sheet: the first row id and how many rows follow.
#[derive(Clone, Copy, PartialEq, Eq, Structural, Debug)]
pub struct physis_ExcelPage {
    pub start_id: u32,
    pub row_count: u32,
}

/// An exported column: its data type code and its byte offset in a row.
#[derive(Clone, Copy, PartialEq, Eq, Structural, Debug)]
pub struct physis_ColumnDefinition {
    pub data_type: u16,
    pub offset: u16,
}

/// An exported sheet header.
pub struct physis_EXH {
    pub page_count: u32,
    pub pages: Vec<physis_ExcelPage>,
    pub language_count: u32,
    pub languages: Vec<u8>,
    pub column_count: u32,
    pub row_count: u32,
    pub column_definitions: Vec<physis_ColumnDefinition>,
}

/// A decoded sheet header: its row count, its pages as (first row id,
/// row count), its columns as (type code, offset), and its language codes.
pub struct SheetHeader {
    pub row_count: u32,
    pub pages: Vec<(u32, u32)>,
    pub columns: Vec<(u16, u16)>,
    pub languages: Vec<u8>,
}

/// What decoding a sheet header yields, as a tuple of the fields of
/// `SheetHeader`; `None` for bytes that are not one.
pub uninterp spec fn decoded_sheet_header(platform: GamePlatform, data: Seq<u8>) -> Option<
    (u32, Seq<(u32, u32)>, Seq<(u16, u16)>, Seq<u8>),
>;

impl SheetHeader {
    /// What the header holds.
    pub open spec fn view_tuple(&self) -> (u32, Seq<(u32, u32)>, Seq<(u16, u16)>, Seq<u8>) {
        (self.row_count, self.pages@, self.columns@, self.languages@)
    }
}

/// Relies on physis::exh::EXH::from_existing, whose result depends on the
/// platform and the bytes alone; each column type is handed over as its
/// 16-bit code and each language as its index.
#[verifier::external_body]
fn read_sheet_header(platform: GamePlatform, data: &[u8]) -> (r: Option<SheetHeader>)
    ensures
        match r {
            None => decoded_sheet_header(platform, data@) is None,
            Some(h) => decoded_sheet_header(platform, data@) == Some(h.view_tuple()),
        },
{
    let exh = <physis::exh::EXH as physis::ReadableFile>::from_existing(to_physis_platform(platform), data)?;
    Some(SheetHeader {
        row_count: exh.header.row_count,
        pages: exh.pages.iter().map(|p| (p.start_id, p.row_count)).collect(),
        columns: exh.column_definitions.iter().map(|c| (c.data_type as u16, c.offset)).collect(),
        languages: exh.languages.iter().map(|l| *l as u8).collect(),
    })
}

/// The exported header carries the decoded one.
pub open spec fn header_matches(e: physis_EXH, h: (u32, Seq<(u32, u32)>, Seq<(u16, u16)>, Seq<u8>)) -> bool {
    &&& e.row_count == h.0
    &&& e.page_count as int == h.1.len()
    &&& e.pages@.len() == h.1.len()
    &&& forall|i: int| 0 <= i < h.1.len() ==> (#[trigger] e.pages@[i]).start_id == h.1[i].0
        && e.pages@[i].row_count == h.1[i].1
    &&& e.column_count as int == h.2.len()
    &&& e.column_definitions@.len() == h.2.len()
    &&& forall|i: int| 0 <= i < h.2.len() ==> (#[trigger] e.column_definitions@[i]).data_type == h.2[i].0
        && e.column_definitions@[i].offset == h.2[i].1
    &&& e.language_count as int == h.3.len()
    &&& e.languages@ == h.3
}

/// The header's counts fit the exported counts.
pub open spec fn header_fits(h: (u32, Seq<(u32, u32)>, Seq<(u16, u16)>, Seq<u8>)) -> bool {
    h.1.len() <= u32::MAX && h.2.len() <= u32::MAX && h.3.len() <= u32::MAX
}

/// Exports a decoded sheet header.
pub fn to_c_exh(h: &SheetHeader) -> (r: physis_EXH)
    requires
        header_fits(h.view_tuple()),
    ensures
        header_matches(r, h.view_tuple()),
{
    let mut pages: Vec<physis_ExcelPage> = Vec::new();
    let mut i: usize = 0;
    while i < h.pages.len()
        invariant
            i <= h.pages@.len(),
            pages@.len() == i,
            forall|m: int| 0 <= m < i ==> (#[trigger] pages@[m]).start_id == h.pages@[m].0
                && pages@[m].row_count == h.pages@[m].1,
        decreases h.pages@.len() - i,
    {
        let (start_id, row_count) = h.pages[i];
        pages.push(physis_ExcelPage { start_id, row_count });
        i = i + 1;
    }
    let mut columns: Vec<physis_ColumnDefinition> = Vec::new();
    let mut j: usize = 0;
    while j < h.columns.len()
        invariant
            j <= h.columns@.len(),
            columns@.len() == j,
            forall|m: int| 0 <= m < j ==> (#[trigger] columns@[m]).data_type == h.columns@[m].0
                && columns@[m].offset == h.columns@[m].1,
        decreases h.columns@.len() - j,
    {
        let (data_type, offset) = h.columns[j];
        columns.push(physis_ColumnDefinition { data_type, offset });
        j = j + 1;
    }
    let languages = copy_vec(&h.languages);
    physis_EXH {
        page_count: pages.len() as u32,
        pages,
        language_count: languages.len() as u32,
        languages,
        column_count: columns.len() as u32,
        row_count: h.row_count,
        column_definitions: columns,
    }
}

/// Decodes a sheet header and exports it; `None` when the bytes do not
/// decode or a count does not fit 32 bits.
pub fn physis_parse_excel_sheet_header(platform: GamePlatform, buffer: &physis_Buffer) -> (r: Option<physis_EXH>)
    requires
        buffer.wf(),
    ensures
        match decoded_sheet_header(platform, buffer.data@) {
            None => r is None,
            Some(h) => if header_fits(h) {
                r is Some && header_matches(r->0, h)
            } else {
                r is None
            },
        },
{
    match read_sheet_header(platform, buffer.as_slice()) {
        None => None,
        Some(h) => {
            if h.pages.len() > u32::MAX as usize || h.columns.len() > u32::MAX as usize
                || h.languages.len() > u32::MAX as usize {
                return None;
            }
            Some(to_c_exh(&h))
        },
    }
}

/// Releases an exported sheet header, returning how many elements were
/// destroyed: every page, language and column.
pub fn physis_sheet_header_free(exh: physis_EXH) -> (released: usize)
    requires
        exh.pages@.len() + exh.languages@.len() + exh.column_definitions@.len() <= usize::MAX,
    ensures
        released == exh.pages@.len() + exh.languages@.len() + exh.column_definitions@.len(),
{
    exh.pages.len() + exh.languages.len() + exh.column_definitions.len()
}

} // verus!
