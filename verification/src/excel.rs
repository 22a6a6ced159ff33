//! Where a spreadsheet builder writes next: the cursor that moves down the
//! sheet as titles, tables and rows are added, and the ranges that they
//! take.

use vstd::prelude::*;

verus! {

/// A rectangle of cells, from its first to its last row and column.
#[derive(Debug, Clone, Copy, PartialEq, Eq, Structural)]
pub struct CellRange {
    pub first_row: u32,
    pub first_col: u16,
    pub last_row: u32,
    pub last_col: u16,
}

/// The cell at which the builder writes next.
#[derive(Debug, Clone, Copy, PartialEq, Eq, Structural)]
pub struct SheetCursor {
    pub row: u32,
    pub col: u16,
}

/// Where a table goes: its header row, the range that its filter covers, and
/// the row at which the builder goes on after it.
#[derive(Debug, Clone, Copy, PartialEq, Eq, Structural)]
pub struct TableLayout {
    pub header_row: u32,
    pub first_data_row: u32,
    /// The header row and every data row, over all columns.
    pub filter: CellRange,
    /// One empty row is left below the table.
    pub next_row: u32,
}

impl SheetCursor {
    /// The cursor at the top left cell.
    pub fn new() -> (cursor: SheetCursor)
        ensures
            cursor == (SheetCursor { row: 0, col: 0 }),
    {
        SheetCursor { row: 0, col: 0 }
    }

    /// Moves the cursor to a cell.
    pub fn move_to(&mut self, row: u32, col: u16)
        ensures
            *final(self) == (SheetCursor { row, col }),
    {
        self.row = row;
        self.col = col;
    }

    /// Moves the cursor down by `rows`, and says whether the sheet is that
    /// long; if it is not, the cursor stays.
    pub fn skip_rows(&mut self, rows: u32) -> (moved: bool)
        ensures
            moved == (old(self).row + rows <= u32::MAX),
            final(self).col == old(self).col,
            final(self).row == if moved {
                (old(self).row + rows) as u32
            } else {
                old(self).row
            },
    {
        match self.row.checked_add(rows) {
            Some(row) => {
                self.row = row;
                true
            },
            None => false,
        }
    }

    /// The cells that a title merged over `columns` columns takes: the row
    /// of the cursor, from its column on. `None` where the title has no
    /// column or the sheet is not that wide.
    pub fn title_range(&self, columns: u16) -> (range: Option<CellRange>)
        ensures
            range == if columns >= 1 && self.col + columns - 1 <= u16::MAX {
                Some(
                    CellRange {
                        first_row: self.row,
                        first_col: self.col,
                        last_row: self.row,
                        last_col: (self.col + columns - 1) as u16,
                    },
                )
            } else {
                None
            },
    {
        if columns == 0 {
            return None;
        }
        match self.col.checked_add(columns - 1) {
            Some(last_col) => Some(
                CellRange {
                    first_row: self.row,
                    first_col: self.col,
                    last_row: self.row,
                    last_col,
                },
            ),
            None => None,
        }
    }

    /// Where a table of `rows` data rows and `columns` columns goes when it
    /// is written at the cursor's row. `None` where the table has no column,
    /// or the sheet is not long or wide enough for it.
    pub fn table_layout(&self, rows: usize, columns: usize) -> (layout: Option<TableLayout>)
        ensures
            layout == if columns >= 1 && columns - 1 <= u16::MAX && self.row + rows + 2
                <= u32::MAX {
                Some(
                    TableLayout {
                        header_row: self.row,
                        first_data_row: (self.row + 1) as u32,
                        filter: CellRange {
                            first_row: self.row,
                            first_col: 0,
                            last_row: (self.row + rows) as u32,
                            last_col: (columns - 1) as u16,
                        },
                        next_row: (self.row + rows + 2) as u32,
                    },
                )
            } else {
                None
            },
    {
        if columns == 0 || columns - 1 > u16::MAX as usize {
            return None;
        }
        if rows > u32::MAX as usize {
            return None;
        }
        let end: u64 = self.row as u64 + rows as u64 + 2;
        if end > u32::MAX as u64 {
            return None;
        }
        Some(
            TableLayout {
                header_row: self.row,
                first_data_row: self.row + 1,
                filter: CellRange {
                    first_row: self.row,
                    first_col: 0,
                    last_row: (end - 2) as u32,
                    last_col: (columns - 1) as u16,
                },
                next_row: end as u32,
            },
        )
    }
}

} // verus!
