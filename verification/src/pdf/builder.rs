//! A builder that collects the sections of a markup document.

use vstd::prelude::*;
use crate::base::data::{ColumnAlign, TableData};
use crate::text::{decimal_nat, push_decimal_u64, push_text, text_of};

verus! {

/// The parts joined into one text, with `sep` between each two.
pub open spec fn joined(parts: Seq<Seq<char>>, sep: Seq<char>) -> Seq<char>
    decreases parts.len(),
{
    if parts.len() == 0 {
        Seq::empty()
    } else if parts.len() == 1 {
        parts[0]
    } else {
        joined(parts.drop_last(), sep) + sep + parts.last()
    }
}

/// The character `c`, `count` times.
pub open spec fn repeated(c: char, count: nat) -> Seq<char> {
    Seq::new(count, |i: int| c)
}

/// The texts of a list of strings.
pub open spec fn texts_of(strings: Seq<String>) -> Seq<Seq<char>> {
    Seq::new(strings.len(), |i: int| strings[i]@)
}

/// Joins `parts` into one text, with `sep` between each two.
pub fn join(parts: &Vec<String>, sep: &str) -> (text: String)
    ensures
        text@ == joined(texts_of(parts@), sep@),
{
    let mut out = String::new();
    let mut i: usize = 0;
    while i < parts.len()
        invariant
            0 <= i <= parts.len(),
            out@ == joined(texts_of(parts@).subrange(0, i as int), sep@),
        decreases parts.len() - i,
    {
        let ghost done = texts_of(parts@).subrange(0, i as int);
        let ghost next = texts_of(parts@).subrange(0, i + 1);
        proof {
            assert(next.drop_last() =~= done);
            assert(next.last() == parts@[i as int]@);
        }
        if i > 0 {
            push_text(&mut out, sep);
        }
        push_text(&mut out, parts[i].as_str());
        i = i + 1;
        assert(out@ =~= joined(next, sep@));
    }
    assert(texts_of(parts@).subrange(0, i as int) =~= texts_of(parts@));
    out
}

/// A heading: one equals sign for each level, a space and the title.
pub open spec fn title_text(title: Seq<char>, level: u8) -> Seq<char> {
    repeated('=', level as nat) + " "@ + title
}

/// An item of a list: its number and a dot in a numbered list, a hyphen in
/// any other, then a space and the item.
pub open spec fn list_item_text(item: Seq<char>, position: nat, ordered: bool) -> Seq<char> {
    if ordered {
        decimal_nat(position + 1) + ". "@ + item
    } else {
        "- "@ + item
    }
}

/// The lines of the cells of a grid, one cell to a line.
pub open spec fn cell_lines(cells: Seq<Seq<char>>) -> Seq<char>
    decreases cells.len(),
{
    if cells.len() == 0 {
        Seq::empty()
    } else {
        cell_lines(cells.drop_last()) + "  ["@ + cells.last() + "],\n"@
    }
}

/// A grid of the given number of columns with the given cells.
pub open spec fn grid_text(columns: usize, cells: Seq<Seq<char>>) -> Seq<char> {
    "#grid(\n  columns: "@ + decimal_nat(columns as nat) + ",\n"@ + "  gutter: 10pt,\n"@
        + cell_lines(cells) + ")"@
}

/// A box around `content`, filled and framed as asked.
pub open spec fn box_text(content: Seq<char>, fill_color: Option<Seq<char>>, border: bool) -> Seq<
    char,
> {
    "#rect("@ + (match fill_color {
        Some(color) => "fill: rgb("@ + color + "), "@,
        None => Seq::<char>::empty(),
    }) + (if border {
        "stroke: 0.5pt, "@
    } else {
        Seq::<char>::empty()
    }) + "radius: 3pt, inset: 10pt)["@ + content + "]"@
}

/// The widths of the columns of a table, each with its unit, separated by
/// commas.
pub open spec fn width_list(widths: Seq<Seq<char>>) -> Seq<char>
    decreases widths.len(),
{
    if widths.len() == 0 {
        Seq::empty()
    } else if widths.len() == 1 {
        widths[0] + "pt"@
    } else {
        width_list(widths.drop_last()) + ", "@ + widths.last() + "pt"@
    }
}

/// The line that gives a table its columns: their widths where they are
/// given, else their number.
pub open spec fn columns_line(widths: Option<Seq<Seq<char>>>, count: nat) -> Seq<char> {
    match widths {
        Some(list) => "  columns: ("@ + width_list(list) + "),\n"@,
        None => "  columns: "@ + decimal_nat(count) + ",\n"@,
    }
}

/// The lines that align the first `count` columns, one for each column.
pub open spec fn align_lines(alignment: Seq<ColumnAlign>, count: nat) -> Seq<char>
    decreases count,
{
    if count == 0 {
        Seq::empty()
    } else {
        let i = (count - 1) as nat;
        align_lines(alignment, i) + (if i == 0 {
            "    if col == "@
        } else {
            "    else if col == "@
        }) + decimal_nat(i) + " { "@ + alignment[i as int].label() + " }\n"@
    }
}

/// The part of a table that aligns its columns; nothing where no alignment
/// is given.
pub open spec fn align_block(alignment: Option<Seq<ColumnAlign>>) -> Seq<char> {
    match alignment {
        Some(list) => "  align: (col, row) => {\n"@ + align_lines(list, list.len())
            + "    else { left }\n  },\n"@,
        None => Seq::<char>::empty(),
    }
}

/// The header cells of a table, one to a line, in bold.
pub open spec fn header_lines(headers: Seq<Seq<char>>) -> Seq<char>
    decreases headers.len(),
{
    if headers.len() == 0 {
        Seq::empty()
    } else {
        header_lines(headers.drop_last()) + "  [#text(weight: \"bold\")["@ + headers.last()
            + "]],\n"@
    }
}

/// The cells of the rows of a table, one to a line, row after row.
pub open spec fn row_cell_lines(rows: Seq<Vec<String>>) -> Seq<char>
    decreases rows.len(),
{
    if rows.len() == 0 {
        Seq::empty()
    } else {
        row_cell_lines(rows.drop_last()) + cell_lines(texts_of(rows.last()@))
    }
}

/// A table in markup.
pub open spec fn table_markup(table: TableData) -> Seq<char> {
    "#table(\n"@ + columns_line(
        match table.column_widths {
            Some(widths) => Some(texts_of(widths@)),
            None => None,
        },
        table.headers@.len(),
    ) + align_block(
        match table.alignment {
            Some(alignment) => Some(alignment@),
            None => None,
        },
    ) + "  stroke: 0.5pt,\n"@
        + "  fill: (x, y) => if y == 0 { rgb(240, 240, 240) } else { white },\n"@
        + "  inset: 8pt,\n\n"@ + header_lines(texts_of(table.headers@)) + row_cell_lines(
        table.rows@,
    ) + ")"@
}

/// An image in markup, with its width in points where one is given, inside
/// a figure where it has a caption.
pub open spec fn image_markup(path: Seq<char>, width: Option<Seq<char>>, caption: Option<Seq<char>>)
    -> Seq<char> {
    let image = "#image(\""@ + path + "\""@ + (match width {
        Some(points) => ", width: "@ + points + "pt"@,
        None => Seq::<char>::empty(),
    }) + ")"@;
    match caption {
        Some(text) => "#figure(\n  "@ + image + ",\n  caption: ["@ + text + "]\n)"@,
        None => image,
    }
}

fn push_cell_lines(out: &mut String, cells: &Vec<String>)
    ensures
        final(out)@ == old(out)@ + cell_lines(texts_of(cells@)),
{
    let mut i: usize = 0;
    assert(out@ =~= old(out)@ + cell_lines(texts_of(cells@).subrange(0, 0)));
    while i < cells.len()
        invariant
            0 <= i <= cells.len(),
            out@ == old(out)@ + cell_lines(texts_of(cells@).subrange(0, i as int)),
        decreases cells.len() - i,
    {
        let ghost done = texts_of(cells@).subrange(0, i as int);
        let ghost next = texts_of(cells@).subrange(0, i + 1);
        proof {
            assert(next.drop_last() =~= done);
            assert(next.last() == cells@[i as int]@);
        }
        push_text(out, "  [");
        push_text(out, cells[i].as_str());
        push_text(out, "],\n");
        i = i + 1;
        assert(out@ =~= old(out)@ + cell_lines(next));
    }
    assert(texts_of(cells@).subrange(0, i as int) =~= texts_of(cells@));
}

/// The sections of a document, in order.
pub struct PdfBuilder {
    sections: Vec<String>,
}

impl PdfBuilder {
    /// The sections collected so far.
    pub closed spec fn sections(self) -> Seq<Seq<char>> {
        texts_of(self.sections@)
    }

    /// A builder without sections.
    pub fn new() -> (builder: PdfBuilder)
        ensures
            builder.sections() == Seq::<Seq<char>>::empty(),
    {
        let builder = PdfBuilder { sections: Vec::new() };
        assert(builder.sections() =~= Seq::<Seq<char>>::empty());
        builder
    }

    fn add(&mut self, section: String)
        ensures
            final(self).sections() == old(self).sections().push(section@),
    {
        self.sections.push(section);
        assert(self.sections() =~= old(self).sections().push(section@));
    }

    /// Adds a heading of the given level.
    pub fn add_title(&mut self, title: &str, level: u8)
        ensures
            final(self).sections() == old(self).sections().push(title_text(title@, level)),
    {
        let mut out = String::new();
        let mut i: u8 = 0;
        while i < level
            invariant
                0 <= i <= level,
                out@ == repeated('=', i as nat),
            decreases level - i,
        {
            out.push('=');
            i = i + 1;
            assert(out@ =~= repeated('=', i as nat));
        }
        push_text(&mut out, " ");
        push_text(&mut out, title);
        assert(out@ =~= title_text(title@, level));
        self.add(out);
    }

    /// Adds a paragraph, followed by an empty section.
    pub fn add_paragraph(&mut self, text: &str)
        ensures
            final(self).sections() == old(self).sections().push(text@).push(Seq::<char>::empty()),
    {
        self.add(text_of(text));
        self.add(String::new());
    }

    /// Adds vertical space.
    pub fn add_line_break(&mut self)
        ensures
            final(self).sections() == old(self).sections().push("#v(10pt)"@),
    {
        self.add("#v(10pt)".to_owned());
    }

    /// Adds a horizontal line across the page.
    pub fn add_horizontal_line(&mut self)
        ensures
            final(self).sections() == old(self).sections().push(
                "#line(length: 100%, stroke: 0.5pt)"@,
            ),
    {
        self.add("#line(length: 100%, stroke: 0.5pt)".to_owned());
    }

    /// Adds a list, one section for each item, followed by an empty section.
    pub fn add_list(&mut self, items: &Vec<String>, ordered: bool)
        ensures
            final(self).sections().len() == old(self).sections().len() + items.len() + 1,
            final(self).sections().subrange(0, old(self).sections().len() as int) == old(
                self,
            ).sections(),
            forall|i: int|
                0 <= i < items.len() ==> #[trigger] final(self).sections()[old(
                    self,
                ).sections().len() + i] == list_item_text(items@[i]@, i as nat, ordered),
            final(self).sections().last() == Seq::<char>::empty(),
    {
        let ghost before = self.sections();
        let mut i: usize = 0;
        while i < items.len()
            invariant
                0 <= i <= items.len(),
                self.sections().len() == before.len() + i,
                self.sections().subrange(0, before.len() as int) == before,
                forall|j: int|
                    0 <= j < i ==> #[trigger] self.sections()[before.len() + j] == list_item_text(
                        items@[j]@,
                        j as nat,
                        ordered,
                    ),
            decreases items.len() - i,
        {
            let ghost so_far = self.sections();
            let mut out = String::new();
            if ordered {
                push_decimal_u64(&mut out, (i + 1) as u64);
                push_text(&mut out, ". ");
            } else {
                push_text(&mut out, "- ");
            }
            push_text(&mut out, items[i].as_str());
            assert(out@ =~= list_item_text(items@[i as int]@, i as nat, ordered));
            self.add(out);
            proof {
                assert(self.sections().subrange(0, before.len() as int) =~= so_far.subrange(
                    0,
                    before.len() as int,
                ));
                assert forall|j: int| 0 <= j < i + 1 implies #[trigger] self.sections()[before.len()
                    + j] == list_item_text(items@[j]@, j as nat, ordered) by {
                    if j < i {
                        assert(self.sections()[before.len() + j] == so_far[before.len() + j]);
                    }
                }
            }
            i = i + 1;
        }
        let ghost listed = self.sections();
        self.add(String::new());
        proof {
            assert(self.sections().subrange(0, before.len() as int) =~= listed.subrange(
                0,
                before.len() as int,
            ));
            assert forall|j: int| 0 <= j < items.len() implies #[trigger] self.sections()[before.len()
                + j] == list_item_text(items@[j]@, j as nat, ordered) by {
                assert(self.sections()[before.len() + j] == listed[before.len() + j]);
            }
        }
    }

    /// Adds a table: its columns, the alignment of its columns where one is
    /// given, its headers in bold and its rows.
    pub fn add_table(&mut self, table: &TableData)
        ensures
            final(self).sections() == old(self).sections().push(table_markup(*table)),
    {
        let mut out = String::new();
        push_text(&mut out, "#table(\n");
        match &table.column_widths {
            Some(widths) => {
                push_text(&mut out, "  columns: (");
                let ghost head = out@;
                let mut i: usize = 0;
                assert(out@ =~= head + width_list(texts_of(widths@).subrange(0, 0)));
                while i < widths.len()
                    invariant
                        0 <= i <= widths.len(),
                        out@ == head + width_list(texts_of(widths@).subrange(0, i as int)),
                    decreases widths.len() - i,
                {
                    let ghost done = texts_of(widths@).subrange(0, i as int);
                    let ghost next = texts_of(widths@).subrange(0, i + 1);
                    proof {
                        assert(next.drop_last() =~= done);
                        assert(next.last() == widths@[i as int]@);
                    }
                    if i > 0 {
                        push_text(&mut out, ", ");
                    }
                    push_text(&mut out, widths[i].as_str());
                    push_text(&mut out, "pt");
                    i = i + 1;
                    assert(out@ =~= head + width_list(next));
                }
                assert(texts_of(widths@).subrange(0, i as int) =~= texts_of(widths@));
                push_text(&mut out, "),\n");
            },
            None => {
                push_text(&mut out, "  columns: ");
                push_decimal_u64(&mut out, table.headers.len() as u64);
                push_text(&mut out, ",\n");
            },
        }
        let ghost with_columns = out@;
        assert(with_columns =~= "#table(\n"@ + columns_line(
            match table.column_widths {
                Some(widths) => Some(texts_of(widths@)),
                None => None,
            },
            table.headers@.len(),
        ));
        match &table.alignment {
            Some(alignment) => {
                push_text(&mut out, "  align: (col, row) => {\n");
                let ghost head = out@;
                let mut i: usize = 0;
                assert(out@ =~= head + align_lines(alignment@, 0));
                while i < alignment.len()
                    invariant
                        0 <= i <= alignment.len(),
                        out@ == head + align_lines(alignment@, i as nat),
                    decreases alignment.len() - i,
                {
                    if i == 0 {
                        push_text(&mut out, "    if col == ");
                    } else {
                        push_text(&mut out, "    else if col == ");
                    }
                    push_decimal_u64(&mut out, i as u64);
                    push_text(&mut out, " { ");
                    let label = alignment[i].to_text();
                    push_text(&mut out, label.as_str());
                    push_text(&mut out, " }\n");
                    i = i + 1;
                    assert(out@ =~= head + align_lines(alignment@, i as nat));
                }
                push_text(&mut out, "    else { left }\n  },\n");
            },
            None => {},
        }
        let ghost with_alignment = out@;
        assert(with_alignment =~= with_columns + align_block(
            match table.alignment {
                Some(alignment) => Some(alignment@),
                None => None,
            },
        ));
        push_text(&mut out, "  stroke: 0.5pt,\n");
        push_text(&mut out, "  fill: (x, y) => if y == 0 { rgb(240, 240, 240) } else { white },\n");
        push_text(&mut out, "  inset: 8pt,\n\n");
        let ghost head = out@;
        let mut i: usize = 0;
        assert(out@ =~= head + header_lines(texts_of(table.headers@).subrange(0, 0)));
        while i < table.headers.len()
            invariant
                0 <= i <= table.headers.len(),
                out@ == head + header_lines(texts_of(table.headers@).subrange(0, i as int)),
            decreases table.headers.len() - i,
        {
            let ghost done = texts_of(table.headers@).subrange(0, i as int);
            let ghost next = texts_of(table.headers@).subrange(0, i + 1);
            proof {
                assert(next.drop_last() =~= done);
                assert(next.last() == table.headers@[i as int]@);
            }
            push_text(&mut out, "  [#text(weight: \"bold\")[");
            push_text(&mut out, table.headers[i].as_str());
            push_text(&mut out, "]],\n");
            i = i + 1;
            assert(out@ =~= head + header_lines(next));
        }
        assert(texts_of(table.headers@).subrange(0, i as int) =~= texts_of(table.headers@));
        let ghost with_headers = out@;
        let mut r: usize = 0;
        assert(out@ =~= with_headers + row_cell_lines(table.rows@.subrange(0, 0)));
        while r < table.rows.len()
            invariant
                0 <= r <= table.rows.len(),
                out@ == with_headers + row_cell_lines(table.rows@.subrange(0, r as int)),
            decreases table.rows.len() - r,
        {
            let ghost done = table.rows@.subrange(0, r as int);
            let ghost next = table.rows@.subrange(0, r + 1);
            proof {
                assert(next.drop_last() =~= done);
                assert(next.last() == table.rows@[r as int]);
            }
            push_cell_lines(&mut out, &table.rows[r]);
            r = r + 1;
            assert(out@ =~= with_headers + row_cell_lines(next));
        }
        assert(table.rows@.subrange(0, r as int) =~= table.rows@);
        push_text(&mut out, ")");
        assert(out@ =~= table_markup(*table));
        self.add(out);
    }

    /// Adds an image, with its width in points where one is given, and
    /// inside a figure where it has a caption.
    pub fn add_image(&mut self, path: &str, width: &Option<String>, caption: &Option<String>)
        ensures
            final(self).sections() == old(self).sections().push(
                image_markup(
                    path@,
                    match *width {
                        Some(points) => Some(points@),
                        None => None,
                    },
                    match *caption {
                        Some(text) => Some(text@),
                        None => None,
                    },
                ),
            ),
    {
        let mut image = String::new();
        push_text(&mut image, "#image(\"");
        push_text(&mut image, path);
        push_text(&mut image, "\"");
        if let Some(points) = width {
            push_text(&mut image, ", width: ");
            push_text(&mut image, points.as_str());
            push_text(&mut image, "pt");
        }
        push_text(&mut image, ")");
        match caption {
            Some(text) => {
                let mut figure = String::new();
                push_text(&mut figure, "#figure(\n  ");
                push_text(&mut figure, image.as_str());
                push_text(&mut figure, ",\n  caption: [");
                push_text(&mut figure, text.as_str());
                push_text(&mut figure, "]\n)");
                assert(figure@ =~= image_markup(
                    path@,
                    match *width {
                        Some(points) => Some(points@),
                        None => None,
                    },
                    Some(text@),
                ));
                self.add(figure);
            },
            None => {
                assert(image@ =~= image_markup(
                    path@,
                    match *width {
                        Some(points) => Some(points@),
                        None => None,
                    },
                    None,
                ));
                self.add(image);
            },
        }
    }

    /// Adds a page break.
    pub fn add_page_break(&mut self)
        ensures
            final(self).sections() == old(self).sections().push("#pagebreak()"@),
    {
        self.add("#pagebreak()".to_owned());
    }

    /// Adds markup as it is.
    pub fn add_raw_typst(&mut self, typst_code: &str)
        ensures
            final(self).sections() == old(self).sections().push(typst_code@),
    {
        self.add(text_of(typst_code));
    }

    /// Adds a grid of `columns` columns with the given cells.
    pub fn add_grid(&mut self, columns: usize, cells: &Vec<String>)
        ensures
            final(self).sections() == old(self).sections().push(
                grid_text(columns, texts_of(cells@)),
            ),
    {
        let mut out = String::new();
        push_text(&mut out, "#grid(\n  columns: ");
        push_decimal_u64(&mut out, columns as u64);
        push_text(&mut out, ",\n");
        push_text(&mut out, "  gutter: 10pt,\n");
        let ghost head = out@;
        let mut i: usize = 0;
        while i < cells.len()
            invariant
                0 <= i <= cells.len(),
                out@ == head + cell_lines(texts_of(cells@).subrange(0, i as int)),
            decreases cells.len() - i,
        {
            let ghost done = texts_of(cells@).subrange(0, i as int);
            let ghost next = texts_of(cells@).subrange(0, i + 1);
            proof {
                assert(next.drop_last() =~= done);
                assert(next.last() == cells@[i as int]@);
            }
            push_text(&mut out, "  [");
            push_text(&mut out, cells[i].as_str());
            push_text(&mut out, "],\n");
            i = i + 1;
            assert(out@ =~= head + cell_lines(next));
        }
        assert(texts_of(cells@).subrange(0, i as int) =~= texts_of(cells@));
        push_text(&mut out, ")");
        assert(out@ =~= grid_text(columns, texts_of(cells@)));
        self.add(out);
    }

    /// Adds a box around `content`, filled with `fill_color` where one is
    /// given and framed where `border` is set.
    pub fn add_box(&mut self, content: &str, fill_color: &Option<String>, border: bool)
        ensures
            final(self).sections() == old(self).sections().push(
                box_text(
                    content@,
                    match *fill_color {
                        Some(color) => Some(color@),
                        None => None,
                    },
                    border,
                ),
            ),
    {
        let mut out = String::new();
        push_text(&mut out, "#rect(");
        if let Some(color) = fill_color {
            push_text(&mut out, "fill: rgb(");
            push_text(&mut out, color.as_str());
            push_text(&mut out, "), ");
        }
        if border {
            push_text(&mut out, "stroke: 0.5pt, ");
        }
        push_text(&mut out, "radius: 3pt, inset: 10pt)[");
        push_text(&mut out, content);
        push_text(&mut out, "]");
        assert(out@ =~= box_text(
            content@,
            match *fill_color {
                Some(color) => Some(color@),
                None => None,
            },
            border,
        ));
        self.add(out);
    }

    /// The document: its sections with an empty line between each two.
    pub fn build(&self) -> (document: String)
        ensures
            document@ == joined(self.sections(), "\n\n"@),
    {
        join(&self.sections, "\n\n")
    }
}

} // verus!
