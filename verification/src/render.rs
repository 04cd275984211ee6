use vstd::prelude::*;

use vstd::utf8::encode_utf8;

use crate::text::{append_padded, append_str, pad_right, push_char, strings_view};

verus! {

/// `s` as one output line.
pub open spec fn nl(s: Seq<char>) -> Seq<char> {
    s.push('\n')
}

/// The byte length of `s`, which is what `str::len` reports.
pub open spec fn blen(s: Seq<char>) -> usize {
    encode_utf8(s).len() as usize
}

/// Appends `s` and a line break.
pub fn write_line(out: &mut String, s: &str)
    ensures
        final(out)@ == old(out)@ + nl(s@),
{
    append_str(out, s);
    push_char(out, '\n');
    proof {
        assert(final(out)@ =~= old(out)@ + nl(s@));
    }
}

/// `yes` or `no`.
pub fn yes_no(value: bool) -> (r: &'static str)
    ensures
        r@ == (if value { "yes"@ } else { "no"@ }),
{
    if value { "yes" } else { "no" }
}

/// `present` or `absent`.
pub fn present_absent(value: bool) -> (r: &'static str)
    ensures
        r@ == (if value { "present"@ } else { "absent"@ }),
{
    if value { "present" } else { "absent" }
}

/// Each item on a line of its own, indented by two spaces.
pub open spec fn indented(items: Seq<Seq<char>>) -> Seq<char>
    decreases items.len(),
{
    if items.len() == 0 {
        seq![]
    } else {
        indented(items.drop_last()) + "  "@ + nl(items.last())
    }
}

/// Appends each item on a line of its own, indented by two spaces.
pub fn write_indented(out: &mut String, items: &Vec<String>)
    ensures
        final(out)@ == old(out)@ + indented(strings_view(items@)),
{
    let ghost start = out@;
    for i in 0..items.len()
        invariant
            out@ == start + indented(strings_view(items@.take(i as int))),
    {
        proof {
            assert(strings_view(items@.take(i + 1)).drop_last() =~= strings_view(items@.take(i as int)));
        }
        append_str(out, "  ");
        write_line(out, items[i].as_str());
        proof {
            let prev = indented(strings_view(items@.take(i as int)));
            assert(out@ =~= start + (prev + "  "@ + nl(items@[i as int]@)));
        }
    }
    proof {
        assert(items@.take(items@.len() as int) =~= items@);
    }
}

/// A titled list of items.
pub open spec fn item_section(title: Seq<char>, items: Seq<Seq<char>>) -> Seq<char> {
    nl(title) + indented(items)
}

/// Appends a titled list of items.
pub fn render_item_section(out: &mut String, title: &str, items: &Vec<String>)
    ensures
        final(out)@ == old(out)@ + item_section(title@, strings_view(items@)),
{
    let ghost start = out@;
    write_line(out, title);
    write_indented(out, items);
    proof {
        assert(out@ =~= start + item_section(title@, strings_view(items@)));
    }
}

/// The next steps, when there are any.
pub open spec fn next_text(actions: Seq<Seq<char>>) -> Seq<char> {
    if actions.len() > 0 {
        item_section("Next"@, actions)
    } else {
        seq![]
    }
}

/// Appends the next steps, when there are any.
pub fn render_next_text(out: &mut String, actions: &Vec<String>)
    ensures
        final(out)@ == old(out)@ + next_text(strings_view(actions@)),
{
    if actions.len() > 0 {
        render_item_section(out, "Next", actions);
    }
}

/// The next steps after a blank line, when there are any.
pub open spec fn next_section(actions: Seq<Seq<char>>) -> Seq<char> {
    if actions.len() > 0 {
        seq!['\n'] + item_section("Next"@, actions)
    } else {
        seq![]
    }
}

/// Appends the next steps after a blank line, when there are any.
pub fn render_next_section(out: &mut String, actions: &Vec<String>)
    ensures
        final(out)@ == old(out)@ + next_section(strings_view(actions@)),
{
    if actions.len() > 0 {
        push_char(out, '\n');
        render_item_section(out, "Next", actions);
    }
}

/// The `Next` section of follow-up commands, after a blank line; nothing when there are none.
pub open spec fn actions_text(actions: Seq<Seq<char>>) -> Seq<char> {
    if actions.len() == 0 {
        seq![]
    } else {
        seq!['\n'] + item_section("Next"@, actions)
    }
}

/// Appends the follow-up commands.
pub fn render_actions(out: &mut String, actions: &Vec<String>)
    ensures
        final(out)@ == old(out)@ + actions_text(strings_view(actions@)),
{
    if actions.len() == 0 {
        proof {
            assert(out@ =~= out@ + actions_text(strings_view(actions@)));
        }
        return;
    }
    let ghost start = out@;
    push_char(out, '\n');
    render_item_section(out, "Next", actions);
    proof {
        assert(out@ =~= start + actions_text(strings_view(actions@)));
    }
}

/// A context line followed by a blank line.
pub open spec fn context_text(line: Seq<char>) -> Seq<char> {
    nl(line).push('\n')
}

/// Appends a context line and a blank line.
pub fn write_context(out: &mut String, line: &str)
    ensures
        final(out)@ == old(out)@ + context_text(line@),
{
    let ghost start = out@;
    write_line(out, line);
    push_char(out, '\n');
    proof {
        assert(out@ =~= start + context_text(line@));
    }
}

/// The views of labelled rows.
pub open spec fn rows_view(rows: Seq<(String, String)>) -> Seq<(Seq<char>, Seq<char>)> {
    rows.map_values(|r: (String, String)| (r.0@, r.1@))
}

/// The widest label of `rows`, in bytes.
pub open spec fn label_width(rows: Seq<(Seq<char>, Seq<char>)>) -> usize
    decreases rows.len(),
{
    if rows.len() == 0 {
        0
    } else {
        let w = label_width(rows.drop_last());
        if blen(rows.last().0) > w {
            blen(rows.last().0)
        } else {
            w
        }
    }
}

/// Each row as `  label  value`, labels padded to `width`.
pub open spec fn row_lines(rows: Seq<(Seq<char>, Seq<char>)>, width: usize) -> Seq<char>
    decreases rows.len(),
{
    if rows.len() == 0 {
        seq![]
    } else {
        row_lines(rows.drop_last(), width) + "  "@ + pad_right(rows.last().0, width as nat) + "  "@ + nl(
            rows.last().1,
        )
    }
}

/// The rows, aligned on the widest label.
pub open spec fn field_rows_string(rows: Seq<(Seq<char>, Seq<char>)>) -> Seq<char> {
    row_lines(rows, label_width(rows))
}

fn rows_label_width(rows: &Vec<(String, String)>) -> (r: usize)
    ensures
        r == label_width(rows_view(rows@)),
{
    let mut w: usize = 0;
    for i in 0..rows.len()
        invariant
            w == label_width(rows_view(rows@.take(i as int))),
    {
        proof {
            assert(rows_view(rows@.take(i + 1)).drop_last() =~= rows_view(rows@.take(i as int)));
        }
        let n = rows[i].0.as_str().len();
        if n > w {
            w = n;
        }
    }
    proof {
        assert(rows@.take(rows@.len() as int) =~= rows@);
    }
    w
}

fn write_rows(out: &mut String, rows: &Vec<(String, String)>, width: usize)
    ensures
        final(out)@ == old(out)@ + row_lines(rows_view(rows@), width),
{
    let ghost start = out@;
    for i in 0..rows.len()
        invariant
            out@ == start + row_lines(rows_view(rows@.take(i as int)), width),
    {
        proof {
            assert(rows_view(rows@.take(i + 1)).drop_last() =~= rows_view(rows@.take(i as int)));
        }
        let ghost prev = out@;
        append_str(out, "  ");
        append_padded(out, rows[i].0.as_str(), width);
        append_str(out, "  ");
        write_line(out, rows[i].1.as_str());
        proof {
            let r = rows_view(rows@.take(i + 1)).last();
            assert(r == (rows@[i as int].0@, rows@[i as int].1@));
            assert(out@ =~= prev + ("  "@ + pad_right(r.0, width as nat) + "  "@ + nl(r.1)));
            assert(out@ =~= start + row_lines(rows_view(rows@.take(i + 1)), width));
        }
    }
    proof {
        assert(rows@.take(rows@.len() as int) =~= rows@);
    }
}

/// The rows, aligned on the widest label, as text.
pub fn render_field_rows_string(rows: &Vec<(String, String)>) -> (r: String)
    ensures
        r@ == field_rows_string(rows_view(rows@)),
{
    let mut r = String::new();
    let w = rows_label_width(rows);
    write_rows(&mut r, rows, w);
    proof {
        assert(r@ =~= field_rows_string(rows_view(rows@)));
    }
    r
}

/// Appends the aligned rows and a blank line.
pub fn render_field_rows(out: &mut String, rows: &Vec<(String, String)>)
    ensures
        final(out)@ == old(out)@ + field_rows_string(rows_view(rows@)).push('\n'),
{
    let w = rows_label_width(rows);
    let ghost start = out@;
    write_rows(out, rows, w);
    push_char(out, '\n');
    proof {
        assert(out@ =~= start + field_rows_string(rows_view(rows@)).push('\n'));
    }
}

/// A heading, its aligned rows and a blank line.
pub open spec fn pairs_text(heading: Seq<char>, rows: Seq<(Seq<char>, Seq<char>)>) -> Seq<char> {
    nl(heading) + field_rows_string(rows).push('\n')
}

/// Appends a heading, its aligned rows and a blank line.
pub fn render_pairs(out: &mut String, heading: &str, rows: &Vec<(String, String)>)
    ensures
        final(out)@ == old(out)@ + pairs_text(heading@, rows_view(rows@)),
{
    let ghost start = out@;
    write_line(out, heading);
    render_field_rows(out, rows);
    proof {
        assert(out@ =~= start + pairs_text(heading@, rows_view(rows@)));
    }
}

/// A labelled row, as rendering functions build them.
pub fn row(label: &str, value: String) -> (r: (String, String))
    ensures
        r.0@ == label@,
        r.1 == value,
{
    (crate::text::owned(label), value)
}

/// `rows` with `(label, value)` added when `value` is present and not blank.
pub open spec fn pushed_row(
    rows: Seq<(Seq<char>, Seq<char>)>,
    label: Seq<char>,
    value: Option<Seq<char>>,
) -> Seq<(Seq<char>, Seq<char>)> {
    match value {
        Some(v) => if crate::text::trim(v).len() == 0 {
            rows
        } else {
            rows.push((label, v))
        },
        None => rows,
    }
}

/// Adds a row when its value is present and not blank.
pub fn push_row(rows: &mut Vec<(String, String)>, label: &str, value: Option<String>)
    ensures
        rows_view(final(rows)@) == pushed_row(rows_view(old(rows)@), label@, crate::bindings::opt_str_view(value)),
{
    match value {
        Some(v) => {
            if !crate::text::is_blank_str(v.as_str()) {
                let ghost before = rows_view(rows@);
                rows.push(row(label, v));
                proof {
                    assert(rows_view(rows@) =~= before.push((label@, crate::bindings::opt_str_view(value)->0)));
                }
            }
        },
        None => {},
    }
}

/// A table of text cells under column headers.
pub struct Table {
    pub headers: &'static [&'static str],
    pub rows: Vec<Vec<String>>,
}

/// The views of table rows.
pub open spec fn cells_view(rows: Seq<Vec<String>>) -> Seq<Seq<Seq<char>>> {
    rows.map_values(|r: Vec<String>| strings_view(r@))
}

/// The width of column `i`: the widest of `start` and the column's cells, in bytes.
pub open spec fn column_width(rows: Seq<Seq<Seq<char>>>, i: int, start: usize) -> usize
    decreases rows.len(),
{
    if rows.len() == 0 {
        start
    } else {
        let w = column_width(rows.drop_last(), i, start);
        if i < rows.last().len() && blen(rows.last()[i]) > w {
            blen(rows.last()[i])
        } else {
            w
        }
    }
}

/// The width of each column.
pub open spec fn column_widths(headers: Seq<Seq<char>>, rows: Seq<Seq<Seq<char>>>) -> Seq<usize> {
    Seq::new(headers.len(), |i: int| column_width(rows, i, blen(headers[i])))
}

/// The cells of one line, each padded to its column's width, two spaces apart.
pub open spec fn table_line(cells: Seq<Seq<char>>, widths: Seq<usize>) -> Seq<char>
    decreases cells.len(),
{
    if cells.len() == 0 {
        seq![]
    } else {
        table_line(cells.drop_last(), widths) + (if cells.len() > 1 {
            "  "@
        } else {
            seq![]
        }) + pad_right(cells.last(), widths[cells.len() - 1] as nat)
    }
}

/// The lines of the given rows.
pub open spec fn table_rows_text(rows: Seq<Seq<Seq<char>>>, widths: Seq<usize>) -> Seq<char>
    decreases rows.len(),
{
    if rows.len() == 0 {
        seq![]
    } else {
        table_rows_text(rows.drop_last(), widths) + nl(table_line(rows.last(), widths))
    }
}

/// A table: the header line, then one line per row.
pub open spec fn table_text(headers: Seq<Seq<char>>, rows: Seq<Seq<Seq<char>>>) -> Seq<char> {
    let w = column_widths(headers, rows);
    nl(table_line(headers, w)) + table_rows_text(rows, w)
}

fn write_table_line(out: &mut String, cells: &Vec<String>, widths: &Vec<usize>)
    requires
        cells@.len() <= widths@.len(),
    ensures
        final(out)@ == old(out)@ + nl(table_line(strings_view(cells@), widths@)),
{
    let ghost start = out@;
    for i in 0..cells.len()
        invariant
            cells@.len() <= widths@.len(),
            out@ == start + table_line(strings_view(cells@.take(i as int)), widths@),
    {
        proof {
            assert(strings_view(cells@.take(i + 1)).drop_last() =~= strings_view(cells@.take(i as int)));
        }
        let ghost prev = out@;
        if i > 0 {
            append_str(out, "  ");
        }
        append_padded(out, cells[i].as_str(), widths[i]);
        proof {
            let sep: Seq<char> = if i + 1 > 1 { "  "@ } else { seq![] };
            assert(out@ =~= prev + (sep + pad_right(cells@[i as int]@, widths@[i as int] as nat)));
        }
    }
    proof {
        assert(cells@.take(cells@.len() as int) =~= cells@);
    }
    push_char(out, '\n');
}

/// Appends a table with its columns aligned; every row has at most one cell per header.
pub fn render_table(out: &mut String, table: &Table)
    requires
        forall|r: int| 0 <= r < table.rows@.len() ==> #[trigger] table.rows@[r]@.len() <= table.headers@.len(),
    ensures
        final(out)@ == old(out)@ + table_text(
            table.headers@.map_values(|h: &str| h@),
            cells_view(table.rows@),
        ),
{
    let ghost headers = table.headers@.map_values(|h: &str| h@);
    let ghost rows = cells_view(table.rows@);
    let mut header_cells: Vec<String> = Vec::new();
    let mut widths: Vec<usize> = Vec::new();
    for i in 0..table.headers.len()
        invariant
            header_cells@.len() == i,
            widths@.len() == i,
            headers == table.headers@.map_values(|h: &str| h@),
            forall|j: int| 0 <= j < i ==> #[trigger] header_cells@[j]@ == headers[j],
            forall|j: int| 0 <= j < i ==> #[trigger] widths@[j] == blen(headers[j]),
    {
        header_cells.push(crate::text::owned(table.headers[i]));
        widths.push(table.headers[i].len());
    }
    for r in 0..table.rows.len()
        invariant
            widths@.len() == headers.len(),
            headers == table.headers@.map_values(|h: &str| h@),
            rows == cells_view(table.rows@),
            forall|j: int|
                0 <= j < widths@.len() ==> #[trigger] widths@[j] == column_width(rows.take(r as int), j, blen(headers[j])),
    {
        proof {
            assert(rows.take(r + 1).drop_last() =~= rows.take(r as int));
            assert(rows.take(r + 1).last() == strings_view(table.rows@[r as int]@));
        }
        let cells = &table.rows[r];
        let ghost before = widths@;
        let mut c: usize = 0;
        while c < cells.len()
            invariant
                widths@.len() == headers.len(),
                before.len() == headers.len(),
                cells@ == table.rows@[r as int]@,
                c <= cells@.len(),
                forall|j: int| 0 <= j < widths@.len() ==> #[trigger] widths@[j] == (if j < c && blen(cells@[j]@) > before[j] {
                    blen(cells@[j]@)
                } else {
                    before[j]
                }),
            decreases cells@.len() - c,
        {
            if c < widths.len() {
                let n = cells[c].as_str().len();
                if n > widths[c] {
                    widths.set(c, n);
                }
            }
            c += 1;
        }
        proof {
            assert forall|j: int| 0 <= j < widths@.len() implies #[trigger] widths@[j] == column_width(
                rows.take(r + 1),
                j,
                blen(headers[j]),
            ) by {
                assert(strings_view(cells@).len() == cells@.len());
                if j < cells@.len() {
                    assert(strings_view(cells@)[j] == cells@[j]@);
                }
            }
        }
    }
    proof {
        assert(rows.take(table.rows@.len() as int) =~= rows);
        assert(widths@ =~= column_widths(headers, rows));
        assert(strings_view(header_cells@) =~= headers);
    }
    let ghost start = out@;
    write_table_line(out, &header_cells, &widths);
    for r in 0..table.rows.len()
        invariant
            widths@ == column_widths(headers, rows),
            rows == cells_view(table.rows@),
            forall|q: int| 0 <= q < table.rows@.len() ==> #[trigger] table.rows@[q]@.len() <= table.headers@.len(),
            headers.len() == table.headers@.len(),
            out@ == start + nl(table_line(headers, widths@)) + table_rows_text(rows.take(r as int), widths@),
    {
        proof {
            assert(rows.take(r + 1).drop_last() =~= rows.take(r as int));
            assert(rows.take(r + 1).last() == strings_view(table.rows@[r as int]@));
        }
        write_table_line(out, &table.rows[r], &widths);
        proof {
            assert(out@ =~= start + nl(table_line(headers, widths@)) + table_rows_text(rows.take(r + 1), widths@));
        }
    }
    proof {
        assert(rows.take(table.rows@.len() as int) =~= rows);
    }
}

} // verus!
