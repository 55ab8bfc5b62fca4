//! The HTML table that highlighted lines are written into.
use vstd::prelude::*;
use vstd::string::StringExecFns;

use crate::text::{decimal, decimal_string};

verus! {

/// The characters of each of `lines`.
pub open spec fn texts(lines: Seq<String>) -> Seq<Seq<char>> {
    Seq::new(lines.len(), |i: int| lines[i]@)
}

/// The table row of the line with the given number.
pub open spec fn row_text(number: nat, line: Seq<char>) -> Seq<char> {
    "<tr><td class=line-number>"@ + decimal(number) + "</td><td class=line>"@ + line
        + "</td></tr>\n"@
}

/// The rows of the first `count` of `lines`, one after the other.
pub open spec fn rows_text(lines: Seq<Seq<char>>, count: nat) -> Seq<char>
    decreases count,
{
    if count == 0 {
        Seq::empty()
    } else {
        rows_text(lines, (count - 1) as nat) + row_text(count, lines[count - 1])
    }
}

/// The table of `lines`: an opening line, a numbered row for each line, and
/// a closing line.
pub open spec fn table_text(lines: Seq<Seq<char>>) -> Seq<char> {
    "<table>\n"@ + rows_text(lines, lines.len()) + "</table>\n"@
}

/// Where in the table of `lines` the row of line `index` begins, counted in
/// characters and with the lines counted from zero.
pub open spec fn row_start(lines: Seq<Seq<char>>, index: nat) -> int {
    ("<table>\n"@.len() + rows_text(lines, index).len()) as int
}

/// The table has one row for each line and nothing else between its opening
/// and its closing line: the rows follow each other in the order of the
/// lines, none merged and none dropped, and the row of line `index`, counted
/// from zero, carries the number `index + 1`.
pub proof fn lemma_table_rows(lines: Seq<Seq<char>>, index: nat)
    requires
        index < lines.len(),
    ensures
        row_start(lines, 0) == "<table>\n"@.len(),
        row_start(lines, lines.len()) + "</table>\n"@.len() == table_text(lines).len(),
        row_start(lines, index) <= row_start(lines, index + 1) <= row_start(lines, lines.len()),
        table_text(lines).subrange(row_start(lines, index), row_start(lines, index + 1))
            == row_text(index + 1, lines[index as int]),
{
    lemma_rows_prefix(lines, index + 1, lines.len());
    let opening = "<table>\n"@;
    let closing = "</table>\n"@;
    let before = rows_text(lines, index);
    let row = row_text(index + 1, lines[index as int]);
    let all = rows_text(lines, lines.len());
    assert(rows_text(lines, index + 1) == before + row);
    assert(all.subrange(0, (before.len() + row.len()) as int) == before + row);
    let both = all.subrange(0, (before.len() + row.len()) as int);
    let found = table_text(lines).subrange(row_start(lines, index), row_start(lines, index + 1));
    assert(found.len() == row.len());
    assert forall|k: int| 0 <= k < row.len() implies found[k] == row[k] by {
        assert(found[k] == all[before.len() + k]);
        assert(both[before.len() + k] == all[before.len() + k]);
        assert((before + row)[before.len() + k] == row[k]);
    }
    assert(found =~= row);
}

/// The table of no lines is its opening line and its closing line.
pub proof fn lemma_empty_table()
    ensures
        table_text(Seq::empty()) == "<table>\n</table>\n"@,
{
    reveal_strlit("<table>\n");
    reveal_strlit("</table>\n");
    reveal_strlit("<table>\n</table>\n");
    assert(table_text(Seq::empty()) =~= "<table>\n</table>\n"@);
}

/// The rows of fewer lines are the beginning of the rows of more.
proof fn lemma_rows_prefix(lines: Seq<Seq<char>>, fewer: nat, more: nat)
    requires
        fewer <= more,
    ensures
        rows_text(lines, fewer).len() <= rows_text(lines, more).len(),
        rows_text(lines, more).subrange(0, rows_text(lines, fewer).len() as int) == rows_text(
            lines,
            fewer,
        ),
    decreases more,
{
    if fewer < more {
        lemma_rows_prefix(lines, fewer, (more - 1) as nat);
        let shorter = rows_text(lines, (more - 1) as nat);
        assert(rows_text(lines, more).subrange(0, rows_text(lines, fewer).len() as int)
            =~= shorter.subrange(0, rows_text(lines, fewer).len() as int));
    } else {
        assert(rows_text(lines, more).subrange(0, rows_text(lines, more).len() as int)
            =~= rows_text(lines, more));
    }
}

/// Writes the table of `lines`: `<table>`, then for each line a row with its
/// number, counted from one, and its text, then `</table>`.
pub fn table_html(lines: &Vec<String>) -> (html: String)
    ensures
        html@ == table_text(texts(lines@)),
{
    let mut html: String = String::from_str("<table>\n");
    let mut i: usize = 0;
    while i < lines.len()
        invariant
            i <= lines.len(),
            html@ == "<table>\n"@ + rows_text(texts(lines@), i as nat),
        decreases lines.len() - i,
    {
        let number: String = decimal_string(i + 1);
        let ghost before = html@;
        html.append("<tr><td class=line-number>");
        html.append(number.as_str());
        html.append("</td><td class=line>");
        html.append(lines[i].as_str());
        html.append("</td></tr>\n");
        assert(html@ =~= before + row_text((i + 1) as nat, texts(lines@)[i as int]));
        i = i + 1;
    }
    html.append("</table>\n");
    html
}

} // verus!
