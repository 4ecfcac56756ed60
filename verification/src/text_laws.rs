//! What the written texts say: numbers read back as the values they were
//! written from, and joined lists split back into their items.

use vstd::prelude::*;
use crate::text::{decimal_digits, digit_char, int_text, joined};
use crate::{cell_text, entity_text, row_text, rows_text};

verus! {

/// `c` is one of the characters `0` to `9`.
pub open spec fn is_digit(c: char) -> bool {
    48 <= c as int <= 57
}

/// The number that a string of decimal digits reads as, most significant
/// digit first.
pub open spec fn digits_value(s: Seq<char>) -> int
    decreases s.len(),
{
    if s.len() == 0 {
        0
    } else {
        10 * digits_value(s.drop_last()) + (s.last() as int - 48)
    }
}

/// The number that a decimal text reads as: a leading `-` negates the digits
/// after it.
pub open spec fn signed_value(s: Seq<char>) -> int {
    if s.len() > 0 && s[0] == '-' {
        -digits_value(s.skip(1))
    } else {
        digits_value(s)
    }
}

/// The digit character for `d` is the character `0` moved up by `d`.
pub proof fn digit_char_is_ascii_digit(d: int)
    requires
        0 <= d < 10,
    ensures
        digit_char(d) as int == 48 + d,
        is_digit(digit_char(d)),
{
}

/// The decimal text of a natural number is made of digits, has no leading
/// zero (unless it is `0` itself) and reads back as the number.
pub proof fn decimal_digits_read_back(n: nat)
    ensures
        decimal_digits(n).len() >= 1,
        forall|i: int| 0 <= i < decimal_digits(n).len() ==> is_digit(#[trigger] decimal_digits(n)[i]),
        n > 0 ==> decimal_digits(n)[0] != '0',
        digits_value(decimal_digits(n)) == n,
    decreases n,
{
    if n < 10 {
        digit_char_is_ascii_digit(n as int);
        assert(decimal_digits(n).drop_last() =~= Seq::<char>::empty());
        assert(digits_value(Seq::<char>::empty()) == 0);
        assert(digits_value(decimal_digits(n)) == 10 * digits_value(decimal_digits(n).drop_last()) + (
        decimal_digits(n).last() as int - 48));
    } else {
        decimal_digits_read_back(n / 10);
        digit_char_is_ascii_digit((n % 10) as int);
        let s = decimal_digits(n);
        assert(s.drop_last() =~= decimal_digits(n / 10));
        assert forall|i: int| 0 <= i < s.len() implies is_digit(#[trigger] s[i]) by {
            if i < s.len() - 1 {
                assert(s[i] == decimal_digits(n / 10)[i]);
            }
        }
        assert(s[0] == decimal_digits(n / 10)[0]);
        assert(n == 10 * (n / 10) + n % 10);
        assert(digits_value(s) == 10 * digits_value(s.drop_last()) + (s.last() as int - 48));
    }
}

/// Writing `10 * q + d` writes `q` and then the digit `d`.
pub proof fn decimal_digits_append(q: nat, d: nat)
    requires
        q > 0,
        d < 10,
    ensures
        decimal_digits(10 * q + d) == decimal_digits(q).push(digit_char(d as int)),
{
    let n = 10 * q + d;
    assert(n / 10 == q);
    assert(n % 10 == d);
}

/// The decimal text of an integer reads back as the integer, and a
/// negative one is `-` followed by the text of its magnitude.
pub proof fn int_text_read_back(i: int)
    ensures
        signed_value(int_text(i)) == i,
        i < 0 ==> int_text(i) == seq!['-'] + int_text(-i),
        i >= 0 ==> int_text(i) == decimal_digits(i as nat),
{
    if i < 0 {
        decimal_digits_read_back((-i) as nat);
        let s = int_text(i);
        assert(s.skip(1) =~= decimal_digits((-i) as nat));
    } else {
        decimal_digits_read_back(i as nat);
        let s = decimal_digits(i as nat);
        digit_char_is_ascii_digit(0);
        assert(is_digit(s[0]));
    }
}

/// `s` does not contain the character `c`.
pub open spec fn free_of(s: Seq<char>, c: char) -> bool {
    forall|i: int| 0 <= i < s.len() ==> s[i] != c
}

/// The pieces of `s` between occurrences of `c`, in order (one empty piece
/// for an empty text).
pub open spec fn split_on(s: Seq<char>, c: char) -> Seq<Seq<char>>
    decreases s.len(),
{
    if s.len() == 0 {
        seq![Seq::empty()]
    } else {
        let p = split_on(s.drop_last(), c);
        if s.last() == c {
            p.push(Seq::empty())
        } else {
            p.update(p.len() - 1, p.last().push(s.last()))
        }
    }
}

proof fn split_on_nonempty(s: Seq<char>, c: char)
    ensures
        split_on(s, c).len() >= 1,
    decreases s.len(),
{
    if s.len() > 0 {
        split_on_nonempty(s.drop_last(), c);
    }
}

proof fn split_on_append_free(s: Seq<char>, f: Seq<char>, c: char)
    requires
        free_of(f, c),
    ensures
        split_on(s + f, c) == split_on(s, c).update(
            split_on(s, c).len() - 1,
            split_on(s, c).last() + f,
        ),
    decreases f.len(),
{
    let p = split_on(s, c);
    split_on_nonempty(s, c);
    if f.len() == 0 {
        assert(s + f =~= s);
        assert(p.last() + f =~= p.last());
        assert(p.update(p.len() - 1, p.last()) =~= p);
    } else {
        let g = f.drop_last();
        split_on_append_free(s, g, c);
        assert((s + f).drop_last() =~= s + g);
        assert((s + f).last() == f.last());
        assert((p.last() + g).push(f.last()) =~= p.last() + f);
        let q = p.update(p.len() - 1, p.last() + g);
        assert(q.update(q.len() - 1, q.last().push(f.last())) =~= p.update(
            p.len() - 1,
            p.last() + f,
        ));
    }
}

proof fn split_on_append_sep(s: Seq<char>, c: char)
    ensures
        split_on(s + seq![c], c) == split_on(s, c).push(Seq::empty()),
{
    assert((s + seq![c]).drop_last() =~= s);
}

/// Items that do not contain `c`, joined with `c`, split on `c` back into
/// the same items.
pub proof fn split_joined(parts: Seq<Seq<char>>, c: char)
    requires
        parts.len() >= 1,
        forall|i: int| 0 <= i < parts.len() ==> free_of(#[trigger] parts[i], c),
    ensures
        split_on(joined(parts, seq![c]), c) == parts,
    decreases parts.len(),
{
    let e = Seq::<char>::empty();
    if parts.len() == 1 {
        assert(free_of(parts[0], c));
        split_on_append_free(e, parts[0], c);
        assert(e + parts[0] =~= parts[0]);
        assert(split_on(e, c) =~= seq![e]);
        assert(e + parts[0] =~= parts[0]);
        assert(seq![e].update(0, e + parts[0]) =~= parts);
    } else {
        let init = parts.drop_last();
        assert forall|i: int| 0 <= i < init.len() implies free_of(#[trigger] init[i], c) by {
            assert(init[i] == parts[i]);
        }
        split_joined(init, c);
        let x = joined(init, seq![c]);
        assert(free_of(parts.last(), c));
        split_on_append_sep(x, c);
        split_on_append_free(x + seq![c], parts.last(), c);
        assert(joined(parts, seq![c]) == x + seq![c] + parts.last());
        let q = init.push(e);
        assert(e + parts.last() =~= parts.last());
        assert(q.update(q.len() - 1, q.last() + parts.last()) =~= parts);
    }
}

/// Joining one more item appends the separator and the item.
pub proof fn joined_push(parts: Seq<Seq<char>>, x: Seq<char>, sep: Seq<char>)
    ensures
        parts.len() == 0 ==> joined(parts.push(x), sep) == x,
        parts.len() > 0 ==> joined(parts.push(x), sep) == joined(parts, sep) + sep + x,
{
    assert(parts.push(x).drop_last() =~= parts);
    if parts.len() == 0 {
        assert(parts.push(x).len() == 1);
    }
}

/// One more result row adds one more line: the text of the rows so far, a
/// newline, and the new row's cells.
pub proof fn rows_text_push(rows: Seq<Vec<Option<String>>>, row: Vec<Option<String>>)
    ensures
        rows.len() == 0 ==> rows_text(rows.push(row)) == row_text(row@),
        rows.len() > 0 ==> rows_text(rows.push(row)) == rows_text(rows) + "\n"@ + row_text(row@),
{
    let f = |r: Vec<Option<String>>| row_text(r@);
    assert(rows.push(row).map_values(f) =~= rows.map_values(f).push(row_text(row@)));
    joined_push(rows.map_values(f), row_text(row@), "\n"@);
}

/// One more cell adds a tab and the cell's text (`NULL` when it has no
/// value).
pub proof fn row_text_push(row: Seq<Option<String>>, cell: Option<String>)
    ensures
        row.len() == 0 ==> row_text(row.push(cell)) == cell_text(cell),
        row.len() > 0 ==> row_text(row.push(cell)) == row_text(row) + "\t"@ + cell_text(cell),
{
    let f = |c: Option<String>| cell_text(c);
    assert(row.push(cell).map_values(f) =~= row.map_values(f).push(cell_text(cell)));
    joined_push(row.map_values(f), cell_text(cell), "\t"@);
}

/// The text of result rows has one line per row: split at newlines it gives
/// back each row's text, when no row's text holds a newline.
pub proof fn rows_text_lines(rows: Seq<Vec<Option<String>>>)
    requires
        rows.len() >= 1,
        forall|i: int| 0 <= i < rows.len() ==> free_of(row_text(#[trigger] rows[i]@), '\n'),
    ensures
        split_on(rows_text(rows), '\n') == rows.map_values(|r: Vec<Option<String>>| row_text(r@)),
{
    reveal_strlit("\n");
    assert("\n"@ =~= seq!['\n']);
    let lines = rows.map_values(|r: Vec<Option<String>>| row_text(r@));
    assert forall|i: int| 0 <= i < lines.len() implies free_of(#[trigger] lines[i], '\n') by {
        assert(lines[i] == row_text(rows[i]@));
    }
    split_joined(lines, '\n');
}

/// A row's text has one field per cell: split at tabs it gives back each
/// cell's text, when no cell's text holds a tab.
pub proof fn row_text_cells(row: Seq<Option<String>>)
    requires
        row.len() >= 1,
        forall|i: int| 0 <= i < row.len() ==> free_of(cell_text(#[trigger] row[i]), '\t'),
    ensures
        split_on(row_text(row), '\t') == row.map_values(|c: Option<String>| cell_text(c)),
{
    reveal_strlit("\t");
    assert("\t"@ =~= seq!['\t']);
    let cells = row.map_values(|c: Option<String>| cell_text(c));
    assert forall|i: int| 0 <= i < cells.len() implies free_of(#[trigger] cells[i], '\t') by {
        assert(cells[i] == cell_text(row[i]));
    }
    split_joined(cells, '\t');
}

/// The entity query text selects every field: between `SELECT ` and
/// ` FROM <ident> FOR JSON PATH;` stands a list that, split at commas, gives
/// back the field names (when no name holds a comma).
pub proof fn entity_text_selects_every_field(fields: Seq<Seq<char>>, ident: Seq<char>)
    requires
        fields.len() >= 1,
        forall|i: int| 0 <= i < fields.len() ==> free_of(#[trigger] fields[i], ','),
    ensures
        exists|list: Seq<char>|
            entity_text(fields, ident) == "SELECT "@ + list + " FROM "@ + ident + " FOR JSON PATH;"@
                && #[trigger] split_on(list, ',') == fields,
{
    reveal_strlit(",");
    assert(","@ =~= seq![',']);
    split_joined(fields, ',');
    let list = joined(fields, ","@);
    assert(split_on(list, ',') == fields);
}

} // verus!
