//! The interactive selector's pure half: Unicode-aware column widths,
//! aligned table rendering, and validation of confirmation and numeric
//! choice input.  The surrounding program prints the lines and reads input;
//! every decision about what they mean is made and proved here.

use vstd::prelude::*;
use vstd::string::StringExecFns;
use vstd::string::StrSliceExecFns;
use unicode_segmentation::UnicodeSegmentation;
use crate::digits::{all_digits, dec_chars, dec_value, u64_to_string};
use crate::text::{is_space, str_eq, trim, trim_back, trim_front, trim_spec};
use crate::types::Listable;

verus! {

/// The number of extended grapheme clusters of a character sequence: an
/// entity name's display width for alignment purposes.
pub uninterp spec fn grapheme_count_of(s: Seq<char>) -> nat;

/// Relies on unicode_segmentation's `UnicodeSegmentation::graphemes`, which
/// segments a string into its extended grapheme clusters; the segmentation
/// depends on the characters alone, and the clusters of an empty string are
/// none.
#[verifier::external_body]
fn grapheme_count(s: &str) -> (r: usize)
    ensures
        r == grapheme_count_of(s@),
        s@.len() == 0 ==> r == 0,
{
    s.graphemes(true).count()
}

/// The display width of column `c` over the first `upto` rows: the largest
/// grapheme count of a value cell in that column.
pub open spec fn col_width(rows: Seq<Seq<(Seq<char>, Seq<char>)>>, c: int, upto: int) -> nat
    decreases upto,
{
    if upto <= 0 {
        0
    } else {
        let prev = col_width(rows, c, upto - 1);
        let cur = grapheme_count_of(rows[upto - 1][c].0);
        if cur > prev {
            cur
        } else {
            prev
        }
    }
}

/// The widths of all columns of a homogeneous batch of rows.
pub open spec fn table_widths(rows: Seq<Seq<(Seq<char>, Seq<char>)>>) -> Seq<nat> {
    Seq::new(rows[0].len(), |c: int| col_width(rows, c, rows.len() as int))
}

/// The usize widths as mathematical naturals.
pub open spec fn nats(ws: Seq<usize>) -> Seq<nat> {
    Seq::new(ws.len(), |i: int| ws[i] as nat)
}

/// Computes every column's display width, exactly as [`table_widths`] says.
pub fn column_widths(rows: &Vec<Vec<(String, String)>>) -> (r: Vec<usize>)
    requires
        rows@.len() >= 1,
        forall|i: int|
            0 <= i < rows@.len() ==> #[trigger] rows.deep_view()[i].len()
                == rows.deep_view()[0].len(),
    ensures
        nats(r@) == table_widths(rows.deep_view()),
{
    let ghost rdv = rows.deep_view();
    let ncols = rows[0].len();
    proof {
        assert(rdv[0].len() == rows@[0].deep_view().len());
    }
    let mut ws: Vec<usize> = Vec::new();
    let mut c: usize = 0;
    while c < ncols
        invariant
            c <= ncols,
            rdv == rows.deep_view(),
            rows@.len() >= 1,
            ncols == rdv[0].len(),
            forall|i: int| 0 <= i < rdv.len() ==> #[trigger] rdv[i].len() == ncols,
            ws@.len() == c,
            forall|k: int| 0 <= k < c ==> #[trigger] ws@[k] == col_width(rdv, k, rdv.len() as int),
        decreases ncols - c,
    {
        let mut w: usize = 0;
        let mut i: usize = 0;
        while i < rows.len()
            invariant
                i <= rows@.len(),
                c < ncols,
                rdv == rows.deep_view(),
                ncols == rdv[0].len(),
                forall|k: int| 0 <= k < rdv.len() ==> #[trigger] rdv[k].len() == ncols,
                w == col_width(rdv, c as int, i as int),
            decreases rows@.len() - i,
        {
            proof {
                assert(rdv[i as int] == rows@[i as int].deep_view());
                assert(rdv[i as int][c as int].0 == rows@[i as int]@[c as int].0@);
            }
            let g = grapheme_count(rows[i][c].0.as_str());
            if g > w {
                w = g;
            }
            i = i + 1;
        }
        ws.push(w);
        c = c + 1;
    }
    proof {
        assert(nats(ws@) =~= table_widths(rdv));
    }
    ws
}

/// A sequence of `n` spaces.
pub open spec fn spaces(n: nat) -> Seq<char>
    decreases n,
{
    if n == 0 {
        Seq::empty()
    } else {
        spaces((n - 1) as nat).push(' ')
    }
}

/// Splitting a run of spaces.
pub proof fn lemma_spaces_add(a: nat, b: nat)
    ensures
        spaces(a + b) == spaces(a) + spaces(b),
    decreases b,
{
    if b == 0 {
        assert(spaces(a) + spaces(0) =~= spaces(a));
    } else {
        lemma_spaces_add(a, (b - 1) as nat);
        assert(spaces(a) + spaces((b - 1) as nat).push(' ') =~= (spaces(a) + spaces(
            (b - 1) as nat,
        )).push(' '));
    }
}

/// Appends `n` spaces.
fn append_spaces(s: &mut String, n: usize)
    ensures
        final(s)@ == old(s)@ + spaces(n as nat),
{
    let mut j: usize = 0;
    proof {
        assert(old(s)@ + spaces(0) =~= old(s)@);
    }
    while j < n
        invariant
            j <= n,
            s@ == old(s)@ + spaces(j as nat),
        decreases n - j,
    {
        s.append(" ");
        proof {
            reveal_strlit(" ");
            assert(old(s)@ + spaces(j as nat) + " "@ =~= old(s)@ + spaces(j as nat + 1));
        }
        j = j + 1;
    }
}

/// One table cell: the text, left-aligned to column width `w`, then the
/// three-space gutter; text wider than `w` is never truncated, and keeps
/// whatever part of the gutter the overhang leaves.
pub open spec fn cell(s: Seq<char>, w: nat) -> Seq<char> {
    let g = grapheme_count_of(s);
    if g <= w {
        s + spaces((w - g + 3) as nat)
    } else if g == w + 1 {
        s + spaces(2)
    } else if g == w + 2 {
        s + spaces(1)
    } else {
        s
    }
}

/// The first few space runs, written out.
proof fn lemma_spaces_small()
    ensures
        spaces(1) == seq![' '],
        spaces(2) == seq![' ', ' '],
        spaces(3) == seq![' ', ' ', ' '],
{
    assert(spaces(0) =~= Seq::<char>::empty());
    assert(spaces(1) =~= seq![' ']);
    assert(spaces(2) =~= seq![' ', ' ']);
    assert(spaces(3) =~= seq![' ', ' ', ' ']);
}

/// Appends one cell, exactly as [`cell`] says.
fn append_cell(s: &mut String, v: &str, w: usize)
    ensures
        final(s)@ == old(s)@ + cell(v@, w as nat),
{
    s.append(v);
    let g = grapheme_count(v);
    if g <= w {
        append_spaces(s, w - g);
        s.append("   ");
        proof {
            reveal_strlit("   ");
            lemma_spaces_small();
            assert("   "@ =~= spaces(3));
            lemma_spaces_add((w - g) as nat, 3);
            assert(old(s)@ + v@ + spaces((w - g) as nat) + "   "@ =~= old(s)@ + cell(
                v@,
                w as nat,
            ));
        }
    } else {
        let over = g - w;
        if over == 1 {
            s.append("  ");
            proof {
                reveal_strlit("  ");
                lemma_spaces_small();
                assert("  "@ =~= spaces(2));
                assert(old(s)@ + v@ + "  "@ =~= old(s)@ + cell(v@, w as nat));
            }
        } else if over == 2 {
            s.append(" ");
            proof {
                reveal_strlit(" ");
                lemma_spaces_small();
                assert(" "@ =~= spaces(1));
                assert(old(s)@ + v@ + " "@ =~= old(s)@ + cell(v@, w as nat));
            }
        } else {
            proof {
                assert(old(s)@ + v@ =~= old(s)@ + cell(v@, w as nat));
            }
        }
    }
}

/// The row-number cell: the one-based number, right-aligned to the decimal
/// width of the batch size, followed by `") "`.
pub open spec fn number_cell(i: nat, width: nat) -> Seq<char> {
    let d = dec_chars(i);
    if d.len() <= width {
        spaces((width - d.len()) as nat) + d + ") "@
    } else {
        d + ") "@
    }
}

/// A run of `n` spaces has length `n`.
pub proof fn lemma_spaces_len(n: nat)
    ensures
        spaces(n).len() == n,
    decreases n,
{
    if n > 0 {
        lemma_spaces_len((n - 1) as nat);
    }
}

/// Every row-number cell of a batch of `n` entities is equally wide: the
/// decimal width of `n`, plus the two characters of `") "`.
pub proof fn lemma_number_cells_align(n: nat, i: nat)
    requires
        1 <= i <= n,
    ensures
        number_cell(i, dec_chars(n).len()).len() == dec_chars(n).len() + 2,
{
    crate::digits::lemma_dec_chars_len_le(i, n);
    let width = dec_chars(n).len();
    let d = dec_chars(i);
    lemma_spaces_len((width - d.len()) as nat);
    reveal_strlit(") ");
}

/// Appends the row-number cell, exactly as [`number_cell`] says.
fn append_number_cell(s: &mut String, i: u64, width: usize)
    ensures
        final(s)@ == old(s)@ + number_cell(i as nat, width as nat),
{
    let d = u64_to_string(i);
    let dlen = d.unicode_len();
    if dlen <= width {
        append_spaces(s, width - dlen);
    }
    s.append(d.as_str());
    s.append(") ");
    proof {
        if dec_chars(i as nat).len() <= width as nat {
            assert(old(s)@ + spaces((width - dlen) as nat) + d@ + ") "@ =~= old(s)@ + number_cell(
                i as nat,
                width as nat,
            ));
        } else {
            assert(old(s)@ + d@ + ") "@ =~= old(s)@ + number_cell(i as nat, width as nat));
        }
    }
}

/// The concatenated value cells of a row, from column `c` on.
pub open spec fn cells_from(row: Seq<(Seq<char>, Seq<char>)>, ws: Seq<nat>, c: int) -> Seq<char>
    decreases row.len() - c,
{
    if c < 0 || c >= row.len() {
        Seq::empty()
    } else {
        cell(row[c].0, ws[c]) + cells_from(row, ws, c + 1)
    }
}

/// The concatenated label cells of a row, from column `c` on.
pub open spec fn labels_from(row: Seq<(Seq<char>, Seq<char>)>, ws: Seq<nat>, c: int) -> Seq<char>
    decreases row.len() - c,
{
    if c < 0 || c >= row.len() {
        Seq::empty()
    } else {
        cell(row[c].1, ws[c]) + labels_from(row, ws, c + 1)
    }
}

/// The header: blanks under the row-number column, then the aligned labels.
pub open spec fn header_line(row0: Seq<(Seq<char>, Seq<char>)>, ws: Seq<nat>, width: nat) -> Seq<
    char,
> {
    spaces(width + 2) + labels_from(row0, ws, 0)
}

/// One entity's line: its one-based number, then its aligned value cells.
pub open spec fn row_line(
    row: Seq<(Seq<char>, Seq<char>)>,
    ws: Seq<nat>,
    i: nat,
    width: nat,
) -> Seq<char> {
    number_cell(i, width) + cells_from(row, ws, 0)
}

/// The whole table: a header line, then one line per entity, aligned by
/// the columns' display widths.
pub open spec fn table_lines(rows: Seq<Seq<(Seq<char>, Seq<char>)>>) -> Seq<Seq<char>> {
    let ws = table_widths(rows);
    let width = dec_chars(rows.len()).len();
    Seq::new(
        rows.len() + 1,
        |k: int|
            if k == 0 {
                header_line(rows[0], ws, width)
            } else {
                row_line(rows[k - 1], ws, k as nat, width)
            },
    )
}

/// Renders a homogeneous batch of rows, exactly as [`table_lines`] says.
#[verifier::loop_isolation(false)]
pub fn render_table(rows: &Vec<Vec<(String, String)>>) -> (r: Vec<String>)
    requires
        rows@.len() >= 1,
        forall|i: int|
            0 <= i < rows@.len() ==> #[trigger] rows.deep_view()[i].len()
                == rows.deep_view()[0].len(),
    ensures
        r.deep_view() == table_lines(rows.deep_view()),
{
    let ghost rdv = rows.deep_view();
    let ghost wsn = table_widths(rdv);
    let ws = column_widths(rows);
    let count = rows.len();
    let count_str = u64_to_string(count as u64);
    let width = count_str.unicode_len();
    let mut lines: Vec<String> = Vec::new();
    let mut h = String::new();
    append_spaces(&mut h, width);
    h.append("  ");
    proof {
        reveal_strlit("  ");
        lemma_spaces_small();
        lemma_spaces_add(width as nat, 2);
        assert(h@ =~= spaces(width as nat + 2));
    }
    let ncols = rows[0].len();
    proof {
        assert(rdv[0].len() == rows@[0].deep_view().len());
        assert(nats(ws@).len() == table_widths(rdv).len());
        assert(ws@.len() == ncols);
        assert(wsn == nats(ws@));
    }
    let mut c: usize = 0;
    while c < ncols
        invariant
            c <= ncols,
            h@ + labels_from(rdv[0], wsn, c as int) == header_line(rdv[0], wsn, width as nat),
        decreases ncols - c,
    {
        proof {
            assert(rdv[0][c as int].1 == rows@[0]@[c as int].1@);
            assert(wsn[c as int] == ws@[c as int] as nat);
        }
        append_cell(&mut h, rows[0][c].1.as_str(), ws[c]);
        c = c + 1;
    }
    proof {
        assert(h@ + Seq::<char>::empty() =~= h@);
        assert(lines.deep_view() =~= Seq::<Seq<char>>::empty());
    }
    lines.push(h);
    proof {
        assert(lines.deep_view() =~= table_lines(rdv).subrange(0, 1));
    }
    let mut i: usize = 0;
    while i < count
        invariant
            i <= count,
            lines.deep_view() == table_lines(rdv).subrange(0, i + 1),
        decreases count - i,
    {
        let mut line = String::new();
        append_number_cell(&mut line, (i + 1) as u64, width);
        let mut c2: usize = 0;
        while c2 < ncols
            invariant
                c2 <= ncols,
                i < count,
                line@ + cells_from(rdv[i as int], wsn, c2 as int) == row_line(
                    rdv[i as int],
                    wsn,
                    i as nat + 1,
                    width as nat,
                ),
            decreases ncols - c2,
        {
            proof {
                assert(rdv[i as int] == rows@[i as int].deep_view());
                assert(rdv[i as int][c2 as int].0 == rows@[i as int]@[c2 as int].0@);
                assert(wsn[c2 as int] == ws@[c2 as int] as nat);
            }
            append_cell(&mut line, rows[i][c2].0.as_str(), ws[c2]);
            c2 = c2 + 1;
        }
        proof {
            assert(line@ + Seq::<char>::empty() =~= line@);
        }
        lines.push(line);
        i = i + 1;
        proof {
            assert(lines.deep_view() =~= table_lines(rdv).subrange(0, i + 1));
        }
    }
    proof {
        assert(table_lines(rdv).subrange(0, count + 1) =~= table_lines(rdv));
    }
    lines
}

/// The confirmation prompt for a single entity.
pub open spec fn confirm_prompt(name: Seq<char>) -> Seq<char> {
    "Want to watch "@ + name + "? [y/N]"@
}

/// Builds the confirmation prompt, exactly as [`confirm_prompt`] says.
pub fn confirm_prompt_string(name: &str) -> (r: String)
    ensures
        r@ == confirm_prompt(name@),
{
    let mut s = String::from_str("Want to watch ");
    s.append(name);
    s.append("? [y/N]");
    s
}

/// The instruction line printed above a table that awaits a numeric choice.
pub open spec fn choose_line(n: nat) -> Seq<char> {
    "Choose by typing the number next to the option [1 - "@ + dec_chars(n) + "]"@
}

/// Builds the instruction line, exactly as [`choose_line`] says.
pub fn choose_line_string(count: usize) -> (r: String)
    ensures
        r@ == choose_line(count as nat),
{
    let mut s = String::from_str("Choose by typing the number next to the option [1 - ");
    let d = u64_to_string(count as u64);
    s.append(d.as_str());
    s.append("]");
    s
}

/// The notice printed before re-prompting after rejected input.
pub fn retry_notice() -> (r: String)
    ensures
        r@ == "Try again!\n"@,
{
    String::from_str("Try again!\n")
}

/// What the selector awaits after its opening lines were printed.
#[derive(Debug, PartialEq)]
pub enum ChoicePhase {
    /// Exactly one entity and no info flag: awaiting a yes/no line.
    AwaitConfirm,
    /// Several entities and no info flag: awaiting a numeric line.
    AwaitNumber,
    /// Info-only mode: nothing is awaited and nothing is read.
    DoneInfo,
}

/// The selector's opening: the lines to print and the phase entered.
#[derive(Debug, PartialEq)]
pub struct ChoiceScreen {
    pub lines: Vec<String>,
    pub phase: ChoicePhase,
}

/// The `(value, label)` rows of a batch of entities, in order.
pub open spec fn spec_rows<T: Listable>(items: Seq<T>) -> Seq<Seq<(Seq<char>, Seq<char>)>> {
    Seq::new(items.len(), |i: int| items[i].spec_fields())
}

/// Opens a selection round over a non-empty batch.
///
/// In info-only mode the table alone is rendered and nothing will be read;
/// with a single entity the confirmation prompt is rendered; otherwise the
/// instruction line and the table are rendered and a number is awaited.
pub fn begin_choice<T: Listable>(items: &Vec<T>, info: bool) -> (r: ChoiceScreen)
    requires
        items@.len() >= 1,
    ensures
        info ==> r.phase is DoneInfo && r.lines.deep_view() == table_lines(spec_rows(items@)),
        !info && items@.len() == 1 ==> r.phase is AwaitConfirm && r.lines.deep_view() == seq![
            confirm_prompt(items@[0].spec_name()),
        ],
        !info && items@.len() >= 2 ==> r.phase is AwaitNumber && r.lines.deep_view() == seq![
            choose_line(items@.len()),
        ] + table_lines(spec_rows(items@)),
{
    let n = items.len();
    if n == 1 && !info {
        let nm = items[0].name();
        let p = confirm_prompt_string(nm.as_str());
        let mut lines: Vec<String> = Vec::new();
        lines.push(p);
        proof {
            assert(lines.deep_view() =~= seq![confirm_prompt(items@[0].spec_name())]);
        }
        return ChoiceScreen { lines, phase: ChoicePhase::AwaitConfirm };
    }
    let mut rows: Vec<Vec<(String, String)>> = Vec::new();
    let mut i: usize = 0;
    while i < n
        invariant
            i <= n,
            n == items@.len(),
            rows@.len() == i,
            forall|j: int| 0 <= j < i ==> #[trigger] rows.deep_view()[j] == spec_rows(items@)[j],
        decreases n - i,
    {
        let f = items[i].fields();
        let ghost pre = rows.deep_view();
        rows.push(f);
        proof {
            assert(rows.deep_view() =~= pre.push(f.deep_view()));
        }
        i = i + 1;
    }
    proof {
        assert(rows.deep_view() =~= spec_rows(items@));
        assert forall|k: int|
            0 <= k < rows@.len() implies #[trigger] rows.deep_view()[k].len()
            == rows.deep_view()[0].len() by {
            items@[k].lemma_field_count();
            items@[0].lemma_field_count();
        }
    }
    let table = render_table(&rows);
    if info {
        ChoiceScreen { lines: table, phase: ChoicePhase::DoneInfo }
    } else {
        let mut lines: Vec<String> = Vec::new();
        let head = choose_line_string(n);
        lines.push(head);
        let mut t = table;
        let ghost tdv = t.deep_view();
        lines.append(&mut t);
        proof {
            assert(lines.deep_view() =~= seq![choose_line(items@.len())] + tdv);
        }
        ChoiceScreen { lines, phase: ChoicePhase::AwaitNumber }
    }
}

/// What one line of input means at the confirmation prompt.
#[derive(Debug, PartialEq)]
pub enum ConfirmStep {
    /// The trimmed line was exactly `y`: the entity is selected.
    Accept,
    /// The trimmed line was exactly `N`: the user declined.
    Decline,
    /// Anything else: print the retry notice and re-prompt.
    RetryPrompt,
}

/// The meaning of one confirmation line: `y` accepts, `N` declines,
/// anything else re-prompts, after trimming.
pub open spec fn confirm_decision(line: Seq<char>) -> ConfirmStep {
    let t = trim_spec(line);
    if t == "y"@ {
        ConfirmStep::Accept
    } else if t == "N"@ {
        ConfirmStep::Decline
    } else {
        ConfirmStep::RetryPrompt
    }
}

/// Classifies one confirmation line, exactly as [`confirm_decision`] says.
pub fn confirm_step(line: &str) -> (r: ConfirmStep)
    ensures
        r == confirm_decision(line@),
{
    let t = trim(line);
    if str_eq(t, "y") {
        ConfirmStep::Accept
    } else if str_eq(t, "N") {
        ConfirmStep::Decline
    } else {
        ConfirmStep::RetryPrompt
    }
}

/// What one line of input means at the numeric prompt.
#[derive(Debug, PartialEq)]
pub enum NumberStep {
    /// An in-range number `k`: the entity at index `k - 1` is selected.
    Chosen(usize),
    /// Out of range or not numeric: print the retry notice and re-prompt.
    RetryNumber,
}

/// The non-negative integer a trimmed line denotes, if it is numeric: all
/// digits, or a leading plus sign followed by digits.
pub open spec fn numeric_choice(t: Seq<char>) -> Option<nat> {
    if t.len() >= 1 && t[0] == '+' {
        let d = t.drop_first();
        if d.len() >= 1 && all_digits(d) {
            Some(dec_value(d))
        } else {
            None
        }
    } else if t.len() >= 1 && all_digits(t) {
        Some(dec_value(t))
    } else {
        None
    }
}

/// The meaning of one numeric-choice line against a batch of `count`
/// entities: a number `k` with `1 <= k <= count` selects the entity at
/// index `k - 1`; anything else re-prompts.
pub open spec fn number_decision(line: Seq<char>, count: int) -> NumberStep {
    match numeric_choice(trim_spec(line)) {
        Some(v) => if 1 <= v <= count {
            NumberStep::Chosen((v - 1) as usize)
        } else {
            NumberStep::RetryNumber
        },
        None => NumberStep::RetryNumber,
    }
}

/// Classifies one numeric-choice line, exactly as [`number_decision`] says.
pub fn number_step(line: &str, count: usize) -> (r: NumberStep)
    ensures
        r == number_decision(line@, count as int),
{
    let t = trim(line);
    let tl = t.unicode_len();
    let body = if tl >= 1 && t.get_char(0) == '+' {
        let b = t.substring_char(1, tl);
        proof {
            assert(b@ =~= t@.drop_first());
        }
        b
    } else {
        t
    };
    match crate::digits::parse_u64(body) {
        Some(v) => {
            if 1 <= v && v <= count as u64 {
                NumberStep::Chosen((v - 1) as usize)
            } else {
                NumberStep::RetryNumber
            }
        },
        None => NumberStep::RetryNumber,
    }
}

/// Typing the numeral of an in-range `k` at a batch of `count` entities
/// selects the entity at index `k - 1`.
pub proof fn lemma_numeral_selects(count: int, k: nat)
    requires
        1 <= k <= count,
        count <= usize::MAX,
    ensures
        number_decision(dec_chars(k), count) == NumberStep::Chosen((k - 1) as usize),
{
    lemma_numeral_parses(k);
}

/// Typing zero, or any numeral above the batch size, is rejected and
/// re-prompted.
pub proof fn lemma_numeral_rejected(count: int, k: nat)
    requires
        0 <= count,
        k == 0 || k > count,
    ensures
        number_decision(dec_chars(k), count) == NumberStep::RetryNumber,
{
    lemma_numeral_parses(k);
}

/// A bare numeral is left whole by trimming and denotes its own value.
proof fn lemma_numeral_parses(k: nat)
    ensures
        trim_spec(dec_chars(k)) == dec_chars(k),
        numeric_choice(dec_chars(k)) == Some(k),
{
    crate::digits::lemma_dec_chars_value(k);
    let d = dec_chars(k);
    assert(crate::digits::is_digit(d[0]));
    assert(crate::digits::is_digit(d.last()));
    assert(!is_space(d[0]));
    assert(!is_space(d.last()));
    assert(trim_front(d) == d);
    assert(trim_back(d) == d);
    assert(('+' as u32) == 43);
    assert(d[0] != '+');
}

} // verus!
