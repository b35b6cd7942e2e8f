use crate::text::{decimal, decimal_string, push_repeat, repeat_seq};
use vstd::prelude::*;
use vstd::string::*;

verus! {

/// A count that is shown as a row of marks: negative counts show none.
pub open spec fn marks(count: int) -> nat {
    if count > 0 {
        count as nat
    } else {
        0
    }
}

/// The lives line: one `@` per life, pushed right by as many blanks.
pub open spec fn spec_lives_text(lives: int) -> Seq<char> {
    "  "@ + repeat_seq(" "@, marks(lives)) + "Player: "@ + repeat_seq("@"@, marks(lives))
}

/// The bombs line: one `$` per bomb, pushed right by as many blanks.
pub open spec fn spec_bombs_text(bombs: int) -> Seq<char> {
    repeat_seq(" "@, marks(bombs)) + "Bomb: "@ + repeat_seq("$"@, marks(bombs))
}

/// A line that shows a number after a label, pushed right by one blank per
/// character of the number.
pub open spec fn spec_counter_text(label: Seq<char>, value: int) -> Seq<char> {
    " "@ + repeat_seq(" "@, decimal(value).len()) + label + decimal(value)
}

fn marks_of(count: i32) -> (n: usize)
    ensures
        n == marks(count as int),
{
    if count > 0 {
        count as usize
    } else {
        0
    }
}

/// The line that shows the lives.
pub fn lives_text(lives: i32) -> (text: String)
    ensures
        text@ == spec_lives_text(lives as int),
{
    let n = marks_of(lives);
    let mut text = String::new();
    text.append("  ");
    push_repeat(&mut text, " ", n);
    text.append("Player: ");
    push_repeat(&mut text, "@", n);
    assert(text@ =~= spec_lives_text(lives as int));
    text
}

/// The line that shows the bombs.
pub fn bombs_text(bombs: i32) -> (text: String)
    ensures
        text@ == spec_bombs_text(bombs as int),
{
    let n = marks_of(bombs);
    let mut text = String::new();
    push_repeat(&mut text, " ", n);
    text.append("Bomb: ");
    push_repeat(&mut text, "$", n);
    assert(text@ =~= spec_bombs_text(bombs as int));
    text
}

fn counter_text(label: &str, value: i32) -> (text: String)
    ensures
        text@ == spec_counter_text(label@, value as int),
{
    let num = decimal_string(value);
    let width = num.as_str().unicode_len();
    let mut text = String::new();
    text.append(" ");
    push_repeat(&mut text, " ", width);
    text.append(label);
    text.append(num.as_str());
    assert(text@ =~= spec_counter_text(label@, value as int));
    text
}

/// The line that shows the power.
pub fn powers_text(powers: i32) -> (text: String)
    ensures
        text@ == spec_counter_text("Power: "@, powers as int),
{
    counter_text("Power: ", powers)
}

/// The line that shows the graze count.
pub fn graze_text(graze: i32) -> (text: String)
    ensures
        text@ == spec_counter_text("Graze: "@, graze as int),
{
    counter_text("Graze: ", graze)
}

/// The line that shows the points.
pub fn points_text(points: i32) -> (text: String)
    ensures
        text@ == spec_counter_text("Point: "@, points as int),
{
    counter_text("Point: ", points)
}

/// A laser's beam as text, one row per line: rows that have faded are
/// blank, rows the sweep has reached show `V`, rows it has not show `!`.
pub open spec fn spec_laser_text(total_rows: nat, rows_to_replace: nat, rows_decays: nat) -> Seq<
    char,
> {
    repeat_seq(" \n"@, rows_decays) + repeat_seq(
        "V\n"@,
        (rows_to_replace - rows_decays) as nat,
    ) + repeat_seq("!\n"@, (total_rows - rows_to_replace) as nat)
}

/// Draws a laser's beam of `total_rows` rows, of which the sweep has reached
/// `rows_to_replace` and `rows_decays` have faded.
pub fn laser_text(total_rows: usize, rows_to_replace: usize, rows_decays: usize) -> (text: String)
    requires
        rows_decays <= rows_to_replace <= total_rows,
    ensures
        text@ == spec_laser_text(total_rows as nat, rows_to_replace as nat, rows_decays as nat),
{
    let mut text = String::new();
    push_repeat(&mut text, " \n", rows_decays);
    push_repeat(&mut text, "V\n", rows_to_replace - rows_decays);
    push_repeat(&mut text, "!\n", total_rows - rows_to_replace);
    assert(text@ =~= spec_laser_text(
        total_rows as nat,
        rows_to_replace as nat,
        rows_decays as nat,
    ));
    text
}

/// A horizontal edge of the frame round the field and the side panel:
/// corners with `left` dashes over the field and `right` dashes over the
/// panel.
pub open spec fn spec_horizontal_line(left: nat, right: nat) -> Seq<char> {
    "+"@ + repeat_seq("-"@, left) + "+"@ + repeat_seq("-"@, right) + "+"@
}

/// Draws a horizontal edge of the frame.
pub fn horizontal_line(left: usize, right: usize) -> (line: String)
    ensures
        line@ == spec_horizontal_line(left as nat, right as nat),
{
    let mut line = String::new();
    line.append("+");
    push_repeat(&mut line, "-", left);
    line.append("+");
    push_repeat(&mut line, "-", right);
    line.append("+");
    assert(line@ =~= spec_horizontal_line(left as nat, right as nat));
    line
}

/// Draws a vertical edge of the frame: `rows` bars, one per line.
pub fn vertical_line(rows: usize) -> (line: String)
    ensures
        line@ == repeat_seq("|\n"@, rows as nat),
{
    let mut line = String::new();
    push_repeat(&mut line, "|\n", rows);
    assert(line@ =~= repeat_seq("|\n"@, rows as nat));
    line
}

} // verus!
