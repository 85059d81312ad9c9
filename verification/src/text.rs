//! The status line at the bottom of the window.

use vstd::prelude::*;

use crate::shared::Mode;

verus! {

/// The character of a decimal digit.
pub open spec fn digit(d: int) -> char
    recommends
        0 <= d < 10,
{
    (48 + d) as char
}

/// A natural number in decimal notation.
pub open spec fn digits(n: nat) -> Seq<char>
    decreases n,
{
    if n < 10 {
        seq![digit(n as int)]
    } else {
        digits(n / 10).push(digit((n % 10) as int))
    }
}

/// An integer in decimal notation, with a minus sign if it is negative.
pub open spec fn decimal(n: int) -> Seq<char> {
    if n < 0 {
        seq!['-'] + digits((-n) as nat)
    } else {
        digits(n as nat)
    }
}

/// A digit as text.
fn digit_text(d: u32) -> (t: &'static str)
    requires
        d < 10,
    ensures
        t@ == seq![digit(d as int)],
{
    proof {
        reveal_strlit("0");
        reveal_strlit("1");
        reveal_strlit("2");
        reveal_strlit("3");
        reveal_strlit("4");
        reveal_strlit("5");
        reveal_strlit("6");
        reveal_strlit("7");
        reveal_strlit("8");
        reveal_strlit("9");
    }
    let t: &'static str = match d {
        0 => "0",
        1 => "1",
        2 => "2",
        3 => "3",
        4 => "4",
        5 => "5",
        6 => "6",
        7 => "7",
        8 => "8",
        _ => "9",
    };
    assert(t@ =~= seq![digit(d as int)]);
    t
}

/// Appends a natural number in decimal notation.
fn push_digits(out: &mut String, n: u32)
    ensures
        final(out)@ == old(out)@ + digits(n as nat),
    decreases n,
{
    if n >= 10 {
        push_digits(out, n / 10);
    }
    out.append(digit_text(n % 10));
    assert(out@ =~= old(out)@ + digits(n as nat));
}

/// Appends an integer in decimal notation.
pub fn push_decimal(out: &mut String, n: i32)
    ensures
        final(out)@ == old(out)@ + decimal(n as int),
{
    if n < 0 {
        proof {
            reveal_strlit("-");
        }
        out.append("-");
        assert(out@ =~= old(out)@ + seq!['-']);
        push_digits(out, (-(n as i64)) as u32);
        assert(out@ =~= old(out)@ + decimal(n as int));
    } else {
        push_digits(out, n as u32);
    }
}

/// How a capture mode is called in the status line.
pub open spec fn mode_name(mode: Mode) -> Seq<char> {
    match mode {
        Mode::Dxgi => "DXGI"@,
        Mode::Gdi => "GDI"@,
    }
}

/// The status line: frames per second, capture mode, which monitor of how many (counted from one),
/// and the controls. It ends with a zero character, as the text functions of GDI expect.
pub open spec fn status_line(
    fps: int,
    mode: Mode,
    output_index: int,
    output_count: int,
) -> Seq<char> {
    decimal(fps) + " fps  ["@ + mode_name(mode) + "]  mon "@ + decimal(output_index + 1) + "/"@
        + decimal(output_count) + "  wheel=resize  M=monitor  RMB/X=exit\0"@
}

/// Composes the status line; see [`status_line`].
pub fn overlay_text(fps: i32, mode: Mode, output_index: i32, output_count: i32) -> (text: String)
    requires
        output_index < i32::MAX,
    ensures
        text@ == status_line(fps as int, mode, output_index as int, output_count as int),
{
    let mut text: String = String::new();
    push_decimal(&mut text, fps);
    text.append(" fps  [");
    match mode {
        Mode::Dxgi => text.append("DXGI"),
        Mode::Gdi => text.append("GDI"),
    }
    text.append("]  mon ");
    push_decimal(&mut text, output_index + 1);
    text.append("/");
    push_decimal(&mut text, output_count);
    text.append("  wheel=resize  M=monitor  RMB/X=exit\0");
    assert(text@ =~= status_line(fps as int, mode, output_index as int, output_count as int));
    text
}

/// The number that a decimal notation of a natural number stands for.
pub open spec fn digits_value(s: Seq<char>) -> int
    decreases s.len(),
{
    if s.len() == 0 {
        0
    } else {
        10 * digits_value(s.drop_last()) + (s.last() as int - 48)
    }
}

/// The decimal notation says which number it is, and has no leading zero.
pub proof fn law_digits_denote_the_number(n: nat)
    ensures
        digits_value(digits(n)) == n,
        digits(n).len() > 0,
        n < 10 ==> digits(n).len() == 1,
        n > 0 ==> digits(n)[0] != '0',
        forall|i: int| 0 <= i < digits(n).len() ==> '0' <= #[trigger] digits(n)[i] <= '9',
    decreases n,
{
    if n < 10 {
        reveal_with_fuel(digits_value, 2);
        assert(seq![digit(n as int)].drop_last() =~= Seq::empty());
    } else {
        law_digits_denote_the_number(n / 10);
        assert(digits(n).drop_last() =~= digits(n / 10));
    }
}

/// The decimal notation of an integer says which number it is: its digits, behind a minus sign if
/// it is negative, stand for its distance from zero.
pub proof fn law_notation_denotes_the_number(n: int)
    ensures
        n >= 0 ==> digits_value(decimal(n)) == n && decimal(n)[0] != '-',
        n < 0 ==> decimal(n)[0] == '-' && digits_value(decimal(n).skip(1)) == -n,
        decimal(n).len() > 0,
        forall|i: int| 1 <= i < decimal(n).len() ==> '0' <= #[trigger] decimal(n)[i] <= '9',
{
    if n < 0 {
        law_digits_denote_the_number((-n) as nat);
        assert(decimal(n).skip(1) =~= digits((-n) as nat));
        assert forall|i: int| 1 <= i < decimal(n).len() implies '0' <= #[trigger] decimal(n)[i]
            <= '9' by {
            assert(decimal(n)[i] == digits((-n) as nat)[i - 1]);
        }
    } else {
        law_digits_denote_the_number(n as nat);
    }
}

/// `part` stands in `line` from position `at` on.
pub open spec fn stands_at(line: Seq<char>, at: int, part: Seq<char>) -> bool {
    &&& 0 <= at
    &&& at + part.len() <= line.len()
    &&& forall|i: int| 0 <= i < part.len() ==> line[at + i] == #[trigger] part[i]
}

/// The status line can be read off: it begins with the rate, names the capture mode in brackets,
/// then gives the selected monitor counted from one and how many there are, and ends with the
/// controls and a zero character.
pub proof fn law_status_line_can_be_read_off(
    fps: int,
    mode: Mode,
    output_index: int,
    output_count: int,
)
    ensures
        ({
            let line = status_line(fps, mode, output_index, output_count);
            let name = if mode == Mode::Dxgi {
                seq!['D', 'X', 'G', 'I']
            } else {
                seq!['G', 'D', 'I']
            };
            let after_rate = decimal(fps).len() as int;
            let at_name = after_rate + " fps  ["@.len();
            let after_name = at_name + name.len();
            let at_which = after_name + "]  mon "@.len();
            let after_which = at_which + decimal(output_index + 1).len();
            let after_many = after_which + 1 + decimal(output_count).len();
            let controls = "  wheel=resize  M=monitor  RMB/X=exit\0"@;
            &&& stands_at(line, 0, decimal(fps))
            &&& stands_at(line, after_rate, " fps  ["@)
            &&& stands_at(line, at_name, name)
            &&& stands_at(line, after_name, "]  mon "@)
            &&& stands_at(line, at_which, decimal(output_index + 1))
            &&& stands_at(line, after_which, seq!['/'])
            &&& stands_at(line, after_which + 1, decimal(output_count))
            &&& stands_at(line, after_many, controls)
            &&& line.len() == after_many + controls.len()
        }),
{
    reveal_strlit("DXGI");
    reveal_strlit("GDI");
    reveal_strlit("/");
    let name = if mode == Mode::Dxgi {
        seq!['D', 'X', 'G', 'I']
    } else {
        seq!['G', 'D', 'I']
    };
    assert(mode_name(mode) =~= name);
    assert("/"@ =~= seq!['/']);
}

} // verus!
