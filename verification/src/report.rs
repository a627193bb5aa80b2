//! The report on the queue families of a device.

use crate::selector::PhysicalDeviceDescriptor;
use vstd::prelude::*;
use vstd::string::*;

verus! {

/// The character of the decimal digit `d`.
pub open spec fn digit_char(d: int) -> char {
    if d == 0 {
        '0'
    } else if d == 1 {
        '1'
    } else if d == 2 {
        '2'
    } else if d == 3 {
        '3'
    } else if d == 4 {
        '4'
    } else if d == 5 {
        '5'
    } else if d == 6 {
        '6'
    } else if d == 7 {
        '7'
    } else if d == 8 {
        '8'
    } else {
        '9'
    }
}

/// The decimal numeral of `n`, without leading zeros.
pub open spec fn decimal(n: nat) -> Seq<char>
    decreases n,
{
    if n < 10 {
        seq![digit_char(n as int)]
    } else {
        decimal(n / 10).push(digit_char((n % 10) as int))
    }
}

/// The line of the report for a family with `queues_count` queues.
pub open spec fn family_line(queues_count: nat) -> Seq<char> {
    "Found a queue family with "@ + decimal(queues_count) + " queue(s)"@
}

/// The numeral of one decimal digit.
fn digit_str(d: usize) -> (s: &'static str)
    requires
        d < 10,
    ensures
        s@ == seq![digit_char(d as int)],
{
    proof {
        reveal_strlit("0");
        reveal_strlit("1");
        reveal_strlit("2");
        reveal_strlit("3");
        reveal_strlit("4");
        reveal_strlit("5");
        reveal_strlit("6");
        reveal_strlit("7");
        reveal_strlit("8");
        reveal_strlit("9");
    }
    let s = if d == 0 {
        "0"
    } else if d == 1 {
        "1"
    } else if d == 2 {
        "2"
    } else if d == 3 {
        "3"
    } else if d == 4 {
        "4"
    } else if d == 5 {
        "5"
    } else if d == 6 {
        "6"
    } else if d == 7 {
        "7"
    } else if d == 8 {
        "8"
    } else {
        "9"
    };
    assert(s@ =~= seq![digit_char(d as int)]);
    s
}

/// Appends the decimal numeral of `n` to `text`.
fn push_decimal(text: &mut String, n: usize)
    ensures
        final(text)@ == old(text)@ + decimal(n as nat),
    decreases n,
{
    if n >= 10 {
        push_decimal(text, n / 10);
    }
    text.append(digit_str(n % 10));
    assert(final(text)@ =~= old(text)@ + decimal(n as nat));
}

/// The report on the queue families of `device`: one line for each family, in
/// the driver's order, that says how many queues the family offers. The caller
/// writes the lines to standard output.
pub fn print_vk_ques(device: &PhysicalDeviceDescriptor) -> (lines: Vec<String>)
    ensures
        lines@.len() == device@.len(),
        forall|i: int|
            0 <= i < device@.len() ==> (#[trigger] lines@[i])@ == family_line(
                device@[i].queues_count as nat,
            ),
{
    let mut lines: Vec<String> = Vec::new();
    let mut i: usize = 0;
    while i < device.families.len()
        invariant
            i <= device.families.len(),
            lines@.len() == i,
            forall|j: int|
                0 <= j < i ==> (#[trigger] lines@[j])@ == family_line(
                    device@[j].queues_count as nat,
                ),
        decreases device.families.len() - i,
    {
        let mut line = String::from_str("Found a queue family with ");
        push_decimal(&mut line, device.families[i].queues_count);
        line.append(" queue(s)");
        lines.push(line);
        i += 1;
    }
    lines
}

} // verus!
