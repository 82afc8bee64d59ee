//! How second counts and activities are shown as text.

use vstd::prelude::*;
use vstd::string::*;
use crate::utils::hours_of;
use crate::utils::minutes_of;
use crate::utils::secs_to_hours_minutes;
use crate::utils::SecType;

verus! {

/// `String::push` appends the one character to the end of the string.
pub assume_specification[ String::push ](text: &mut String, ch: char)
    ensures
        final(text)@ == old(text)@.push(ch),
;

/// The character that shows the digit `d`: the digits follow one another
/// from `'0'` on.
pub open spec fn digit(d: nat) -> char {
    ('0' as nat + d) as char
}

/// `n` in decimal digits, without leading zeros.
pub open spec fn decimal(n: nat) -> Seq<char>
    decreases n,
{
    if n < 10 {
        seq![digit(n)]
    } else {
        decimal(n / 10).push(digit(n % 10))
    }
}

/// `n` in decimal digits, with a leading zero where it has one digit only.
pub open spec fn padded(n: nat) -> Seq<char> {
    if n < 10 {
        seq!['0', digit(n)]
    } else {
        decimal(n)
    }
}

/// `count` spaces.
pub open spec fn spaces(count: nat) -> Seq<char> {
    Seq::new(count, |i: int| ' ')
}

/// The width to which a name is filled in a listing.
pub const NAME_WIDTH: usize = 45;

/// A second count as hours and minutes, each of two digits at least, such
/// as `07h:30m`. The hours are all the whole hours in the count, however
/// many.
pub open spec fn hours_minutes(secs: nat) -> Seq<char> {
    padded(hours_of(secs)) + seq!['h', ':'] + padded(minutes_of(secs)) + seq!['m']
}

/// The line of an activity in a listing: the name, set to the right of a
/// field of `NAME_WIDTH` characters, a colon and a space, and the time spent
/// as hours, not padded, and minutes of two digits.
pub open spec fn time_line(name: Seq<char>, secs: nat) -> Seq<char> {
    let fill = if name.len() < NAME_WIDTH {
        (NAME_WIDTH - name.len()) as nat
    } else {
        0
    };
    spaces(fill) + name + seq![':', ' '] + decimal(hours_of(secs)) + seq!['h', ':'] + padded(
        minutes_of(secs),
    ) + seq!['m']
}

fn digit_char(d: u8) -> (ch: char)
    requires
        d < 10,
    ensures
        ch == digit(d as nat),
{
    (48u8 + d) as char
}

/// Appends `n` in decimal digits.
pub fn push_decimal(text: &mut String, n: u64)
    ensures
        final(text)@ == old(text)@ + decimal(n as nat),
    decreases n,
{
    if n >= 10 {
        push_decimal(text, n / 10);
    }
    text.push(digit_char((n % 10) as u8));
}

/// Appends `n` in decimal digits, two at least.
pub fn push_padded(text: &mut String, n: u64)
    ensures
        final(text)@ == old(text)@ + padded(n as nat),
{
    if n < 10 {
        text.push('0');
    }
    push_decimal(text, n);
}

/// Appends a second count as hours and minutes of two digits each.
pub fn push_hours_minutes(text: &mut String, secs: SecType)
    ensures
        final(text)@ == old(text)@ + hours_minutes(secs as nat),
{
    let hours: u64 = secs / 3600;
    let minutes: u8 = secs_to_hours_minutes(secs).1;
    push_padded(text, hours);
    text.push('h');
    text.push(':');
    push_padded(text, minutes as u64);
    text.push('m');
}

/// A second count as hours and minutes of two digits each.
pub fn hours_minutes_padded(secs: SecType) -> (text: String)
    ensures
        text@ == hours_minutes(secs as nat),
{
    let mut text = String::new();
    push_hours_minutes(&mut text, secs);
    text
}

/// The line of the activity `name`, on which `secs` seconds were spent, in a
/// listing.
pub fn time_line_text(name: &String, secs: SecType) -> (line: String)
    ensures
        line@ == time_line(name@, secs as nat),
{
    let hours: u64 = secs / 3600;
    let minutes: u8 = secs_to_hours_minutes(secs).1;
    let width = name.as_str().unicode_len();
    let mut line = String::new();
    let mut filled: usize = width;
    while filled < NAME_WIDTH
        invariant
            width <= filled,
            width < NAME_WIDTH ==> filled <= NAME_WIDTH,
            width >= NAME_WIDTH ==> filled == width,
            line@ =~= spaces((filled - width) as nat),
        decreases NAME_WIDTH - filled,
    {
        line.push(' ');
        filled += 1;
    }
    line.append(name.as_str());
    line.push(':');
    line.push(' ');
    push_decimal(&mut line, hours);
    line.push('h');
    line.push(':');
    push_padded(&mut line, minutes as u64);
    line.push('m');
    line
}

} // verus!
