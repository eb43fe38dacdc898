use vstd::prelude::*;
use vstd::string::StringExecFns;
use crate::color::{Colored, Elem};
use crate::text::{push_spaces, spaces};

verus! {

/// The scale in which a file size is displayed.
#[derive(Clone, Copy, Debug, PartialEq, Eq, Structural)]
pub enum Unit {
    Byte,
    Kilo,
    Mega,
    Giga,
    Tera,
}

/// A file size, scaled for display.
///
/// `value` is kept in units of 1/1024 of the displayed unit, so that the
/// displayed magnitude is always `value / 1024`, whatever the unit.
#[derive(Debug, PartialEq, Eq, Structural)]
pub struct Size {
    value: u64,
    unit: Unit,
}

/// What a `Size` stands for: the scaled value and the unit.
pub struct SizeView {
    pub value: nat,
    pub unit: Unit,
}

impl View for Size {
    type V = SizeView;

    closed spec fn view(&self) -> SizeView {
        SizeView { value: self.value as nat, unit: self.unit }
    }
}

pub open spec fn kib() -> nat {
    1024
}

pub open spec fn mib() -> nat {
    1024 * 1024
}

pub open spec fn gib() -> nat {
    1024 * 1024 * 1024
}

pub open spec fn tib() -> nat {
    1024 * 1024 * 1024 * 1024
}

/// The largest unit in which a byte length `len` is displayed.
pub open spec fn unit_of(len: nat) -> Unit {
    if len < kib() {
        Unit::Byte
    } else if len < mib() {
        Unit::Kilo
    } else if len < gib() {
        Unit::Mega
    } else if len < tib() {
        Unit::Giga
    } else {
        Unit::Tera
    }
}

/// The byte length `len` in units of 1/1024 of the unit it is displayed in.
pub open spec fn scaled_of(len: nat) -> nat {
    match unit_of(len) {
        Unit::Byte => len * 1024,
        Unit::Kilo => len,
        Unit::Mega => len / kib(),
        Unit::Giga => len / mib(),
        Unit::Tera => len / gib(),
    }
}

/// The size that displays a byte length `len`.
pub open spec fn size_of(len: nat) -> SizeView {
    SizeView { value: scaled_of(len), unit: unit_of(len) }
}

/// The character of a decimal digit `d < 10`.
pub open spec fn digit_char(d: nat) -> char {
    seq!['0', '1', '2', '3', '4', '5', '6', '7', '8', '9'][d as int]
}

/// The decimal notation of `n`, without leading zeros.
pub open spec fn decimal(n: nat) -> Seq<char>
    decreases n,
{
    if n < 10 {
        seq![digit_char(n)]
    } else {
        decimal(n / 10).push(digit_char(n % 10))
    }
}

/// The first fractional digit of `value / 1024`, truncated.
pub open spec fn first_fraction_digit(value: nat) -> nat {
    (value % 1024) * 10 / 1024
}

/// The displayed magnitude `value / 1024`: its integer part, followed by a
/// point and the first fractional digit, truncated, unless that digit is 0.
pub open spec fn value_text(value: nat) -> Seq<char> {
    let d = first_fraction_digit(value);
    if d == 0 {
        decimal(value / 1024)
    } else {
        decimal(value / 1024) + seq!['.', digit_char(d)]
    }
}

/// The symbol of a unit.
pub open spec fn unit_text(unit: Unit) -> Seq<char> {
    match unit {
        Unit::Byte => seq!['B'],
        Unit::Kilo => seq!['K', 'B'],
        Unit::Mega => seq!['M', 'B'],
        Unit::Giga => seq!['G', 'B'],
        Unit::Tera => seq!['T', 'B'],
    }
}

/// The role whose color a size in `unit` is painted in.
pub open spec fn elem_of(unit: Unit) -> Elem {
    match unit {
        Unit::Byte | Unit::Kilo => Elem::FileSmall,
        Unit::Mega => Elem::FileMedium,
        Unit::Giga | Unit::Tera => Elem::FileLarge,
    }
}

/// The text of a size rendered in columns of widths `value_alignment` and
/// `unit_alignment`: the value right-aligned, a space, the unit left-aligned.
pub open spec fn size_line(s: SizeView, value_alignment: nat, unit_alignment: nat) -> Seq<char> {
    let v = value_text(s.value);
    let u = unit_text(s.unit);
    spaces((value_alignment - v.len()) as nat) + v + seq![' '] + u + spaces(
        (unit_alignment - u.len()) as nat,
    )
}

/// The one-character text of a decimal digit.
fn digit_str(d: u64) -> (r: &'static str)
    requires
        d < 10,
    ensures
        r@ == seq![digit_char(d as nat)],
{
    proof {
        reveal_strlit("0");
        reveal_strlit("1");
        reveal_strlit("2");
        reveal_strlit("3");
        reveal_strlit("4");
        reveal_strlit("5");
        reveal_strlit("6");
        reveal_strlit("7");
        reveal_strlit("8");
        reveal_strlit("9");
    }
    match d {
        0 => "0",
        1 => "1",
        2 => "2",
        3 => "3",
        4 => "4",
        5 => "5",
        6 => "6",
        7 => "7",
        8 => "8",
        _ => "9",
    }
}

/// Appends the decimal notation of `n` to `s`.
fn push_decimal(s: &mut String, n: u64)
    ensures
        final(s)@ == old(s)@ + decimal(n as nat),
    decreases n,
{
    if n >= 10 {
        push_decimal(s, n / 10);
    }
    let d = digit_str(n % 10);
    s.append(d);
    assert(s@ =~= old(s)@ + decimal(n as nat));
}

/// Every length under 1024 bytes is displayed in bytes, with the symbol "B".
pub proof fn lemma_byte_tier(len: nat)
    requires
        len < 1024,
    ensures
        size_of(len).unit == Unit::Byte,
        unit_text(size_of(len).unit) == seq!['B'],
{
}

/// Every length from 1024 bytes up to, not including, 1024 * 1024 bytes is
/// displayed in kilobytes, and its scaled value is the length itself.
pub proof fn lemma_kilo_tier(len: nat)
    requires
        1024 <= len < 1024 * 1024,
    ensures
        size_of(len).unit == Unit::Kilo,
        size_of(len).value == len,
{
}

/// The color role follows the tier: bytes and kilobytes are small files,
/// megabytes medium files, gigabytes and terabytes large files.
pub proof fn lemma_tier_colors(len: nat)
    ensures
        len < 1024 * 1024 ==> elem_of(size_of(len).unit) == Elem::FileSmall,
        1024 * 1024 <= len < 1024 * 1024 * 1024 ==> elem_of(size_of(len).unit) == Elem::FileMedium,
        1024 * 1024 * 1024 <= len ==> elem_of(size_of(len).unit) == Elem::FileLarge,
{
}

/// Rendering a size twice with the same widths gives the same fragment:
/// any two results that `Size::render` may return for them are equal.
pub proof fn lemma_size_render_repeatable(
    s: SizeView,
    value_alignment: nat,
    unit_alignment: nat,
    first: Colored,
    second: Colored,
)
    requires
        first.text@ == size_line(s, value_alignment, unit_alignment),
        first.elem == elem_of(s.unit),
        second.text@ == size_line(s, value_alignment, unit_alignment),
        second.elem == elem_of(s.unit),
    ensures
        first.text@ == second.text@,
        first.elem == second.elem,
{
}

impl Size {
    /// The size that displays a file of `len` bytes: the largest unit that
    /// leaves the integer part of the displayed value nonzero.
    pub fn from_len(len: u64) -> (r: Size)
        ensures
            r@ == size_of(len as nat),
    {
        if len < 1024 {
            Size { value: len * 1024, unit: Unit::Byte }
        } else if len < 1024 * 1024 {
            Size { value: len, unit: Unit::Kilo }
        } else if len < 1024 * 1024 * 1024 {
            Size { value: len / 1024, unit: Unit::Mega }
        } else if len < 1024 * 1024 * 1024 * 1024 {
            Size { value: len / (1024 * 1024), unit: Unit::Giga }
        } else {
            Size { value: len / (1024 * 1024 * 1024), unit: Unit::Tera }
        }
    }

    /// The size rendered in columns of widths `value_alignment` and
    /// `unit_alignment`, tagged with the role of its unit's tier.
    pub fn render(&self, value_alignment: usize, unit_alignment: usize) -> (r: Colored)
        requires
            value_alignment >= value_text(self@.value).len(),
            unit_alignment >= unit_text(self@.unit).len(),
        ensures
            r.text@ == size_line(self@, value_alignment as nat, unit_alignment as nat),
            r.elem == elem_of(self@.unit),
    {
        let value = self.render_value();
        let unit = self.render_unit();
        let value_len = value.as_str().unicode_len();
        let unit_len = unit.as_str().unicode_len();

        let mut content = String::new();
        push_spaces(&mut content, value_alignment - value_len);
        content.append(value.as_str());
        proof {
            reveal_strlit(" ");
        }
        content.append(" ");
        content.append(unit.as_str());
        push_spaces(&mut content, unit_alignment - unit_len);
        assert(content@ =~= size_line(self@, value_alignment as nat, unit_alignment as nat));

        self.paint(content)
    }

    /// Tags `content` with the role of this size's tier.
    fn paint(&self, content: String) -> (r: Colored)
        ensures
            r.text == content,
            r.elem == elem_of(self@.unit),
    {
        let elem = if self.unit == Unit::Byte || self.unit == Unit::Kilo {
            Elem::FileSmall
        } else if self.unit == Unit::Mega {
            Elem::FileMedium
        } else {
            Elem::FileLarge
        };
        Colored { elem, text: content }
    }

    /// The displayed magnitude, with at most one fractional digit, truncated.
    pub fn render_value(&self) -> (r: String)
        ensures
            r@ == value_text(self@.value),
    {
        let mut r = String::new();
        push_decimal(&mut r, self.value / 1024);
        let d = (self.value % 1024) * 10 / 1024;
        if d != 0 {
            proof {
                reveal_strlit(".");
            }
            r.append(".");
            r.append(digit_str(d));
        }
        assert(r@ =~= value_text(self@.value));
        r
    }

    /// The symbol of the unit.
    pub fn render_unit(&self) -> (r: String)
        ensures
            r@ == unit_text(self@.unit),
    {
        proof {
            reveal_strlit("B");
            reveal_strlit("KB");
            reveal_strlit("MB");
            reveal_strlit("GB");
            reveal_strlit("TB");
        }
        match self.unit {
            Unit::Byte => String::from_str("B"),
            Unit::Kilo => String::from_str("KB"),
            Unit::Mega => String::from_str("MB"),
            Unit::Giga => String::from_str("GB"),
            Unit::Tera => String::from_str("TB"),
        }
    }
}

} // verus!
