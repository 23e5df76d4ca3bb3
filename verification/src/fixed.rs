//! Fixed-point millimetre values and their canonical decimal rendering.
//!
//! Every coordinate, size, thickness and angle in a footprint is a `Fixed`:
//! an `i64` count of millionths of a millimetre.  The emitted text uses one
//! canonical rule shared by the whole document: plain decimal notation, no
//! scientific notation, no locale variance, and no trailing zeros in the
//! fractional part ("1" rather than "1.000000", "0.25" rather than "0.250").

use vstd::prelude::*;

verus! {

/// Number of fixed-point units in one millimetre (six decimal places).
pub const FIXED_SCALE: i64 = 1000000;

/// Concatenation of character sequences is associative.  Serialized text is
/// assembled by many successive appends, so proofs below and in the
/// serializer lean on this rewriting step throughout.
pub broadcast proof fn lemma_seq_add_assoc(a: Seq<char>, b: Seq<char>, c: Seq<char>)
    ensures
        #[trigger] ((a + b) + c) == a + (b + c),
{
    assert((a + b) + c =~= a + (b + c));
}

/// A millimetre quantity held as a fixed-point number with six decimal
/// places: the value is `units / 1000000` mm.
#[derive(Clone, Copy, PartialEq, Eq, Structural, Debug)]
pub struct Fixed {
    pub units: i64,
}

impl View for Fixed {
    type V = int;

    open spec fn view(&self) -> int {
        self.units as int
    }
}

impl DeepView for Fixed {
    type V = int;

    open spec fn deep_view(&self) -> int {
        self.units as int
    }
}

/// The decimal digit character for `d` (0 through 9).
pub open spec fn digit_char(d: int) -> char {
    if d == 0 {
        '0'
    } else if d == 1 {
        '1'
    } else if d == 2 {
        '2'
    } else if d == 3 {
        '3'
    } else if d == 4 {
        '4'
    } else if d == 5 {
        '5'
    } else if d == 6 {
        '6'
    } else if d == 7 {
        '7'
    } else if d == 8 {
        '8'
    } else {
        '9'
    }
}

/// The usual decimal digit string of `n`, without leading zeros
/// (a single "0" for zero).
pub open spec fn dec_digits(n: nat) -> Seq<char>
    decreases n,
{
    if n < 10 {
        seq![digit_char(n as int)]
    } else {
        dec_digits(n / 10) + seq![digit_char((n % 10) as int)]
    }
}

/// The six decimal digits of a fractional part `f` (`f < 1000000`),
/// zero-padded on the left.
pub open spec fn frac_digits(f: nat) -> Seq<char> {
    seq![
        digit_char(((f / 100000) % 10) as int),
        digit_char(((f / 10000) % 10) as int),
        digit_char(((f / 1000) % 10) as int),
        digit_char(((f / 100) % 10) as int),
        digit_char(((f / 10) % 10) as int),
        digit_char((f % 10) as int),
    ]
}

/// `s` with all trailing `'0'` characters removed.
pub open spec fn strip_zeros(s: Seq<char>) -> Seq<char>
    decreases s.len(),
{
    if s.len() > 0 && s.last() == '0' {
        strip_zeros(s.drop_last())
    } else {
        s
    }
}

/// Canonical decimal text of the non-negative fixed-point value `a`
/// (in units of one millionth): whole part, then a fractional part only
/// when it is non-zero, with trailing zeros stripped.
pub open spec fn fixed_str_abs(a: nat) -> Seq<char> {
    let whole = dec_digits(a / 1000000);
    let frac = a % 1000000;
    if frac == 0 {
        whole
    } else {
        whole + "."@ + strip_zeros(frac_digits(frac))
    }
}

/// Canonical decimal text of the fixed-point value `v` (in units of one
/// millionth): a leading minus sign for negative values, then the text of
/// the absolute value.
pub open spec fn fixed_str(v: int) -> Seq<char> {
    if v < 0 {
        "-"@ + fixed_str_abs((-v) as nat)
    } else {
        fixed_str_abs(v as nat)
    }
}

/// The one-character string for the decimal digit `d`.
fn digit_str(d: u64) -> (r: &'static str)
    requires
        d < 10,
    ensures
        r@ == seq![digit_char(d as int)],
{
    proof {
        reveal_strlit("0");
        reveal_strlit("1");
        reveal_strlit("2");
        reveal_strlit("3");
        reveal_strlit("4");
        reveal_strlit("5");
        reveal_strlit("6");
        reveal_strlit("7");
        reveal_strlit("8");
        reveal_strlit("9");
        assert("0"@ =~= seq![digit_char(0)]);
        assert("1"@ =~= seq![digit_char(1)]);
        assert("2"@ =~= seq![digit_char(2)]);
        assert("3"@ =~= seq![digit_char(3)]);
        assert("4"@ =~= seq![digit_char(4)]);
        assert("5"@ =~= seq![digit_char(5)]);
        assert("6"@ =~= seq![digit_char(6)]);
        assert("7"@ =~= seq![digit_char(7)]);
        assert("8"@ =~= seq![digit_char(8)]);
        assert("9"@ =~= seq![digit_char(9)]);
    }
    match d {
        0 => "0",
        1 => "1",
        2 => "2",
        3 => "3",
        4 => "4",
        5 => "5",
        6 => "6",
        7 => "7",
        8 => "8",
        _ => "9",
    }
}

/// Appends the decimal digit string of `n` to `output`.
fn append_digits(output: &mut String, n: u64)
    ensures
        final(output)@ == old(output)@ + dec_digits(n as nat),
    decreases n,
{
    if n < 10 {
        output.append(digit_str(n));
    } else {
        append_digits(output, n / 10);
        output.append(digit_str(n % 10));
        proof {
            assert(output@ =~= old(output)@ + dec_digits(n as nat));
        }
    }
}

/// The digit characters of a sequence of digit values.
pub open spec fn digit_chars_of(s: Seq<u64>) -> Seq<char> {
    s.map_values(|d: u64| digit_char(d as int))
}

/// Appends the fractional digits of `frac` (six places, trailing zeros
/// stripped) to `output`.
fn append_frac_digits(output: &mut String, frac: u64)
    requires
        0 < frac < 1000000,
    ensures
        final(output)@ == old(output)@ + strip_zeros(frac_digits(frac as nat)),
{
    let ghost base: Seq<char> = output@;
    let mut ds: Vec<u64> = Vec::new();
    ds.push((frac / 100000) % 10);
    ds.push((frac / 10000) % 10);
    ds.push((frac / 1000) % 10);
    ds.push((frac / 100) % 10);
    ds.push((frac / 10) % 10);
    ds.push(frac % 10);
    proof {
        assert(digit_chars_of(ds@) =~= frac_digits(frac as nat));
    }
    while ds.len() > 0 && ds[ds.len() - 1] == 0
        invariant
            forall|i: int| 0 <= i < ds@.len() ==> ds@[i] < 10,
            strip_zeros(digit_chars_of(ds@)) == strip_zeros(frac_digits(frac as nat)),
        decreases ds.len(),
    {
        let ghost before: Seq<u64> = ds@;
        ds.pop();
        proof {
            assert(ds@ =~= before.drop_last());
            assert(digit_chars_of(ds@) =~= digit_chars_of(before).drop_last());
            assert(digit_chars_of(before).last() == '0');
        }
    }
    proof {
        if ds@.len() > 0 {
            assert(ds@.last() != 0);
            assert(digit_chars_of(ds@).last() == digit_char(ds@.last() as int));
            assert(digit_chars_of(ds@).last() != '0');
        }
        assert(digit_chars_of(ds@) == strip_zeros(digit_chars_of(ds@)));
    }
    let mut i: usize = 0;
    while i < ds.len()
        invariant
            i <= ds@.len(),
            forall|k: int| 0 <= k < ds@.len() ==> ds@[k] < 10,
            digit_chars_of(ds@) == strip_zeros(frac_digits(frac as nat)),
            output@ == base + digit_chars_of(ds@.take(i as int)),
        decreases ds@.len() - i,
    {
        let ghost prev: Seq<char> = output@;
        output.append(digit_str(ds[i]));
        i = i + 1;
        proof {
            assert(digit_chars_of(ds@.take(i as int)) =~= digit_chars_of(
                ds@.take(i as int - 1),
            ) + seq![digit_char(ds@[i as int - 1] as int)]);
            assert(output@ =~= base + digit_chars_of(ds@.take(i as int)));
        }
    }
    proof {
        assert(ds@.take(ds@.len() as int) =~= ds@);
    }
}

/// Appends the canonical decimal text of `v` to `output`.
pub fn append_fixed(output: &mut String, v: Fixed)
    ensures
        final(output)@ == old(output)@ + fixed_str(v@),
{
    let units: i64 = v.units;
    if units < 0 {
        output.append("-");
    }
    let a: u64 = if units == i64::MIN {
        9223372036854775808
    } else if units < 0 {
        (-units) as u64
    } else {
        units as u64
    };
    proof {
        if units < 0 {
            assert(a as int == -(v@));
        } else {
            assert(a as int == v@);
        }
    }
    let whole: u64 = a / 1000000;
    let frac: u64 = a % 1000000;
    append_digits(output, whole);
    if frac != 0 {
        output.append(".");
        append_frac_digits(output, frac);
    }
    proof {
        assert(whole as nat == (a as nat) / 1000000);
        assert(frac as nat == (a as nat) % 1000000);
        assert(output@ =~= old(output)@ + fixed_str(v@));
    }
}

impl Fixed {
    /// Builds the value `units / 1000000` mm.
    pub fn new(units: i64) -> (r: Fixed)
        ensures
            r@ == units as int,
    {
        Fixed { units }
    }

    /// The canonical decimal text of this value, as it appears in a
    /// footprint document.
    pub fn to_kicad_string(&self) -> (r: String)
        ensures
            r@ == fixed_str(self@),
    {
        let mut s = String::new();
        append_fixed(&mut s, *self);
        proof {
            assert(s@ =~= fixed_str(self@));
        }
        s
    }
}

} // verus!
