use vstd::prelude::*;

verus! {

/// A version given by its numeric components, as written on a command line or
/// in a manifest: either `major.minor` or `major.minor.patch`.
#[derive(Clone, Copy, PartialEq, Eq, Structural)]
pub enum BareVersion {
    TwoComponents(u64, u64),
    ThreeComponents(u64, u64, u64),
}

/// The decimal digits of `n` as ASCII bytes, most significant first.
pub open spec fn dec_digits(n: nat) -> Seq<u8>
    decreases n,
{
    if n < 10 {
        seq![(n + 48) as u8]
    } else {
        dec_digits(n / 10) + seq![((n % 10) + 48) as u8]
    }
}

/// The textual form of a version as ASCII bytes: the components' decimal
/// digits, separated by `.` (ASCII 46).
pub open spec fn version_bytes(v: BareVersion) -> Seq<u8> {
    match v {
        BareVersion::TwoComponents(major, minor) => dec_digits(major as nat) + seq![46u8]
            + dec_digits(minor as nat),
        BareVersion::ThreeComponents(major, minor, patch) => dec_digits(major as nat)
            + seq![46u8] + dec_digits(minor as nat) + seq![46u8] + dec_digits(patch as nat),
    }
}

/// Appends the decimal rendering of `n` to `out`.
pub fn push_decimal(n: u64, out: &mut Vec<u8>)
    ensures
        final(out)@ == old(out)@ + dec_digits(n as nat),
    decreases n,
{
    if n < 10 {
        out.push((n as u8) + 48);
        assert(out@ =~= old(out)@ + dec_digits(n as nat));
    } else {
        push_decimal(n / 10, out);
        out.push(((n % 10) as u8) + 48);
        assert(out@ =~= old(out)@ + dec_digits(n as nat));
    }
}

impl BareVersion {
    /// Appends the textual form of this version to `out`.
    pub fn push_bytes(&self, out: &mut Vec<u8>)
        ensures
            final(out)@ == old(out)@ + version_bytes(*self),
    {
        match self {
            BareVersion::TwoComponents(major, minor) => {
                push_decimal(*major, out);
                out.push(46);
                push_decimal(*minor, out);
            },
            BareVersion::ThreeComponents(major, minor, patch) => {
                push_decimal(*major, out);
                out.push(46);
                push_decimal(*minor, out);
                out.push(46);
                push_decimal(*patch, out);
            },
        }
        assert(out@ =~= old(out)@ + version_bytes(*self));
    }
}

/// The number a sequence of ASCII digits denotes in base ten, most
/// significant digit first.
pub open spec fn digits_value(s: Seq<u8>) -> int
    decreases s.len(),
{
    if s.len() == 0 {
        0
    } else {
        digits_value(s.drop_last()) * 10 + (s.last() - 48)
    }
}

/// The decimal rendering round-trips: reading `dec_digits(n)` back in base ten
/// gives `n`, so the rendering is the number's decimal form and no other.
pub proof fn lemma_dec_digits_value(n: nat)
    ensures
        digits_value(dec_digits(n)) == n,
    decreases n,
{
    if n >= 10 {
        lemma_dec_digits_value(n / 10);
        assert(dec_digits(n).drop_last() =~= dec_digits(n / 10));
        assert((((n % 10) + 48) as u8) as int == n % 10 + 48);
        vstd::arithmetic::div_mod::lemma_fundamental_div_mod(n as int, 10);
    } else {
        reveal_with_fuel(digits_value, 2);
        assert(dec_digits(n).drop_last() =~= Seq::<u8>::empty());
        assert(((n + 48) as u8) as int == n + 48);
    }
}

/// A decimal rendering never starts with a superfluous zero: only the number
/// zero itself renders with a leading `0`.
pub proof fn lemma_dec_digits_no_leading_zero(n: nat)
    ensures
        n > 0 ==> dec_digits(n)[0] != 48,
    decreases n,
{
    if n >= 10 {
        lemma_dec_digits_no_leading_zero(n / 10);
        assert(dec_digits(n)[0] == dec_digits(n / 10)[0]);
    }
}

/// Every byte of a decimal rendering is an ASCII digit; in particular none is
/// a newline, so a version never spans more than one output line.
pub proof fn lemma_dec_digits_are_digits(n: nat)
    ensures
        forall|i: int| 0 <= i < dec_digits(n).len() ==> 48 <= #[trigger] dec_digits(n)[i] <= 57,
    decreases n,
{
    if n >= 10 {
        lemma_dec_digits_are_digits(n / 10);
        assert forall|i: int| 0 <= i < dec_digits(n).len() implies 48 <= #[trigger] dec_digits(
            n,
        )[i] <= 57 by {
            if i < dec_digits(n / 10).len() {
                assert(dec_digits(n)[i] == dec_digits(n / 10)[i]);
            } else {
                assert(dec_digits(n)[i] == ((n % 10) + 48) as u8);
            }
        }
    }
}

/// The textual form of a version holds only ASCII digits and dots, never a
/// newline.
pub proof fn lemma_version_bytes_no_newline(v: BareVersion)
    ensures
        forall|i: int| 0 <= i < version_bytes(v).len() ==> #[trigger] version_bytes(v)[i] != 10,
{
    match v {
        BareVersion::TwoComponents(major, minor) => {
            lemma_dec_digits_are_digits(major as nat);
            lemma_dec_digits_are_digits(minor as nat);
        },
        BareVersion::ThreeComponents(major, minor, patch) => {
            lemma_dec_digits_are_digits(major as nat);
            lemma_dec_digits_are_digits(minor as nat);
            lemma_dec_digits_are_digits(patch as nat);
        },
    }
}

} // verus!
