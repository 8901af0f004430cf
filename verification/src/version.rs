//! Engine build versions and capability gating.
//!
//! A `ProductVersion` is an ordered pair `(major, minor)`; each optional
//! engine capability is available from a fixed minimum version onwards,
//! and the `is_*_available` methods decide that gate.

use crate::text::all_digits;
use crate::text::digit_val;
use crate::text::digits_to_nat;
use crate::text::is_digit;
use vstd::prelude::*;

verus! {

/// The index of the first `.` in the sequence, or its length if none occurs.
pub open spec fn first_dot(s: Seq<char>) -> int
    decreases s.len(),
{
    if s.len() == 0 {
        0
    } else if s[0] == '.' {
        0
    } else {
        1 + first_dot(s.subrange(1, s.len() as int))
    }
}

/// Any index with the characterization of `first_dot` is `first_dot`.
pub proof fn lemma_first_dot_unique(s: Seq<char>, d: int)
    requires
        0 <= d <= s.len(),
        d < s.len() ==> s[d] == '.',
        forall|j: int| 0 <= j < d ==> s[j] != '.',
    ensures
        first_dot(s) == d,
    decreases s.len(),
{
    if s.len() == 0 {
    } else if s[0] == '.' {
        assert(d == 0);
    } else {
        let rest = s.subrange(1, s.len() as int);
        assert(d >= 1);
        assert forall|j: int| 0 <= j < d - 1 implies rest[j] != '.' by {
            assert(rest[j] == s[j + 1]);
        }
        assert(d - 1 < rest.len() ==> rest[d - 1] == '.');
        lemma_first_dot_unique(rest, d - 1);
    }
}

/// What parsing a `major.minor` string yields: the text up to the first
/// dot and the text after it must both be non-empty strings of decimal
/// digits whose values fit in 32 bits.
pub open spec fn version_parse_spec(s: Seq<char>) -> Option<ProductVersion> {
    let d = first_dot(s);
    if d == s.len() {
        None
    } else {
        let major = s.subrange(0, d);
        let minor = s.subrange(d + 1, s.len() as int);
        if major.len() == 0 || minor.len() == 0 || !all_digits(major) || !all_digits(minor)
            || digits_to_nat(major) > u32::MAX || digits_to_nat(minor) > u32::MAX {
            None
        } else {
            Some(
                ProductVersion {
                    major: digits_to_nat(major) as u32,
                    minor: digits_to_nat(minor) as u32,
                },
            )
        }
    }
}

/// The digit character for one decimal digit.
pub open spec fn spec_digit_char(d: nat) -> char {
    if d == 0 {
        '0'
    } else if d == 1 {
        '1'
    } else if d == 2 {
        '2'
    } else if d == 3 {
        '3'
    } else if d == 4 {
        '4'
    } else if d == 5 {
        '5'
    } else if d == 6 {
        '6'
    } else if d == 7 {
        '7'
    } else if d == 8 {
        '8'
    } else {
        '9'
    }
}

/// The decimal digit string of a number, most significant digit first.
pub open spec fn nat_to_digits(n: nat) -> Seq<char>
    decreases n,
{
    if n < 10 {
        seq![spec_digit_char(n)]
    } else {
        nat_to_digits(n / 10) + seq![spec_digit_char(n % 10)]
    }
}

/// The formatted `major.minor` text of a version.
pub open spec fn version_string(v: ProductVersion) -> Seq<char> {
    nat_to_digits(v.major as nat) + seq!['.'] + nat_to_digits(v.minor as nat)
}

/// A digit character is a digit, is not a dot, and reads back as its value.
pub proof fn lemma_digit_char(d: nat)
    requires
        d < 10,
    ensures
        is_digit(spec_digit_char(d)),
        spec_digit_char(d) != '.',
        digit_val(spec_digit_char(d)) == d,
{
    if d == 0 {
        assert('0' as int == 48);
    } else if d == 1 {
        assert('1' as int == 49);
    } else if d == 2 {
        assert('2' as int == 50);
    } else if d == 3 {
        assert('3' as int == 51);
    } else if d == 4 {
        assert('4' as int == 52);
    } else if d == 5 {
        assert('5' as int == 53);
    } else if d == 6 {
        assert('6' as int == 54);
    } else if d == 7 {
        assert('7' as int == 55);
    } else if d == 8 {
        assert('8' as int == 56);
    } else {
        assert('9' as int == 57);
    }
}

/// A digit string is non-empty, made of digits, and dot-free.
pub proof fn lemma_nat_to_digits_shape(n: nat)
    ensures
        nat_to_digits(n).len() >= 1,
        all_digits(nat_to_digits(n)),
        forall|j: int| 0 <= j < nat_to_digits(n).len() ==> nat_to_digits(n)[j] != '.',
    decreases n,
{
    if n < 10 {
        lemma_digit_char(n);
    } else {
        lemma_digit_char(n % 10);
        lemma_nat_to_digits_shape(n / 10);
    }
}

/// Reading the digit string of a number back yields the number.
pub proof fn lemma_digits_of_nat_value(n: nat)
    ensures
        digits_to_nat(nat_to_digits(n)) == n,
    decreases n,
{
    if n < 10 {
        lemma_digit_char(n);
        let s = nat_to_digits(n);
        assert(s.drop_last() =~= Seq::<char>::empty());
        assert(digit_val(s.last()) == n);
        assert(digits_to_nat(Seq::<char>::empty()) == 0);
        assert(digits_to_nat(s) == digits_to_nat(s.drop_last()) * 10 + digit_val(s.last()));
    } else {
        lemma_digit_char(n % 10);
        lemma_digits_of_nat_value(n / 10);
        let s = nat_to_digits(n);
        assert(s.drop_last() =~= nat_to_digits(n / 10));
        assert(digit_val(s.last()) == n % 10);
        assert(digits_to_nat(s) == (n / 10) * 10 + n % 10);
        assert((n / 10) * 10 + n % 10 == n) by {
            vstd::arithmetic::div_mod::lemma_fundamental_div_mod(n as int, 10);
        }
    }
}

/// Extending a digit string cannot shrink the number it denotes.
pub proof fn lemma_digits_prefix_le(s: Seq<char>, i: int)
    requires
        0 <= i <= s.len(),
        all_digits(s),
    ensures
        digits_to_nat(s.subrange(0, i)) <= digits_to_nat(s),
    decreases s.len() - i,
{
    if i < s.len() {
        let t = s.subrange(0, s.len() - 1);
        if i < s.len() - 1 {
            lemma_digits_prefix_le(t, i);
            assert(t.subrange(0, i) =~= s.subrange(0, i));
        } else {
            assert(t =~= s.subrange(0, i));
        }
        assert(s.drop_last() =~= t);
        assert(digits_to_nat(s) == digits_to_nat(t) * 10 + digit_val(s.last()));
        assert(digits_to_nat(t) * 10 >= digits_to_nat(t)) by (nonlinear_arith);
        assert(digit_val(s.last()) >= 0);
    } else {
        assert(s.subrange(0, i) =~= s);
    }
}

/// Parses a non-empty all-digit string into a 32-bit number.
fn parse_u32_digits(s: &str) -> (r: Option<u32>)
    ensures
        r is Some <==> (s@.len() > 0 && all_digits(s@) && digits_to_nat(s@) <= u32::MAX),
        r matches Some(x) ==> x == digits_to_nat(s@),
{
    let n: usize = s.unicode_len();
    if n == 0 {
        return None;
    }
    let mut acc: u32 = 0;
    let mut i: usize = 0;
    while i < n
        invariant
            n == s@.len(),
            0 < n,
            i <= n,
            all_digits(s@.subrange(0, i as int)),
            acc == digits_to_nat(s@.subrange(0, i as int)),
        decreases n - i,
    {
        let c = s.get_char(i);
        let cu = c as u32;
        if cu < 48 || cu > 57 {
            assert(!is_digit(s@[i as int]));
            return None;
        }
        let d = cu - 48;
        proof {
            assert(is_digit(s@[i as int]));
            assert(s@.subrange(0, (i + 1) as int).drop_last() =~= s@.subrange(0, i as int));
            assert(s@.subrange(0, (i + 1) as int).last() == s@[i as int]);
        }
        if acc > (u32::MAX - d) / 10 {
            proof {
                let p = s@.subrange(0, (i + 1) as int);
                assert(digits_to_nat(p) == acc * 10 + d);
                vstd::arithmetic::div_mod::lemma_fundamental_div_mod((u32::MAX - d) as int, 10);
                assert(acc * 10 + d > u32::MAX);
                if all_digits(s@) {
                    lemma_digits_prefix_le(s@, (i + 1) as int);
                }
            }
            return None;
        }
        acc = acc * 10 + d;
        i += 1;
    }
    proof {
        assert(s@.subrange(0, n as int) =~= s@);
    }
    Some(acc)
}

/// Builds the single-character string for one decimal digit.
fn digit_str(d: u32) -> (r: &'static str)
    requires
        d < 10,
    ensures
        r@ =~= seq![spec_digit_char(d as nat)],
{
    proof {
        reveal_strlit("0");
        reveal_strlit("1");
        reveal_strlit("2");
        reveal_strlit("3");
        reveal_strlit("4");
        reveal_strlit("5");
        reveal_strlit("6");
        reveal_strlit("7");
        reveal_strlit("8");
        reveal_strlit("9");
    }
    if d == 0 {
        "0"
    } else if d == 1 {
        "1"
    } else if d == 2 {
        "2"
    } else if d == 3 {
        "3"
    } else if d == 4 {
        "4"
    } else if d == 5 {
        "5"
    } else if d == 6 {
        "6"
    } else if d == 7 {
        "7"
    } else if d == 8 {
        "8"
    } else {
        "9"
    }
}

/// Builds the decimal digit string of a number.
fn digits_string(n: u32) -> (r: String)
    ensures
        r@ =~= nat_to_digits(n as nat),
    decreases n,
{
    if n < 10 {
        String::from_str(digit_str(n))
    } else {
        let high = digits_string(n / 10);
        let low = digit_str(n % 10);
        let r = high.concat(low);
        proof {
            assert(r@ =~= nat_to_digits((n / 10) as nat) + seq![spec_digit_char((n % 10) as nat)]);
        }
        r
    }
}

/// A parsed `major.minor` engine build version, ordered by major then minor.
#[derive(Debug, Clone, Copy, PartialEq, Eq, Structural)]
pub struct ProductVersion {
    pub major: u32,
    pub minor: u32,
}

/// Reported when a version string is not of the form `major.minor` with
/// two numeric components in range.
#[derive(Debug, Clone, Copy, PartialEq, Eq, Structural)]
pub struct InvalidProductVersion;

impl ProductVersion {
    /// Total order by major, then minor: `self` is at least `other`.
    pub open spec fn spec_ge(self, other: ProductVersion) -> bool {
        self.major > other.major || (self.major == other.major && self.minor >= other.minor)
    }

    pub fn new(major: u32, minor: u32) -> (v: ProductVersion)
        ensures
            v == (ProductVersion { major, minor }),
    {
        ProductVersion { major, minor }
    }

    pub fn ge(&self, other: &ProductVersion) -> (r: bool)
        ensures
            r == self.spec_ge(*other),
    {
        self.major > other.major || (self.major == other.major && self.minor >= other.minor)
    }

    /// The plain document-load entry exists from 4.3 onwards.
    pub fn is_document_load_available(&self) -> (r: bool)
        ensures
            r == self.spec_ge(ProductVersion { major: 4, minor: 3 }),
    {
        self.ge(&ProductVersion::new(4, 3))
    }

    /// Loading with extra options exists from 5.0 onwards.
    pub fn is_document_load_options_available(&self) -> (r: bool)
        ensures
            r == self.spec_ge(ProductVersion { major: 5, minor: 0 }),
    {
        self.ge(&ProductVersion::new(5, 0))
    }

    /// The hook that frees an error-message buffer exists from 5.2 onwards;
    /// older builds leak the buffer by design and the wrapper must not call
    /// a null slot.
    pub fn is_free_error_available(&self) -> (r: bool)
        ensures
            r == self.spec_ge(ProductVersion { major: 5, minor: 2 }),
    {
        self.ge(&ProductVersion::new(5, 2))
    }

    /// Registering a notification callback exists from 6.0 onwards.
    pub fn is_register_callback_available(&self) -> (r: bool)
        ensures
            r == self.spec_ge(ProductVersion { major: 6, minor: 0 }),
    {
        self.ge(&ProductVersion::new(6, 0))
    }

    /// Filter-type introspection exists from 6.0 onwards.
    pub fn is_filter_types_available(&self) -> (r: bool)
        ensures
            r == self.spec_ge(ProductVersion { major: 6, minor: 0 }),
    {
        self.ge(&ProductVersion::new(6, 0))
    }

    /// Selecting optional features exists from 6.0 onwards.
    pub fn is_optional_features_available(&self) -> (r: bool)
        ensures
            r == self.spec_ge(ProductVersion { major: 6, minor: 0 }),
    {
        self.ge(&ProductVersion::new(6, 0))
    }

    /// Answering a password prompt exists from 6.0 onwards.
    pub fn is_set_document_password_available(&self) -> (r: bool)
        ensures
            r == self.spec_ge(ProductVersion { major: 6, minor: 0 }),
    {
        self.ge(&ProductVersion::new(6, 0))
    }

    /// Version introspection exists from 6.0 onwards.
    pub fn is_get_version_info_available(&self) -> (r: bool)
        ensures
            r == self.spec_ge(ProductVersion { major: 6, minor: 0 }),
    {
        self.ge(&ProductVersion::new(6, 0))
    }

    /// Running a document macro exists from 6.0 onwards.
    pub fn is_run_macro_available(&self) -> (r: bool)
        ensures
            r == self.spec_ge(ProductVersion { major: 6, minor: 0 }),
    {
        self.ge(&ProductVersion::new(6, 0))
    }

    /// Trimming engine memory exists from 7.6 onwards.
    pub fn is_trim_memory_available(&self) -> (r: bool)
        ensures
            r == self.spec_ge(ProductVersion { major: 7, minor: 6 }),
    {
        self.ge(&ProductVersion::new(7, 6))
    }

    /// Parses a `major.minor` version string; malformed text (no
    /// separator, an empty or non-numeric component, a component out of
    /// 32-bit range) is rejected with a structured error.
    pub fn parse(s: &str) -> (r: Result<ProductVersion, InvalidProductVersion>)
        ensures
            match r {
                Ok(v) => version_parse_spec(s@) == Some(v),
                Err(e) => version_parse_spec(s@) is None && e == InvalidProductVersion,
            },
    {
        let n: usize = s.unicode_len();
        let mut d: usize = 0;
        while d < n && s.get_char(d) != '.'
            invariant
                n == s@.len(),
                d <= n,
                forall|j: int| 0 <= j < d ==> s@[j] != '.',
            decreases n - d,
        {
            d += 1;
        }
        proof {
            lemma_first_dot_unique(s@, d as int);
        }
        if d == n {
            return Err(InvalidProductVersion);
        }
        let major_part = s.substring_char(0, d);
        let minor_part = s.substring_char(d + 1, n);
        let major = match parse_u32_digits(major_part) {
            Some(x) => x,
            None => {
                return Err(InvalidProductVersion);
            },
        };
        let minor = match parse_u32_digits(minor_part) {
            Some(x) => x,
            None => {
                return Err(InvalidProductVersion);
            },
        };
        Ok(ProductVersion { major, minor })
    }

    /// Formats the version as `major.minor`.
    pub fn display_string(&self) -> (r: String)
        ensures
            r@ == version_string(*self),
    {
        let mut out = digits_string(self.major);
        out.append(".");
        let low = digits_string(self.minor);
        out.append(low.as_str());
        proof {
            reveal_strlit(".");
            assert(out@ =~= version_string(*self));
        }
        out
    }
}

impl core::str::FromStr for ProductVersion {
    type Err = InvalidProductVersion;

    fn from_str(s: &str) -> Result<ProductVersion, InvalidProductVersion> {
        ProductVersion::parse(s)
    }
}

/// Law: formatting a version and parsing the text back yields the same
/// version again.
pub proof fn lemma_version_roundtrip(v: ProductVersion)
    ensures
        version_parse_spec(version_string(v)) == Some(v),
{
    let ma = nat_to_digits(v.major as nat);
    let mi = nat_to_digits(v.minor as nat);
    let s = version_string(v);
    lemma_nat_to_digits_shape(v.major as nat);
    lemma_nat_to_digits_shape(v.minor as nat);
    assert forall|j: int| 0 <= j < ma.len() implies s[j] != '.' by {
        assert(s[j] == ma[j]);
    }
    assert(s[ma.len() as int] == '.');
    lemma_first_dot_unique(s, ma.len() as int);
    assert(s.subrange(0, ma.len() as int) =~= ma);
    assert(s.subrange(ma.len() as int + 1, s.len() as int) =~= mi);
    lemma_digits_of_nat_value(v.major as nat);
    lemma_digits_of_nat_value(v.minor as nat);
}

} // verus!
