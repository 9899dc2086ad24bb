//! The textual form of a ratio: `numerator/denominator`, or the numerator
//! alone where the denominator is one.

use vstd::prelude::*;
use crate::backing::Backing;
use crate::fraction::Fraction;
use crate::ratio::Ratio;
use crate::text::{decimal_text, lemma_decimal_round_trip};

verus! {

/// Why a text is no ratio.
#[derive(Copy, Clone, Debug, PartialEq, Eq)]
pub enum RatioErrorKind {
    /// A part of the text is no integer of the backing type, a `/` is
    /// missing where one is asked for, or the ratio has no lowest terms in
    /// the backing type.
    ParseError,
    /// The denominator is zero.
    ZeroDenominator,
}

/// The error of parsing a ratio.
#[derive(Copy, Clone, Debug, PartialEq)]
pub struct ParseRatioError {
    kind: RatioErrorKind,
}

impl View for ParseRatioError {
    type V = RatioErrorKind;

    closed spec fn view(&self) -> RatioErrorKind {
        self.kind
    }
}

impl RatioErrorKind {
    /// A few words on the error.
    pub fn description(self) -> (r: &'static str)
        ensures
            self is ParseError ==> r@ == "failed to parse integer"@,
            self is ZeroDenominator ==> r@ == "zero value denominator"@,
    {
        match self {
            RatioErrorKind::ParseError => "failed to parse integer",
            RatioErrorKind::ZeroDenominator => "zero value denominator",
        }
    }
}

impl ParseRatioError {
    /// The error of the given kind.
    pub fn new(kind: RatioErrorKind) -> (r: ParseRatioError)
        ensures
            r@ == kind,
    {
        ParseRatioError { kind }
    }

    /// The kind of the error.
    pub fn kind(&self) -> (r: RatioErrorKind)
        ensures
            r == self@,
    {
        self.kind
    }

    /// A few words on the error.
    pub fn description(&self) -> (r: &'static str)
        ensures
            self@ is ParseError ==> r@ == "failed to parse integer"@,
            self@ is ZeroDenominator ==> r@ == "zero value denominator"@,
    {
        self.kind.description()
    }

    /// The words of `description`, as an owned text.
    pub fn to_string(&self) -> (r: String)
        ensures
            self@ is ParseError ==> r@ == "failed to parse integer"@,
            self@ is ZeroDenominator ==> r@ == "zero value denominator"@,
    {
        self.kind.description().to_owned()
    }
}

/// The place of the first `/` in `s`, or the length of `s` where it holds
/// none.
pub open spec fn slash_index(s: Seq<char>) -> int
    decreases s.len(),
{
    if s.len() == 0 || s[0] == '/' {
        0
    } else {
        1 + slash_index(s.subrange(1, s.len() as int))
    }
}

/// `slash_index` is the first place that holds a `/`.
pub proof fn lemma_slash_index(s: Seq<char>, i: int)
    requires
        0 <= i <= s.len(),
        forall|j: int| 0 <= j < i ==> #[trigger] s[j] != '/',
        i < s.len() ==> s[i] == '/',
    ensures
        slash_index(s) == i,
    decreases s.len(),
{
    if i > 0 {
        let rest = s.subrange(1, s.len() as int);
        assert(s[0] != '/');
        assert forall|j: int| 0 <= j < i - 1 implies #[trigger] rest[j] != '/' by {
            assert(rest[j] == s[j + 1]);
        }
        lemma_slash_index(rest, i - 1);
    }
}

impl Fraction {
    /// The text that a ratio is rendered as: the numerator alone where the
    /// denominator is one, else numerator, `/` and denominator, all in
    /// decimal.
    pub open spec fn text(self) -> Seq<char> {
        if self.den == 1 {
            decimal_text(self.num)
        } else {
            decimal_text(self.num) + seq!['/'] + decimal_text(self.den)
        }
    }
}

impl<T: Backing> Ratio<T> {
    /// The ratio of a numerator and a denominator that were read from a
    /// text, where `None` stands for a part that is no integer.
    pub open spec fn parsed_parts(numer: Option<int>, denom: Option<int>) -> Result<
        Fraction,
        RatioErrorKind,
    > {
        match (numer, denom) {
            (Some(n), Some(d)) => {
                let f = Fraction { num: n, den: d };
                if d == 0 {
                    Err(RatioErrorKind::ZeroDenominator)
                } else if Self::can_reduce(f) {
                    Ok(f.reduced())
                } else {
                    Err(RatioErrorKind::ParseError)
                }
            },
            _ => Err(RatioErrorKind::ParseError),
        }
    }

    /// What `from_str_radix` makes of a text: the text before the first
    /// `/` is the numerator and all the text behind it the denominator,
    /// both in `radix`; a text without `/` is an error.
    pub open spec fn parsed_radix(s: Seq<char>, radix: int) -> Result<Fraction, RatioErrorKind> {
        let i = slash_index(s);
        if i == s.len() {
            Err(RatioErrorKind::ParseError)
        } else {
            Self::parsed_parts(
                T::text_value(s.subrange(0, i), radix),
                T::text_value(s.subrange(i + 1, s.len() as int), radix),
            )
        }
    }

    /// What `from_str` makes of a text: the text before the first `/` is
    /// the numerator and all the text behind it the denominator, both in
    /// decimal; a text without `/` is the numerator over one.
    pub open spec fn parsed(s: Seq<char>) -> Result<Fraction, RatioErrorKind> {
        let i = slash_index(s);
        Self::parsed_parts(
            T::text_value(s.subrange(0, i), 10),
            if i == s.len() {
                Some(1)
            } else {
                T::text_value(s.subrange(i + 1, s.len() as int), 10)
            },
        )
    }

    /// The model of a result of parsing.
    pub open spec fn result_view(r: Result<Ratio<T>, ParseRatioError>) -> Result<
        Fraction,
        RatioErrorKind,
    > {
        match r {
            Ok(v) => Ok(v@),
            Err(e) => Err(e@),
        }
    }

    /// The ratio of two parts as they were read.
    fn from_parts(numer: Option<T>, denom: Option<T>) -> (r: Result<Ratio<T>, ParseRatioError>)
        ensures
            Self::result_view(r) == Self::parsed_parts(
                match numer {
                    Some(n) => Some(n.val()),
                    None => None,
                },
                match denom {
                    Some(d) => Some(d.val()),
                    None => None,
                },
            ),
    {
        match (numer, denom) {
            (Some(n), Some(d)) => {
                if d.is_zero() {
                    Err(ParseRatioError { kind: RatioErrorKind::ZeroDenominator })
                } else {
                    match Ratio::checked_new(n, d) {
                        Some(v) => Ok(v),
                        None => Err(ParseRatioError { kind: RatioErrorKind::ParseError }),
                    }
                }
            },
            _ => Err(ParseRatioError { kind: RatioErrorKind::ParseError }),
        }
    }

    /// Parses `numerator/denominator`, both in `radix`.
    pub fn from_str_radix(s: &str, radix: u32) -> (r: Result<Ratio<T>, ParseRatioError>)
        requires
            2 <= radix <= 36,
        ensures
            Self::result_view(r) == Self::parsed_radix(s@, radix as int),
    {
        let n = s.unicode_len();
        let i = slash_position(s);
        if i == n {
            return Err(ParseRatioError { kind: RatioErrorKind::ParseError });
        }
        let numer = T::parse_radix(s.substring_char(0, i), radix);
        let denom = T::parse_radix(s.substring_char(i + 1, n), radix);
        Self::from_parts(numer, denom)
    }

    /// Parses `numerator/denominator` or `numerator`, in decimal.
    pub fn from_str(s: &str) -> (r: Result<Ratio<T>, ParseRatioError>)
        ensures
            Self::result_view(r) == Self::parsed(s@),
    {
        let n = s.unicode_len();
        let i = slash_position(s);
        let numer = T::parse_radix(s.substring_char(0, i), 10);
        let denom = if i == n {
            Some(T::one())
        } else {
            T::parse_radix(s.substring_char(i + 1, n), 10)
        };
        Self::from_parts(numer, denom)
    }

    /// Renders the numerator alone where the denominator is one, else
    /// `numerator/denominator`.
    pub fn to_string(&self) -> (r: String)
        ensures
            r@ == self@.text(),
    {
        if self.is_integer() {
            self.numer().to_text()
        } else {
            proof {
                reveal_strlit("/");
            }
            let r = self.numer().to_text().concat("/").concat(self.denom().to_text().as_str());
            assert(r@ =~= self@.text());
            r
        }
    }

    /// Parsing what a ratio is rendered as gives the ratio in lowest terms.
    pub proof fn lemma_parse_rendered(f: Fraction)
        requires
            T::fits(f.num),
            T::fits(f.den),
            Self::can_reduce(f),
        ensures
            Self::parsed(f.text()) == Ok::<Fraction, RatioErrorKind>(f.reduced()),
    {
        let s = f.text();
        let dn = decimal_text(f.num);
        let dd = decimal_text(f.den);
        lemma_decimal_round_trip(f.num, true);
        lemma_decimal_round_trip(f.den, true);
        T::lemma_text_round_trip(f.num);
        T::lemma_text_round_trip(f.den);
        if f.den == 1 {
            lemma_slash_index(s, s.len() as int);
            assert(s.subrange(0, s.len() as int) =~= dn);
        } else {
            let i = dn.len() as int;
            assert forall|j: int| 0 <= j < i implies #[trigger] s[j] != '/' by {
                assert(s[j] == dn[j]);
            }
            assert(s[i] == '/');
            lemma_slash_index(s, i);
            assert(s.subrange(0, i) =~= dn);
            assert(s.subrange(i + 1, s.len() as int) =~= dd);
        }
    }
}

/// The place of the first `/` in `s`, or the length of `s`.
fn slash_position(s: &str) -> (i: usize)
    ensures
        i == slash_index(s@),
        i <= s@.len(),
{
    let n = s.unicode_len();
    let mut i: usize = 0;
    while i < n
        invariant
            i <= n,
            n == s@.len(),
            forall|j: int| 0 <= j < i ==> #[trigger] s@[j] != '/',
        decreases n - i,
    {
        if s.get_char(i) == '/' {
            proof {
                lemma_slash_index(s@, i as int);
            }
            return i;
        }
        i = i + 1;
    }
    proof {
        lemma_slash_index(s@, i as int);
    }
    i
}

impl<T: Backing> std::str::FromStr for Ratio<T> {
    type Err = ParseRatioError;

    /// Parses `numerator/denominator` or `numerator`, in decimal.
    fn from_str(s: &str) -> (r: Result<Ratio<T>, ParseRatioError>)
        ensures
            Ratio::<T>::result_view(r) == Ratio::<T>::parsed(s@),
    {
        Ratio::<T>::from_str(s)
    }
}

} // verus!
