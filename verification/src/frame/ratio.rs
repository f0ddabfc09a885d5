//! Exact ratios: the generic [`Rational`], the pixel aspect ratio that wraps it, and the frame
//! rate built on it — with their textual forms `NUM/DEN` and `NUM:DEN`.
use vstd::prelude::*;
use vstd::std_specs::convert::FromSpecImpl;
use crate::text::{
    chars_of, find_char, sub_chars, parse_i64_chars, push_signed_decimal, push_char, split_once,
    parse_i64, signed_decimal, lemma_parse_signed_decimal, lemma_decimal_digits, decimal,
    lemma_first_index_is, first_index,
};

verus! {

/// A generic exact ratio `num / den` — a non-negative numerator over a strictly positive
/// denominator.
///
/// Values are stored exactly as declared: the constructor does not reduce to lowest terms, so a
/// stream declaring `2/4` reads back as `2/4`. A `0` numerator is representable (FFmpeg's
/// "unknown" `0/1`). The default is `1/1`, the multiplicative identity.
#[derive(Debug, Clone, Copy, PartialEq, Eq, Hash, Structural)]
pub struct Rational {
    num: i64,
    den: i64,
}

impl Rational {
    /// The invariant every value keeps: `num >= 0` and `den > 0`.
    #[verifier::type_invariant]
    pub closed spec fn wf(self) -> bool {
        self.num >= 0 && self.den > 0
    }

    /// The ratio with these two fields.
    pub closed spec fn of(num: i64, den: i64) -> Rational {
        Rational { num, den }
    }

    /// The numerator.
    pub closed spec fn spec_num(self) -> i64 {
        self.num
    }

    /// The denominator.
    pub closed spec fn spec_den(self) -> i64 {
        self.den
    }

    pub proof fn lemma_of(num: i64, den: i64)
        ensures
            Rational::of(num, den).spec_num() == num,
            Rational::of(num, den).spec_den() == den,
            (num >= 0 && den > 0) <==> Rational::of(num, den).wf(),
    {
    }

    /// What the invariant says, in the terms of the two accessors.
    pub proof fn lemma_wf(r: Rational)
        ensures
            r.wf() <==> (r.spec_num() >= 0 && r.spec_den() > 0),
    {
    }

    /// Two ratios are equal exactly when their fields are.
    pub proof fn lemma_fields_decide(a: Rational, b: Rational)
        ensures
            (a == b) <==> (a.spec_num() == b.spec_num() && a.spec_den() == b.spec_den()),
            a == Rational::of(a.spec_num(), a.spec_den()),
    {
    }

    /// Constructs a `Rational` from an explicit numerator and positive denominator.
    pub fn new(num: i64, den: i64) -> (r: Self)
        requires
            num >= 0,
            den > 0,
        ensures
            r == Rational::of(num, den),
            r.wf(),
    {
        Rational { num, den }
    }

    /// The fallible constructor: [`None`] when `num < 0` or `den <= 0`.
    pub fn try_new(num: i64, den: i64) -> (r: Option<Self>)
        ensures
            r == (if num >= 0 && den > 0 {
                Some(Rational::of(num, den))
            } else {
                None
            }),
            r matches Some(v) ==> v.wf(),
    {
        if num >= 0 && den > 0 {
            Some(Rational { num, den })
        } else {
            None
        }
    }

    /// Returns the numerator.
    pub fn num(&self) -> (r: i64)
        ensures
            r == self.spec_num(),
            r >= 0,
    {
        proof {
            use_type_invariant(self);
        }
        self.num
    }

    /// Returns the (positive) denominator.
    pub fn den(&self) -> (r: i64)
        ensures
            r == self.spec_den(),
            r > 0,
    {
        proof {
            use_type_invariant(self);
        }
        self.den
    }

    /// `true` when the numerator is `0`.
    pub fn is_zero(&self) -> (r: bool)
        ensures
            r == (self.spec_num() == 0),
    {
        self.num == 0
    }

    /// Sets the numerator (consuming builder).
    pub fn with_num(self, num: i64) -> (r: Self)
        requires
            num >= 0,
        ensures
            r == Rational::of(num, self.spec_den()),
    {
        proof {
            use_type_invariant(&self);
        }
        Rational { num, den: self.den }
    }

    /// Sets the denominator (consuming builder).
    pub fn with_den(self, den: i64) -> (r: Self)
        requires
            den > 0,
        ensures
            r == Rational::of(self.spec_num(), den),
    {
        proof {
            use_type_invariant(&self);
        }
        Rational { num: self.num, den }
    }

    /// Sets the numerator in place.
    pub fn set_num(&mut self, num: i64) -> (r: &mut Self)
        requires
            num >= 0,
        ensures
            *r == Rational::of(num, old(self).spec_den()),
            *final(self) == *final(r),
    {
        proof {
            use_type_invariant(&*self);
        }
        *self = Rational { num, den: self.den };
        self
    }

    /// Sets the denominator in place.
    pub fn set_den(&mut self, den: i64) -> (r: &mut Self)
        requires
            den > 0,
        ensures
            *r == Rational::of(old(self).spec_num(), den),
            *final(self) == *final(r),
    {
        proof {
            use_type_invariant(&*self);
        }
        *self = Rational { num: self.num, den };
        self
    }

    /// The `NUM/DEN` rendering.
    pub open spec fn spec_text(self) -> Seq<char> {
        ratio_text(self, '/')
    }

    /// The `NUM/DEN` rendering (`"30000/1001"`).
    pub fn to_string(&self) -> (r: String)
        ensures
            r@ == self.spec_text(),
    {
        render_ratio(self, '/')
    }

    /// Parses the `NUM/DEN` form [`to_string`](Self::to_string) renders.
    ///
    /// # Errors
    ///
    /// [`RatioParseKind::Malformed`] unless the input is two `i64` numerals separated by the first
    /// `/`; [`RatioParseKind::OutOfRange`] when they violate `num >= 0`, `den > 0`.
    pub fn parse(s: &str) -> (r: Result<Self, ParseRationalError>)
        ensures
            match r {
                Ok(v) => parse_ratio_spec(s@, '/') == Ok::<Rational, RatioParseKind>(v),
                Err(e) => parse_ratio_spec(s@, '/') == Err::<Rational, RatioParseKind>(
                    e.spec_kind(),
                ),
            },
    {
        match parse_ratio(s, '/') {
            Ok(v) => Ok(v),
            Err(kind) => Err(ParseRationalError { kind }),
        }
    }
}

impl Default for Rational {
    /// `1/1` — the multiplicative identity.
    fn default() -> (r: Self)
        ensures
            r == Rational::of(1, 1),
    {
        Rational { num: 1, den: 1 }
    }
}

impl core::str::FromStr for Rational {
    type Err = ParseRationalError;

    fn from_str(s: &str) -> Result<Self, Self::Err> {
        Rational::parse(s)
    }
}

/// The rendering of a ratio: numerator, separator, denominator.
pub open spec fn ratio_text(r: Rational, sep: char) -> Seq<char> {
    signed_decimal(r.spec_num() as int) + seq![sep] + signed_decimal(r.spec_den() as int)
}

fn render_ratio(r: &Rational, sep: char) -> (out: String)
    ensures
        out@ == ratio_text(*r, sep),
{
    let mut out = String::new();
    push_signed_decimal(&mut out, r.num());
    push_char(&mut out, sep);
    push_signed_decimal(&mut out, r.den());
    assert(out@ =~= ratio_text(*r, sep));
    out
}

/// Why a ratio spelling was rejected.
#[derive(Debug, Clone, Copy, PartialEq, Eq, Hash, Structural)]
pub enum RatioParseKind {
    /// No separator, a non-numeric component, or trailing text.
    Malformed,
    /// The pair parsed, but violates `num >= 0`, `den > 0`.
    OutOfRange,
}

impl RatioParseKind {
    /// The words a rendering of this reason uses.
    pub open spec fn spec_text(self) -> Seq<char> {
        match self {
            RatioParseKind::Malformed => "malformed"@,
            RatioParseKind::OutOfRange => "value out of range"@,
        }
    }

    /// The words a rendering of this reason uses: `malformed` or `value out of range`.
    pub fn to_string(&self) -> (r: String)
        ensures
            r@ == self.spec_text(),
    {
        match self {
            RatioParseKind::Malformed => String::from_str("malformed"),
            RatioParseKind::OutOfRange => String::from_str("value out of range"),
        }
    }
}

/// What splitting at the first `sep` and reading both halves as `i64` makes of `text`.
pub open spec fn parse_ratio_spec(text: Seq<char>, sep: char) -> Result<Rational, RatioParseKind> {
    match split_once(text, sep) {
        None => Err(RatioParseKind::Malformed),
        Some((n, d)) => match (parse_i64(n), parse_i64(d)) {
            (Some(a), Some(b)) => if a >= 0 && b > 0 {
                Ok(Rational::of(a as i64, b as i64))
            } else {
                Err(RatioParseKind::OutOfRange)
            },
            _ => Err(RatioParseKind::Malformed),
        },
    }
}

/// Splits `NUM<sep>DEN` and runs the pair through the constructor's invariant, so parsing cannot
/// mint a ratio the constructor would reject.
fn parse_ratio(s: &str, sep: char) -> (r: Result<Rational, RatioParseKind>)
    ensures
        r == parse_ratio_spec(s@, sep),
{
    let cs = chars_of(s);
    let at = match find_char(cs.as_slice(), sep) {
        Some(i) => i,
        None => return Err(RatioParseKind::Malformed),
    };
    let len = cs.len();
    assert(at < len);
    let n = sub_chars(cs.as_slice(), 0, at);
    let d = sub_chars(cs.as_slice(), at + 1, len);
    let num = match parse_i64_chars(n.as_slice()) {
        Some(v) => v,
        None => return Err(RatioParseKind::Malformed),
    };
    let den = match parse_i64_chars(d.as_slice()) {
        Some(v) => v,
        None => return Err(RatioParseKind::Malformed),
    };
    match Rational::try_new(num, den) {
        Some(v) => Ok(v),
        None => Err(RatioParseKind::OutOfRange),
    }
}

/// **A ratio's rendering reads back as that ratio**, for each of the two separators.
pub proof fn lemma_ratio_round_trip(r: Rational, sep: char)
    requires
        r.wf(),
        !('0' <= sep && sep <= '9'),
    ensures
        parse_ratio_spec(ratio_text(r, sep), sep) == Ok::<Rational, RatioParseKind>(r),
{
    let n = signed_decimal(r.spec_num() as int);
    let d = signed_decimal(r.spec_den() as int);
    let t = n + seq![sep] + d;
    lemma_decimal_digits(r.spec_num() as nat);
    lemma_decimal_digits(r.spec_den() as nat);
    assert forall|j: int| 0 <= j < n.len() implies #[trigger] t[j] != sep by {
        assert(t[j] == n[j]);
        assert('0' <= n[j] <= '9');
    }
    assert(t[n.len() as int] == sep);
    lemma_first_index_is(t, sep, n.len() as int);
    assert(t.subrange(0, n.len() as int) =~= n);
    assert(t.subrange(n.len() as int + 1, t.len() as int) =~= d);
    lemma_parse_signed_decimal(r.spec_num() as int);
    lemma_parse_signed_decimal(r.spec_den() as int);
}

/// The error [`Rational`]'s parse returns, carrying why.
#[derive(Debug, Clone, Copy, PartialEq, Eq, Hash, Structural)]
pub struct ParseRationalError {
    kind: RatioParseKind,
}

impl ParseRationalError {
    /// Two values are equal exactly when their fields are.
    pub proof fn lemma_fields_decide(a: Self, b: Self)
        ensures
            (a == b) <==> (a.spec_kind() == b.spec_kind()),
    {
    }

    /// Why the input was rejected.
    pub closed spec fn spec_kind(self) -> RatioParseKind {
        self.kind
    }

    /// Why the input was rejected.
    pub fn kind(&self) -> (r: RatioParseKind)
        ensures
            r == self.spec_kind(),
    {
        self.kind
    }

    /// `not a NUM/DEN rational: <reason>`.
    pub fn to_string(&self) -> (r: String)
        ensures
            r@ == "not a NUM/DEN rational: "@ + self.spec_kind().spec_text(),
    {
        let mut out = String::from_str("not a NUM/DEN rational: ");
        let reason = self.kind.to_string();
        out.append(reason.as_str());
        out
    }
}

/// The error [`SampleAspectRatio`]'s parse returns — the same two cases over `NUM:DEN`.
#[derive(Debug, Clone, Copy, PartialEq, Eq, Hash, Structural)]
pub struct ParseSampleAspectRatioError {
    kind: RatioParseKind,
}

impl ParseSampleAspectRatioError {
    /// Two values are equal exactly when their fields are.
    pub proof fn lemma_fields_decide(a: Self, b: Self)
        ensures
            (a == b) <==> (a.spec_kind() == b.spec_kind()),
    {
    }

    /// Why the input was rejected.
    pub closed spec fn spec_kind(self) -> RatioParseKind {
        self.kind
    }

    /// Why the input was rejected.
    pub fn kind(&self) -> (r: RatioParseKind)
        ensures
            r == self.spec_kind(),
    {
        self.kind
    }

    /// `not a NUM:DEN sample aspect ratio: <reason>`.
    pub fn to_string(&self) -> (r: String)
        ensures
            r@ == "not a NUM:DEN sample aspect ratio: "@ + self.spec_kind().spec_text(),
    {
        let mut out = String::from_str("not a NUM:DEN sample aspect ratio: ");
        let reason = self.kind.to_string();
        out.append(reason.as_str());
        out
    }
}

/// Pixel (sample) aspect ratio — a pixel's display width over its display height.
///
/// A newtype over [`Rational`]; the default is `1:1`, square pixels. FFmpeg's `0:1` means
/// "unknown", which callers normalise to the default before construction.
#[derive(Debug, Clone, Copy, PartialEq, Eq, Hash, Structural)]
pub struct SampleAspectRatio(Rational);

impl SampleAspectRatio {
    /// The ratio this aspect wraps.
    pub closed spec fn spec_rational(self) -> Rational {
        self.0
    }

    /// The aspect wrapping `r`.
    pub closed spec fn wrap(r: Rational) -> SampleAspectRatio {
        SampleAspectRatio(r)
    }

    /// Wrapping a ratio and reading it back are inverse, both ways round.
    pub proof fn lemma_wrap(r: Rational, s: SampleAspectRatio)
        ensures
            SampleAspectRatio::wrap(r).spec_rational() == r,
            SampleAspectRatio::wrap(s.spec_rational()) == s,
            (s == SampleAspectRatio::wrap(r)) <==> (s.spec_rational() == r),
    {
    }

    /// Constructs a `SampleAspectRatio` from a numerator and positive denominator.
    pub fn new(num: i64, den: i64) -> (r: Self)
        requires
            num >= 0,
            den > 0,
        ensures
            r == SampleAspectRatio::wrap(Rational::of(num, den)),
    {
        SampleAspectRatio(Rational::new(num, den))
    }

    /// Returns the numerator (display-width units).
    pub fn num(&self) -> (r: i64)
        ensures
            r == self.spec_rational().spec_num(),
            r >= 0,
    {
        self.0.num()
    }

    /// Returns the (positive) denominator (display-height units).
    pub fn den(&self) -> (r: i64)
        ensures
            r == self.spec_rational().spec_den(),
            r > 0,
    {
        self.0.den()
    }

    /// `true` when the pixels are square (`num == den`).
    pub fn is_square(&self) -> (r: bool)
        ensures
            r == (self.spec_rational().spec_num() == self.spec_rational().spec_den()),
    {
        self.0.num() == self.0.den()
    }

    /// This aspect as a generic [`Rational`].
    pub fn rational(&self) -> (r: Rational)
        ensures
            r == self.spec_rational(),
    {
        self.0
    }

    /// Alias of [`Self::rational`].
    pub fn as_rational(&self) -> (r: Rational)
        ensures
            r == self.spec_rational(),
    {
        self.rational()
    }

    /// Sets the numerator (consuming builder).
    pub fn with_num(self, num: i64) -> (r: Self)
        requires
            num >= 0,
        ensures
            r == SampleAspectRatio::wrap(Rational::of(num, self.spec_rational().spec_den())),
    {
        SampleAspectRatio(self.0.with_num(num))
    }

    /// Sets the denominator (consuming builder).
    pub fn with_den(self, den: i64) -> (r: Self)
        requires
            den > 0,
        ensures
            r == SampleAspectRatio::wrap(Rational::of(self.spec_rational().spec_num(), den)),
    {
        SampleAspectRatio(self.0.with_den(den))
    }

    /// Sets the numerator in place.
    pub fn set_num(&mut self, num: i64) -> (r: &mut Self)
        requires
            num >= 0,
        ensures
            *r == SampleAspectRatio::wrap(
                Rational::of(num, old(self).spec_rational().spec_den()),
            ),
            *final(self) == *final(r),
    {
        let next = self.0.with_num(num);
        self.0 = next;
        self
    }

    /// Sets the denominator in place.
    pub fn set_den(&mut self, den: i64) -> (r: &mut Self)
        requires
            den > 0,
        ensures
            *r == SampleAspectRatio::wrap(
                Rational::of(old(self).spec_rational().spec_num(), den),
            ),
            *final(self) == *final(r),
    {
        let next = self.0.with_den(den);
        self.0 = next;
        self
    }

    /// The `NUM:DEN` rendering.
    pub open spec fn spec_text(self) -> Seq<char> {
        ratio_text(self.spec_rational(), ':')
    }

    /// The `NUM:DEN` rendering (`"40:33"`).
    pub fn to_string(&self) -> (r: String)
        ensures
            r@ == self.spec_text(),
    {
        render_ratio(&self.0, ':')
    }

    /// Parses the `NUM:DEN` form — a colon, where a bare [`Rational`] is written with `/`.
    pub fn parse(s: &str) -> (r: Result<Self, ParseSampleAspectRatioError>)
        ensures
            match r {
                Ok(v) => parse_ratio_spec(s@, ':') == Ok::<Rational, RatioParseKind>(
                    v.spec_rational(),
                ),
                Err(e) => parse_ratio_spec(s@, ':') == Err::<Rational, RatioParseKind>(
                    e.spec_kind(),
                ),
            },
    {
        match parse_ratio(s, ':') {
            Ok(v) => Ok(SampleAspectRatio(v)),
            Err(kind) => Err(ParseSampleAspectRatioError { kind }),
        }
    }
}

impl Default for SampleAspectRatio {
    /// `1:1` — square pixels.
    fn default() -> (r: Self)
        ensures
            r == SampleAspectRatio::wrap(Rational::of(1, 1)),
    {
        SampleAspectRatio(Rational::new(1, 1))
    }
}

impl core::str::FromStr for SampleAspectRatio {
    type Err = ParseSampleAspectRatioError;

    fn from_str(s: &str) -> Result<Self, Self::Err> {
        SampleAspectRatio::parse(s)
    }
}

impl From<SampleAspectRatio> for Rational {
    /// Unwraps the inner ratio.
    fn from(sar: SampleAspectRatio) -> (r: Rational) {
        sar.0
    }
}

impl FromSpecImpl<SampleAspectRatio> for Rational {
    open spec fn obeys_from_spec() -> bool {
        true
    }

    open spec fn from_spec(sar: SampleAspectRatio) -> Rational {
        sar.spec_rational()
    }
}

impl From<Rational> for SampleAspectRatio {
    /// Wraps a generic ratio as a pixel aspect ratio.
    fn from(rate: Rational) -> (r: SampleAspectRatio) {
        SampleAspectRatio(rate)
    }
}

impl FromSpecImpl<Rational> for SampleAspectRatio {
    open spec fn obeys_from_spec() -> bool {
        true
    }

    open spec fn from_spec(rate: Rational) -> SampleAspectRatio {
        SampleAspectRatio::wrap(rate)
    }
}

/// **A rational's `NUM/DEN` text parses back as that rational.**
pub proof fn law_rational_text_round_trip(r: Rational)
    requires
        r.wf(),
    ensures
        parse_ratio_spec(r.spec_text(), '/') == Ok::<Rational, RatioParseKind>(r),
{
    lemma_ratio_round_trip(r, '/');
}

/// **A sample aspect ratio's `NUM:DEN` text parses back as that aspect.**
pub proof fn law_sample_aspect_ratio_text_round_trip(s: SampleAspectRatio)
    requires
        s.spec_rational().wf(),
    ensures
        parse_ratio_spec(s.spec_text(), ':') == Ok::<Rational, RatioParseKind>(s.spec_rational()),
{
    lemma_ratio_round_trip(s.spec_rational(), ':');
}

/// **The two separators are not interchangeable**: a `NUM/DEN` text holds no `:`, so it is not a
/// `NUM:DEN` ratio, and a `NUM:DEN` text holds no `/`.
pub proof fn law_separators_are_distinct(r: Rational)
    requires
        r.wf(),
    ensures
        parse_ratio_spec(ratio_text(r, '/'), ':') == Err::<Rational, RatioParseKind>(
            RatioParseKind::Malformed,
        ),
        parse_ratio_spec(ratio_text(r, ':'), '/') == Err::<Rational, RatioParseKind>(
            RatioParseKind::Malformed,
        ),
{
    lemma_decimal_digits(r.spec_num() as nat);
    lemma_decimal_digits(r.spec_den() as nat);
    let n = signed_decimal(r.spec_num() as int);
    let d = signed_decimal(r.spec_den() as int);
    let a = n + seq!['/'] + d;
    let b = n + seq![':'] + d;
    crate::text::lemma_first_index(a, ':');
    crate::text::lemma_first_index(b, '/');
    assert forall|j: int| 0 <= j < a.len() implies #[trigger] a[j] != ':' by {
        if j < n.len() {
            assert(a[j] == n[j]);
        } else if j > n.len() {
            assert(a[j] == d[j - n.len() - 1]);
        }
    }
    assert forall|j: int| 0 <= j < b.len() implies #[trigger] b[j] != '/' by {
        if j < n.len() {
            assert(b[j] == n[j]);
        } else if j > n.len() {
            assert(b[j] == d[j - n.len() - 1]);
        }
    }
}

/// The frame rate of a video stream as an exact [`Rational`] plus a variable-frame-rate marker.
///
/// The default is `1/1`, constant frame rate.
#[derive(Debug, Clone, Copy, PartialEq, Eq, Hash, Structural)]
pub struct FrameRate {
    rate: Rational,
    is_vfr: bool,
}

impl FrameRate {
    /// Two values are equal exactly when their fields are.
    pub proof fn lemma_fields_decide(a: Self, b: Self)
        ensures
            (a == b) <==> (a.spec_rate() == b.spec_rate() && a.spec_is_vfr() == b.spec_is_vfr()),
    {
    }

    /// The nominal rate.
    pub closed spec fn spec_rate(self) -> Rational {
        self.rate
    }

    /// The variable-frame-rate marker.
    pub closed spec fn spec_is_vfr(self) -> bool {
        self.is_vfr
    }

    /// Constructs a `FrameRate` from a rate and a variable-frame-rate flag.
    pub fn new(rate: Rational, is_vfr: bool) -> (r: Self)
        ensures
            r.spec_rate() == rate,
            r.spec_is_vfr() == is_vfr,
    {
        FrameRate { rate, is_vfr }
    }

    /// Returns the nominal frames-per-second ratio.
    pub fn rate(&self) -> (r: Rational)
        ensures
            r == self.spec_rate(),
    {
        self.rate
    }

    /// `true` when the stream is variable-frame-rate.
    pub fn is_vfr(&self) -> (r: bool)
        ensures
            r == self.spec_is_vfr(),
    {
        self.is_vfr
    }

    /// Sets the rate (consuming builder).
    pub fn with_rate(self, rate: Rational) -> (r: Self)
        ensures
            r.spec_rate() == rate,
            r.spec_is_vfr() == self.spec_is_vfr(),
    {
        FrameRate { rate, is_vfr: self.is_vfr }
    }

    /// Marks the stream variable-frame-rate (consuming builder).
    pub fn with_is_vfr(self) -> (r: Self)
        ensures
            r.spec_rate() == self.spec_rate(),
            r.spec_is_vfr(),
    {
        FrameRate { rate: self.rate, is_vfr: true }
    }

    /// Assigns the raw flag (consuming builder).
    pub fn maybe_is_vfr(self, is_vfr: bool) -> (r: Self)
        ensures
            r.spec_rate() == self.spec_rate(),
            r.spec_is_vfr() == is_vfr,
    {
        FrameRate { rate: self.rate, is_vfr }
    }

    /// Sets the rate in place.
    pub fn set_rate(&mut self, rate: Rational) -> (r: &mut Self)
        ensures
            r.spec_rate() == rate,
            r.spec_is_vfr() == old(self).spec_is_vfr(),
            *final(self) == *final(r),
    {
        self.rate = rate;
        self
    }

    /// Marks the stream variable-frame-rate in place.
    pub fn set_is_vfr(&mut self) -> (r: &mut Self)
        ensures
            r.spec_rate() == old(self).spec_rate(),
            r.spec_is_vfr(),
            *final(self) == *final(r),
    {
        self.is_vfr = true;
        self
    }

    /// Assigns the raw flag in place.
    pub fn update_is_vfr(&mut self, is_vfr: bool) -> (r: &mut Self)
        ensures
            r.spec_rate() == old(self).spec_rate(),
            r.spec_is_vfr() == is_vfr,
            *final(self) == *final(r),
    {
        self.is_vfr = is_vfr;
        self
    }

    /// Clears the flag.
    pub fn clear_is_vfr(&mut self) -> (r: &mut Self)
        ensures
            r.spec_rate() == old(self).spec_rate(),
            !r.spec_is_vfr(),
            *final(self) == *final(r),
    {
        self.is_vfr = false;
        self
    }
}

impl Default for FrameRate {
    /// `1/1`, constant frame rate.
    fn default() -> (r: Self)
        ensures
            r.spec_rate() == Rational::of(1, 1),
            !r.spec_is_vfr(),
    {
        FrameRate { rate: Rational::new(1, 1), is_vfr: false }
    }
}

} // verus!
