//! Raster geometry: [`Dimensions`] (a width and a height in pixels) and [`Rect`] (an axis-aligned
//! rectangle inside a raster), with the derived shapes a viewer sees — storage aspect ratio,
//! display size under a pixel aspect ratio — and the containment predicate.
use vstd::prelude::*;
use super::ratio::{Rational, SampleAspectRatio};
use crate::text::{
    chars_of, find_char, sub_chars, parse_u32_chars, push_decimal, push_char, split_once,
    parse_unsigned, decimal, lemma_decimal_digits, lemma_first_index_is,
};

verus! {

/// The largest `u32`, as a spec constant.
pub open spec fn u32_max() -> nat {
    4294967295
}

/// A `(width, height)` pair in pixels. The default is `0×0`, the unset state.
#[derive(Debug, Clone, Copy, PartialEq, Eq, Hash, Structural)]
pub struct Dimensions {
    width: u32,
    height: u32,
}

impl Dimensions {
    /// Two values are equal exactly when their fields are.
    pub proof fn lemma_fields_decide(a: Self, b: Self)
        ensures
            (a == b) <==> (a.spec_width() == b.spec_width() && a.spec_height() == b.spec_height()),
    {
    }

    /// The pair with these two fields.
    pub closed spec fn of(width: u32, height: u32) -> Dimensions {
        Dimensions { width, height }
    }

    /// The width.
    pub closed spec fn spec_width(self) -> u32 {
        self.width
    }

    /// The height.
    pub closed spec fn spec_height(self) -> u32 {
        self.height
    }

    pub proof fn lemma_of(width: u32, height: u32, d: Dimensions)
        ensures
            Dimensions::of(width, height).spec_width() == width,
            Dimensions::of(width, height).spec_height() == height,
            d == Dimensions::of(d.spec_width(), d.spec_height()),
    {
    }

    /// Constructs a `Dimensions` with the given width and height in pixels.
    pub fn new(width: u32, height: u32) -> (r: Self)
        ensures
            r == Dimensions::of(width, height),
    {
        Dimensions { width, height }
    }

    /// Returns the width in pixels.
    pub fn width(&self) -> (r: u32)
        ensures
            r == self.spec_width(),
    {
        self.width
    }

    /// Returns the height in pixels.
    pub fn height(&self) -> (r: u32)
        ensures
            r == self.spec_height(),
    {
        self.height
    }

    /// Sets the width (consuming builder).
    pub fn with_width(self, width: u32) -> (r: Self)
        ensures
            r == Dimensions::of(width, self.spec_height()),
    {
        Dimensions { width, height: self.height }
    }

    /// Sets the width in place.
    pub fn set_width(&mut self, width: u32) -> (r: &mut Self)
        ensures
            *r == Dimensions::of(width, old(self).spec_height()),
            *final(self) == *final(r),
    {
        self.width = width;
        self
    }

    /// Sets the height (consuming builder).
    pub fn with_height(self, height: u32) -> (r: Self)
        ensures
            r == Dimensions::of(self.spec_width(), height),
    {
        Dimensions { width: self.width, height }
    }

    /// Sets the height in place.
    pub fn set_height(&mut self, height: u32) -> (r: &mut Self)
        ensures
            *r == Dimensions::of(old(self).spec_width(), height),
            *final(self) == *final(r),
    {
        self.height = height;
        self
    }

    /// `true` when both width and height are zero — the unset state.
    pub fn is_zero(&self) -> (r: bool)
        ensures
            r == (self.spec_width() == 0 && self.spec_height() == 0),
    {
        self.width == 0 && self.height == 0
    }

    /// The storage aspect ratio `width / height`, exact and unreduced: [`None`] when the height is
    /// zero, where the ratio is undefined.
    pub fn aspect_ratio(&self) -> (r: Option<Rational>)
        ensures
            r == aspect_of(self.spec_width(), self.spec_height()),
            r matches Some(v) ==> v.wf(),
    {
        ratio_of(self.width, self.height)
    }

    /// The display size these coded dimensions take under a pixel aspect ratio.
    pub open spec fn spec_display_size(self, sar: SampleAspectRatio) -> Option<Dimensions> {
        let num = sar.spec_rational().spec_num() as int;
        let den = sar.spec_rational().spec_den() as int;
        if num == 0 {
            None
        } else {
            let scaled = (self.spec_width() as int * num + den / 2) / den;
            if scaled > u32_max() {
                None
            } else {
                Some(Dimensions::of(scaled as u32, self.spec_height()))
            }
        }
    }

    /// Applies a [`SampleAspectRatio`] to these coded dimensions, returning the size the picture
    /// occupies in square pixels.
    ///
    /// The SAR scales the horizontal axis and leaves the vertical one alone; `width × num / den`
    /// is rounded half away from zero, FFmpeg's `av_rescale` — `(a * b + c / 2) / c`, computed in
    /// `i128` so no input can overflow it.
    ///
    /// [`None`] when the SAR's numerator is zero (FFmpeg's "unknown" aspect) and when the derived
    /// width exceeds `u32::MAX`.
    pub fn display_size(&self, sar: SampleAspectRatio) -> (r: Option<Self>)
        ensures
            r == self.spec_display_size(sar),
    {
        let num = sar.num();
        if num == 0 {
            return None;
        }
        let den = sar.den();
        let w = self.width as i128;
        let n = num as i128;
        let d = den as i128;
        assert(0 <= w * n <= 4294967295 * 9223372036854775807) by (nonlinear_arith)
            requires
                0 <= w <= 4294967295,
                0 <= n <= 9223372036854775807,
        ;
        let scaled = (w * n + d / 2) / d;
        if scaled > 4294967295 {
            return None;
        }
        Some(Dimensions { width: scaled as u32, height: self.height })
    }

    /// Whether `rect` lies entirely inside the raster these dimensions describe:
    /// `rect.x + rect.width <= width` and the same on the vertical axis, with the sums taken
    /// without overflow — so an extent that passes `u32::MAX` is simply not contained.
    pub fn contains(&self, rect: &Rect) -> (r: bool)
        ensures
            r == (rect.spec_x() + rect.spec_width() <= self.spec_width() && rect.spec_y()
                + rect.spec_height() <= self.spec_height()),
    {
        match (rect.x.checked_add(rect.width), rect.y.checked_add(rect.height)) {
            (Some(right), Some(bottom)) => right <= self.width && bottom <= self.height,
            _ => false,
        }
    }

    /// The `WIDTHxHEIGHT` rendering.
    pub open spec fn spec_text(self) -> Seq<char> {
        decimal(self.spec_width() as nat) + seq!['x'] + decimal(self.spec_height() as nat)
    }

    /// The `WIDTHxHEIGHT` rendering (`"1920x1080"`).
    pub fn to_string(&self) -> (r: String)
        ensures
            r@ == self.spec_text(),
    {
        let mut out = String::new();
        push_decimal(&mut out, self.width as u64);
        push_char(&mut out, 'x');
        push_decimal(&mut out, self.height as u64);
        assert(out@ =~= self.spec_text());
        out
    }

    /// Parses the `WIDTHxHEIGHT` form [`to_string`](Self::to_string) renders.
    ///
    /// # Errors
    ///
    /// [`ParseDimensionsError`] unless the input is exactly two `u32` numerals separated by the
    /// first `x`.
    pub fn parse(s: &str) -> (r: Result<Self, ParseDimensionsError>)
        ensures
            r == (match parse_dimensions(s@) {
                Some(d) => Ok::<Dimensions, ParseDimensionsError>(d),
                None => Err(ParseDimensionsError),
            }),
    {
        let cs = chars_of(s);
        let len = cs.len();
        let at = match find_char(cs.as_slice(), 'x') {
            Some(i) => i,
            None => return Err(ParseDimensionsError),
        };
        let w = sub_chars(cs.as_slice(), 0, at);
        let h = sub_chars(cs.as_slice(), at + 1, len);
        let width = match parse_u32_chars(w.as_slice()) {
            Some(v) => v,
            None => return Err(ParseDimensionsError),
        };
        let height = match parse_u32_chars(h.as_slice()) {
            Some(v) => v,
            None => return Err(ParseDimensionsError),
        };
        Ok(Dimensions { width, height })
    }
}

impl Default for Dimensions {
    /// `0×0`.
    fn default() -> (r: Self)
        ensures
            r == Dimensions::of(0, 0),
    {
        Dimensions { width: 0, height: 0 }
    }
}

impl core::str::FromStr for Dimensions {
    type Err = ParseDimensionsError;

    fn from_str(s: &str) -> Result<Self, Self::Err> {
        Dimensions::parse(s)
    }
}

/// The storage ratio of a `width × height` raster: [`None`] for a zero height.
pub open spec fn aspect_of(width: u32, height: u32) -> Option<Rational> {
    if height == 0 {
        None
    } else {
        Some(Rational::of(width as i64, height as i64))
    }
}

fn ratio_of(width: u32, height: u32) -> (r: Option<Rational>)
    ensures
        r == aspect_of(width, height),
        r matches Some(v) ==> v.wf(),
{
    if height == 0 {
        None
    } else {
        Some(Rational::new(width as i64, height as i64))
    }
}

/// What the `WIDTHxHEIGHT` parse makes of a text.
pub open spec fn parse_dimensions(text: Seq<char>) -> Option<Dimensions> {
    match split_once(text, 'x') {
        None => None,
        Some((w, h)) => match (parse_unsigned(w, u32_max()), parse_unsigned(h, u32_max())) {
            (Some(a), Some(b)) => Some(Dimensions::of(a as u32, b as u32)),
            _ => None,
        },
    }
}

/// **The rendering of any dimensions parses back as those dimensions** — `WIDTHxHEIGHT` is an
/// injective form, so the parse is a true inverse for every value.
pub proof fn law_dimensions_text_round_trip(d: Dimensions)
    ensures
        parse_dimensions(d.spec_text()) == Some(d),
{
    let w = decimal(d.spec_width() as nat);
    let h = decimal(d.spec_height() as nat);
    let t = d.spec_text();
    lemma_decimal_digits(d.spec_width() as nat);
    lemma_decimal_digits(d.spec_height() as nat);
    assert(t == w + seq!['x'] + h);
    assert forall|j: int| 0 <= j < w.len() implies #[trigger] t[j] != 'x' by {
        assert(t[j] == w[j]);
    }
    assert(t[w.len() as int] == 'x');
    lemma_first_index_is(t, 'x', w.len() as int);
    assert(t.subrange(0, w.len() as int) =~= w);
    assert(t.subrange(w.len() as int + 1, t.len() as int) =~= h);
    crate::text::lemma_parse_decimal(d.spec_width() as nat, u32_max());
    crate::text::lemma_parse_decimal(d.spec_height() as nat, u32_max());
}

/// **A known pixel aspect never touches the vertical axis**, and square pixels are the identity.
pub proof fn law_display_size_keeps_height(d: Dimensions, sar: SampleAspectRatio)
    requires
        sar.spec_rational().wf(),
    ensures
        d.spec_display_size(sar) matches Some(out) ==> out.spec_height() == d.spec_height(),
        sar.spec_rational().spec_num() == sar.spec_rational().spec_den() ==> d.spec_display_size(
            sar,
        ) == Some(d),
{
    let num = sar.spec_rational().spec_num() as int;
    let den = sar.spec_rational().spec_den() as int;
    Rational::lemma_wf(sar.spec_rational());
    Dimensions::lemma_of(d.spec_width(), d.spec_height(), d);
    if num == den {
        let w = d.spec_width() as int;
        assert((w * num + den / 2) / den == w) by (nonlinear_arith)
            requires
                num == den,
                den > 0,
                w >= 0,
        ;
    }
}

/// The error [`Dimensions`]'s parse returns. The rejected input is not retained.
#[derive(Debug, Clone, Copy, PartialEq, Eq, Hash, Structural)]
pub struct ParseDimensionsError;

impl ParseDimensionsError {
    /// `not a WIDTHxHEIGHT dimension pair`.
    pub fn to_string(&self) -> (r: String)
        ensures
            r@ == "not a WIDTHxHEIGHT dimension pair"@,
    {
        String::from_str("not a WIDTHxHEIGHT dimension pair")
    }
}

/// An axis-aligned integer rectangle — a visible region inside a coded raster. The default is the
/// empty rectangle at the origin.
#[derive(Debug, Clone, Copy, PartialEq, Eq, Hash, Structural)]
pub struct Rect {
    x: u32,
    y: u32,
    width: u32,
    height: u32,
}

impl Rect {
    /// Two values are equal exactly when their fields are.
    pub proof fn lemma_fields_decide(a: Self, b: Self)
        ensures
            (a == b) <==> (a.spec_x() == b.spec_x() && a.spec_y() == b.spec_y() && a.spec_width() == b.spec_width() && a.spec_height() == b.spec_height()),
    {
    }

    /// The rectangle with these four fields.
    pub closed spec fn of(x: u32, y: u32, width: u32, height: u32) -> Rect {
        Rect { x, y, width, height }
    }

    /// The left edge.
    pub closed spec fn spec_x(self) -> u32 {
        self.x
    }

    /// The top edge.
    pub closed spec fn spec_y(self) -> u32 {
        self.y
    }

    /// The width.
    pub closed spec fn spec_width(self) -> u32 {
        self.width
    }

    /// The height.
    pub closed spec fn spec_height(self) -> u32 {
        self.height
    }

    pub proof fn lemma_of(x: u32, y: u32, width: u32, height: u32, r: Rect)
        ensures
            Rect::of(x, y, width, height).spec_x() == x,
            Rect::of(x, y, width, height).spec_y() == y,
            Rect::of(x, y, width, height).spec_width() == width,
            Rect::of(x, y, width, height).spec_height() == height,
            r == Rect::of(r.spec_x(), r.spec_y(), r.spec_width(), r.spec_height()),
    {
    }

    /// Constructs a `Rect` at `(x, y)` with the given size.
    pub fn new(x: u32, y: u32, width: u32, height: u32) -> (r: Self)
        ensures
            r == Rect::of(x, y, width, height),
    {
        Rect { x, y, width, height }
    }

    /// Returns the X coordinate of the top-left corner.
    pub fn x(&self) -> (r: u32)
        ensures
            r == self.spec_x(),
    {
        self.x
    }

    /// Returns the Y coordinate of the top-left corner.
    pub fn y(&self) -> (r: u32)
        ensures
            r == self.spec_y(),
    {
        self.y
    }

    /// Returns the width.
    pub fn width(&self) -> (r: u32)
        ensures
            r == self.spec_width(),
    {
        self.width
    }

    /// Returns the height.
    pub fn height(&self) -> (r: u32)
        ensures
            r == self.spec_height(),
    {
        self.height
    }

    /// Sets the X coordinate (consuming builder).
    pub fn with_x(self, x: u32) -> (r: Self)
        ensures
            r == Rect::of(x, self.spec_y(), self.spec_width(), self.spec_height()),
    {
        Rect { x, ..self }
    }

    /// Sets the Y coordinate (consuming builder).
    pub fn with_y(self, y: u32) -> (r: Self)
        ensures
            r == Rect::of(self.spec_x(), y, self.spec_width(), self.spec_height()),
    {
        Rect { y, ..self }
    }

    /// Sets the width (consuming builder).
    pub fn with_width(self, w: u32) -> (r: Self)
        ensures
            r == Rect::of(self.spec_x(), self.spec_y(), w, self.spec_height()),
    {
        Rect { width: w, ..self }
    }

    /// Sets the height (consuming builder).
    pub fn with_height(self, h: u32) -> (r: Self)
        ensures
            r == Rect::of(self.spec_x(), self.spec_y(), self.spec_width(), h),
    {
        Rect { height: h, ..self }
    }

    /// Sets the X coordinate in place.
    pub fn set_x(&mut self, x: u32) -> (r: &mut Self)
        ensures
            *r == Rect::of(x, old(self).spec_y(), old(self).spec_width(), old(self).spec_height()),
            *final(self) == *final(r),
    {
        self.x = x;
        self
    }

    /// Sets the Y coordinate in place.
    pub fn set_y(&mut self, y: u32) -> (r: &mut Self)
        ensures
            *r == Rect::of(old(self).spec_x(), y, old(self).spec_width(), old(self).spec_height()),
            *final(self) == *final(r),
    {
        self.y = y;
        self
    }

    /// Sets the width in place.
    pub fn set_width(&mut self, w: u32) -> (r: &mut Self)
        ensures
            *r == Rect::of(old(self).spec_x(), old(self).spec_y(), w, old(self).spec_height()),
            *final(self) == *final(r),
    {
        self.width = w;
        self
    }

    /// Sets the height in place.
    pub fn set_height(&mut self, h: u32) -> (r: &mut Self)
        ensures
            *r == Rect::of(old(self).spec_x(), old(self).spec_y(), old(self).spec_width(), h),
            *final(self) == *final(r),
    {
        self.height = h;
        self
    }

    /// The rectangle's own aspect ratio `width / height`, exact and unreduced; the origin does not
    /// enter into it. [`None`] when the height is zero.
    pub fn aspect_ratio(&self) -> (r: Option<Rational>)
        ensures
            r == aspect_of(self.spec_width(), self.spec_height()),
            r matches Some(v) ==> v.wf(),
    {
        ratio_of(self.width, self.height)
    }
}

impl Default for Rect {
    /// The empty rectangle at the origin.
    fn default() -> (r: Self)
        ensures
            r == Rect::of(0, 0, 0, 0),
    {
        Rect { x: 0, y: 0, width: 0, height: 0 }
    }
}

/// **An empty rectangle is contained exactly where its origin lies inside the closed raster**, and
/// the default rectangle is inside every raster.
pub proof fn law_empty_rect_containment(d: Dimensions, r: Rect)
    requires
        r.spec_width() == 0 || r.spec_height() == 0,
    ensures
        r.spec_width() == 0 && r.spec_height() == 0 ==> ((r.spec_x() + r.spec_width()
            <= d.spec_width() && r.spec_y() + r.spec_height() <= d.spec_height()) <==> (r.spec_x()
            <= d.spec_width() && r.spec_y() <= d.spec_height())),
        Rect::of(0, 0, 0, 0).spec_x() + Rect::of(0, 0, 0, 0).spec_width() <= d.spec_width(),
        Rect::of(0, 0, 0, 0).spec_y() + Rect::of(0, 0, 0, 0).spec_height() <= d.spec_height(),
{
}

} // verus!
