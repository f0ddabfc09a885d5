//! Pixel storage: one [`Plane`] of data, the runtime-tagged [`VideoFrame`] that holds up to four of
//! them, and the orthogonal [`TimestampedFrame`] wrapper that carries presentation time.
use vstd::prelude::*;
use super::geometry::{Dimensions, Rect};

verus! {

/// The presentation timestamp type of the `mediatime` crate, carried through without being read.
#[verifier::external_type_specification]
#[verifier::external_body]
pub struct ExTimestamp(mediatime::Timestamp);

/// One plane of pixel data, generic over the buffer type, with its stride in bytes per row.
#[derive(Debug, Clone, Copy, PartialEq, Eq, Hash)]
pub struct Plane<B> {
    data: B,
    stride: u32,
}

impl<B> Plane<B> {
    /// Two values are equal exactly when their fields are.
    pub proof fn lemma_fields_decide(a: Self, b: Self)
        ensures
            (a == b) <==> (a.spec_data() == b.spec_data() && a.spec_stride() == b.spec_stride()),
    {
    }

    /// The buffer.
    pub closed spec fn spec_data(self) -> B {
        self.data
    }

    /// The stride.
    pub closed spec fn spec_stride(self) -> u32 {
        self.stride
    }

    /// Constructs a `Plane` from a buffer and a stride.
    pub fn new(data: B, stride: u32) -> (r: Self)
        ensures
            r.spec_data() == data,
            r.spec_stride() == stride,
    {
        Plane { data, stride }
    }

    /// Returns the stride in bytes.
    pub fn stride(&self) -> (r: u32)
        ensures
            r == self.spec_stride(),
    {
        self.stride
    }

    /// Borrows the underlying buffer.
    pub fn data_ref(&self) -> (r: &B)
        ensures
            *r == self.spec_data(),
    {
        &self.data
    }

    /// Mutably borrows the underlying buffer.
    pub fn data_mut(&mut self) -> (r: &mut B)
        ensures
            *r == old(self).spec_data(),
            final(self).spec_data() == *final(r),
            final(self).spec_stride() == old(self).spec_stride(),
    {
        &mut self.data
    }

    /// Consumes the plane and returns the underlying buffer.
    pub fn into_data(self) -> (r: B)
        ensures
            r == self.spec_data(),
    {
        self.data
    }

    /// Sets the stride (consuming builder).
    pub fn with_stride(self, stride: u32) -> (r: Self)
        ensures
            r.spec_data() == self.spec_data(),
            r.spec_stride() == stride,
    {
        Plane { data: self.data, stride }
    }

    /// Sets the stride in place.
    pub fn set_stride(&mut self, stride: u32) -> (r: &mut Self)
        ensures
            r.spec_data() == old(self).spec_data(),
            r.spec_stride() == stride,
            *final(self) == *final(r),
    {
        self.stride = stride;
        self
    }
}

/// A runtime-tagged video frame: coded dimensions, an optional visible rectangle, a pixel-format
/// identifier `P`, and up to four planes of buffer type `B`, of which the first `plane_count` are
/// populated. No timestamp: that rides on [`TimestampedFrame`].
#[derive(Debug, PartialEq, Eq, Hash)]
pub struct VideoFrame<P, B> {
    dimensions: Dimensions,
    visible_rect: Option<Rect>,
    pixel_format: P,
    plane_count: u8,
    planes: [Plane<B>; 4],
}

impl<P, B> VideoFrame<P, B> {
    /// Two values are equal exactly when their fields are.
    pub proof fn lemma_fields_decide(a: Self, b: Self)
        ensures
            (a == b) <==> (a.spec_dimensions() == b.spec_dimensions() && a.spec_visible_rect() == b.spec_visible_rect() && a.spec_pixel_format() == b.spec_pixel_format() && a.spec_plane_count() == b.spec_plane_count() && a.spec_planes() == b.spec_planes()),
    {
        if a.spec_planes() == b.spec_planes() {
            vstd::array::axiom_array_ext_equal(a.planes, b.planes);
            assert forall|i: int| 0 <= i < 4 implies a.planes[i] == b.planes[i] by {
                assert(a.planes@[i] == b.planes@[i]);
            }
        }
    }

    /// At most the four slots the plane array has are populated.
    #[verifier::type_invariant]
    pub closed spec fn wf(self) -> bool {
        self.plane_count <= 4
    }

    /// The coded dimensions.
    pub closed spec fn spec_dimensions(self) -> Dimensions {
        self.dimensions
    }

    /// The visible rectangle.
    pub closed spec fn spec_visible_rect(self) -> Option<Rect> {
        self.visible_rect
    }

    /// The pixel-format identifier.
    pub closed spec fn spec_pixel_format(self) -> P {
        self.pixel_format
    }

    /// How many planes are populated.
    pub closed spec fn spec_plane_count(self) -> u8 {
        self.plane_count
    }

    /// All four plane slots.
    pub closed spec fn spec_planes(self) -> Seq<Plane<B>> {
        self.planes@
    }

    /// Constructs a `VideoFrame` with no visible rectangle. `plane_count` is at most 4, the slots
    /// the plane array has.
    pub fn new(dimensions: Dimensions, pixel_format: P, planes: [Plane<B>; 4], plane_count: u8) -> (r: Self)
        requires
            plane_count <= 4,
        ensures
            r.spec_dimensions() == dimensions,
            r.spec_visible_rect() is None,
            r.spec_pixel_format() == pixel_format,
            r.spec_plane_count() == plane_count,
            r.spec_planes() == planes@,
    {
        VideoFrame { dimensions, visible_rect: None, pixel_format, plane_count, planes }
    }

    /// Returns the coded dimensions.
    pub fn dimensions(&self) -> (r: Dimensions)
        ensures
            r == self.spec_dimensions(),
    {
        self.dimensions
    }

    /// Returns the coded width.
    pub fn width(&self) -> (r: u32)
        ensures
            r == self.spec_dimensions().spec_width(),
    {
        self.dimensions.width()
    }

    /// Returns the coded height.
    pub fn height(&self) -> (r: u32)
        ensures
            r == self.spec_dimensions().spec_height(),
    {
        self.dimensions.height()
    }

    /// Returns the visible rectangle, if any. It is not checked against the dimensions on
    /// assignment; [`Dimensions::contains`] is that check.
    pub fn visible_rect(&self) -> (r: Option<Rect>)
        ensures
            r == self.spec_visible_rect(),
    {
        self.visible_rect
    }

    /// Returns a reference to the pixel-format identifier.
    pub fn pixel_format_ref(&self) -> (r: &P)
        ensures
            *r == self.spec_pixel_format(),
    {
        &self.pixel_format
    }

    /// Returns the populated plane count.
    pub fn plane_count(&self) -> (r: u8)
        ensures
            r == self.spec_plane_count(),
            r <= 4,
    {
        proof {
            use_type_invariant(self);
        }
        self.plane_count
    }

    /// Returns the populated planes as a slice.
    pub fn planes(&self) -> (r: &[Plane<B>])
        ensures
            r@ == self.spec_planes().subrange(0, self.spec_plane_count() as int),
    {
        proof {
            use_type_invariant(self);
        }
        vstd::slice::slice_subrange(self.planes.as_slice(), 0, self.plane_count as usize)
    }

    /// Returns one populated plane by index, or [`None`] past the populated count.
    pub fn plane(&self, i: usize) -> (r: Option<&Plane<B>>)
        ensures
            match r {
                Some(p) => i < self.spec_plane_count() && *p == self.spec_planes()[i as int],
                None => i >= self.spec_plane_count(),
            },
    {
        proof {
            use_type_invariant(self);
        }
        if i < self.plane_count as usize {
            Some(&self.planes[i])
        } else {
            None
        }
    }

    /// Sets the visible rectangle (consuming builder).
    pub fn with_visible_rect(self, v: Rect) -> (r: Self)
        ensures
            r.spec_visible_rect() == Some(v),
            r.spec_dimensions() == self.spec_dimensions(),
            r.spec_pixel_format() == self.spec_pixel_format(),
            r.spec_plane_count() == self.spec_plane_count(),
            r.spec_planes() == self.spec_planes(),
    {
        self.maybe_visible_rect(Some(v))
    }

    /// Assigns the raw visible-rectangle option (consuming builder).
    pub fn maybe_visible_rect(self, v: Option<Rect>) -> (r: Self)
        ensures
            r.spec_visible_rect() == v,
            r.spec_dimensions() == self.spec_dimensions(),
            r.spec_pixel_format() == self.spec_pixel_format(),
            r.spec_plane_count() == self.spec_plane_count(),
            r.spec_planes() == self.spec_planes(),
    {
        proof {
            use_type_invariant(&self);
        }
        VideoFrame {
            dimensions: self.dimensions,
            visible_rect: v,
            pixel_format: self.pixel_format,
            plane_count: self.plane_count,
            planes: self.planes,
        }
    }

    /// Sets the visible rectangle in place.
    pub fn set_visible_rect(&mut self, v: Rect) -> (r: &mut Self)
        ensures
            r.spec_visible_rect() == Some(v),
            r.spec_dimensions() == old(self).spec_dimensions(),
            r.spec_pixel_format() == old(self).spec_pixel_format(),
            r.spec_plane_count() == old(self).spec_plane_count(),
            r.spec_planes() == old(self).spec_planes(),
            *final(self) == *final(r),
    {
        self.update_visible_rect(Some(v))
    }

    /// Assigns the raw visible-rectangle option in place.
    pub fn update_visible_rect(&mut self, v: Option<Rect>) -> (r: &mut Self)
        ensures
            r.spec_visible_rect() == v,
            r.spec_dimensions() == old(self).spec_dimensions(),
            r.spec_pixel_format() == old(self).spec_pixel_format(),
            r.spec_plane_count() == old(self).spec_plane_count(),
            r.spec_planes() == old(self).spec_planes(),
            *final(self) == *final(r),
    {
        proof {
            use_type_invariant(&*self);
        }
        self.visible_rect = v;
        self
    }

    /// Clears the visible rectangle.
    pub fn clear_visible_rect(&mut self) -> (r: &mut Self)
        ensures
            r.spec_visible_rect() is None,
            r.spec_dimensions() == old(self).spec_dimensions(),
            r.spec_pixel_format() == old(self).spec_pixel_format(),
            r.spec_plane_count() == old(self).spec_plane_count(),
            r.spec_planes() == old(self).spec_planes(),
            *final(self) == *final(r),
    {
        self.update_visible_rect(None)
    }
}

/// A plane whose buffer is a clone of `p`'s, with the same stride.
fn clone_plane<B: Clone>(p: &Plane<B>) -> (r: Plane<B>)
    ensures
        cloned::<B>(p.spec_data(), r.spec_data()),
        r.spec_stride() == p.spec_stride(),
{
    Plane { data: p.data.clone(), stride: p.stride }
}

impl<P: Clone, B: Clone> Clone for VideoFrame<P, B> {
    /// The same frame: equal dimensions, visible rectangle and plane count, a clone of the pixel
    /// format, and in every slot a clone of the plane's buffer with the same stride.
    fn clone(&self) -> (r: Self)
        ensures
            r.spec_dimensions() == self.spec_dimensions(),
            r.spec_visible_rect() == self.spec_visible_rect(),
            r.spec_plane_count() == self.spec_plane_count(),
            cloned::<P>(self.spec_pixel_format(), r.spec_pixel_format()),
            r.spec_planes().len() == self.spec_planes().len(),
            forall|i: int|
                0 <= i < self.spec_planes().len() ==> cloned::<B>(
                    (#[trigger] self.spec_planes()[i]).spec_data(),
                    r.spec_planes()[i].spec_data(),
                ) && r.spec_planes()[i].spec_stride() == self.spec_planes()[i].spec_stride(),
    {
        proof {
            use_type_invariant(self);
        }
        let p0 = clone_plane(&self.planes[0]);
        let p1 = clone_plane(&self.planes[1]);
        let p2 = clone_plane(&self.planes[2]);
        let p3 = clone_plane(&self.planes[3]);
        let r = VideoFrame {
            dimensions: self.dimensions,
            visible_rect: self.visible_rect,
            pixel_format: self.pixel_format.clone(),
            plane_count: self.plane_count,
            planes: [p0, p1, p2, p3],
        };
        assert forall|i: int|
            0 <= i < self.spec_planes().len() implies cloned::<B>(
                (#[trigger] self.spec_planes()[i]).spec_data(),
                r.spec_planes()[i].spec_data(),
            ) && r.spec_planes()[i].spec_stride() == self.spec_planes()[i].spec_stride() by {
            if i == 0 {
            } else if i == 1 {
            } else if i == 2 {
            } else {
            }
        }
        r
    }
}

/// Wraps any inner frame `F` with an optional presentation timestamp and an optional duration, both
/// in timebase ticks as `mediatime` counts them. Both start out absent.
#[derive(Debug, Clone, Copy, PartialEq, Eq, Hash)]
pub struct TimestampedFrame<F> {
    pts: Option<mediatime::Timestamp>,
    duration: Option<mediatime::Timestamp>,
    frame: F,
}

impl<F> TimestampedFrame<F> {
    /// Two values are equal exactly when their fields are.
    pub proof fn lemma_fields_decide(a: Self, b: Self)
        ensures
            (a == b) <==> (a.spec_pts() == b.spec_pts() && a.spec_duration() == b.spec_duration() && a.spec_frame() == b.spec_frame()),
    {
    }

    /// The presentation timestamp.
    pub closed spec fn spec_pts(self) -> Option<mediatime::Timestamp> {
        self.pts
    }

    /// The duration.
    pub closed spec fn spec_duration(self) -> Option<mediatime::Timestamp> {
        self.duration
    }

    /// The inner frame.
    pub closed spec fn spec_frame(self) -> F {
        self.frame
    }

    /// Wraps `frame` with no timestamp and no duration.
    pub fn new(frame: F) -> (r: Self)
        ensures
            r.spec_pts() is None,
            r.spec_duration() is None,
            r.spec_frame() == frame,
    {
        TimestampedFrame { pts: None, duration: None, frame }
    }

    /// Returns the presentation timestamp, if any.
    pub fn pts(&self) -> (r: Option<mediatime::Timestamp>)
        ensures
            r == self.spec_pts(),
    {
        self.pts
    }

    /// Returns the duration, if any.
    pub fn duration(&self) -> (r: Option<mediatime::Timestamp>)
        ensures
            r == self.spec_duration(),
    {
        self.duration
    }

    /// Borrows the inner frame.
    pub fn frame_ref(&self) -> (r: &F)
        ensures
            *r == self.spec_frame(),
    {
        &self.frame
    }

    /// Mutably borrows the inner frame.
    pub fn frame_mut(&mut self) -> (r: &mut F)
        ensures
            *r == old(self).spec_frame(),
            final(self).spec_frame() == *final(r),
            final(self).spec_pts() == old(self).spec_pts(),
            final(self).spec_duration() == old(self).spec_duration(),
    {
        &mut self.frame
    }

    /// Consumes the wrapper and returns the inner frame.
    pub fn into_frame(self) -> (r: F)
        ensures
            r == self.spec_frame(),
    {
        self.frame
    }

    /// Sets the timestamp (consuming builder).
    pub fn with_pts(self, v: mediatime::Timestamp) -> (r: Self)
        ensures
            r.spec_pts() == Some(v),
            r.spec_duration() == self.spec_duration(),
            r.spec_frame() == self.spec_frame(),
    {
        self.maybe_pts(Some(v))
    }

    /// Assigns the raw timestamp option (consuming builder).
    pub fn maybe_pts(self, v: Option<mediatime::Timestamp>) -> (r: Self)
        ensures
            r.spec_pts() == v,
            r.spec_duration() == self.spec_duration(),
            r.spec_frame() == self.spec_frame(),
    {
        TimestampedFrame { pts: v, duration: self.duration, frame: self.frame }
    }

    /// Sets the duration (consuming builder).
    pub fn with_duration(self, v: mediatime::Timestamp) -> (r: Self)
        ensures
            r.spec_pts() == self.spec_pts(),
            r.spec_duration() == Some(v),
            r.spec_frame() == self.spec_frame(),
    {
        self.maybe_duration(Some(v))
    }

    /// Assigns the raw duration option (consuming builder).
    pub fn maybe_duration(self, v: Option<mediatime::Timestamp>) -> (r: Self)
        ensures
            r.spec_pts() == self.spec_pts(),
            r.spec_duration() == v,
            r.spec_frame() == self.spec_frame(),
    {
        TimestampedFrame { pts: self.pts, duration: v, frame: self.frame }
    }

    /// Sets the timestamp in place.
    pub fn set_pts(&mut self, v: mediatime::Timestamp) -> (r: &mut Self)
        ensures
            r.spec_pts() == Some(v),
            r.spec_duration() == old(self).spec_duration(),
            r.spec_frame() == old(self).spec_frame(),
            *final(self) == *final(r),
    {
        self.update_pts(Some(v))
    }

    /// Assigns the raw timestamp option in place.
    pub fn update_pts(&mut self, v: Option<mediatime::Timestamp>) -> (r: &mut Self)
        ensures
            r.spec_pts() == v,
            r.spec_duration() == old(self).spec_duration(),
            r.spec_frame() == old(self).spec_frame(),
            *final(self) == *final(r),
    {
        self.pts = v;
        self
    }

    /// Clears the timestamp.
    pub fn clear_pts(&mut self) -> (r: &mut Self)
        ensures
            r.spec_pts() is None,
            r.spec_duration() == old(self).spec_duration(),
            r.spec_frame() == old(self).spec_frame(),
            *final(self) == *final(r),
    {
        self.update_pts(None)
    }

    /// Sets the duration in place.
    pub fn set_duration(&mut self, v: mediatime::Timestamp) -> (r: &mut Self)
        ensures
            r.spec_pts() == old(self).spec_pts(),
            r.spec_duration() == Some(v),
            r.spec_frame() == old(self).spec_frame(),
            *final(self) == *final(r),
    {
        self.update_duration(Some(v))
    }

    /// Assigns the raw duration option in place.
    pub fn update_duration(&mut self, v: Option<mediatime::Timestamp>) -> (r: &mut Self)
        ensures
            r.spec_pts() == old(self).spec_pts(),
            r.spec_duration() == v,
            r.spec_frame() == old(self).spec_frame(),
            *final(self) == *final(r),
    {
        self.duration = v;
        self
    }

    /// Clears the duration.
    pub fn clear_duration(&mut self) -> (r: &mut Self)
        ensures
            r.spec_pts() == old(self).spec_pts(),
            r.spec_duration() is None,
            r.spec_frame() == old(self).spec_frame(),
            *final(self) == *final(r),
    {
        self.update_duration(None)
    }
}

} // verus!
