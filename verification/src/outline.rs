//! Glyph outlines as path segments, and the sinks that receive them.

use crate::geometry::Vector2I;
use vstd::prelude::*;

verus! {

/// One step of the path around a glyph, in font design units.
#[derive(Clone, Copy, Debug, PartialEq, Eq, Structural)]
pub enum PathSegment {
    /// Begins a new contour at the point.
    MoveTo(Vector2I),
    /// A straight line to the point.
    LineTo(Vector2I),
    /// A quadratic Bézier curve to `to`, bent towards `ctrl`.
    QuadraticCurveTo { ctrl: Vector2I, to: Vector2I },
    /// A cubic Bézier curve to `to`, bent towards `ctrl0` and then `ctrl1`.
    CubicCurveTo { ctrl0: Vector2I, ctrl1: Vector2I, to: Vector2I },
    /// Closes the contour with a straight line to its first point.
    Close,
}

/// A receiver of the path segments of a glyph.
///
/// An implementation says through `received` what it has been sent so far;
/// each method adds exactly the segment it stands for.
pub trait OutlineSink {
    /// The segments that were sent to the sink so far, oldest first.
    spec fn received(&self) -> Seq<PathSegment>;

    /// Begins a new contour at `to`.
    fn move_to(&mut self, to: Vector2I)
        ensures
            final(self).received() == old(self).received().push(PathSegment::MoveTo(to)),
    ;

    /// Draws a line to `to`.
    fn line_to(&mut self, to: Vector2I)
        ensures
            final(self).received() == old(self).received().push(PathSegment::LineTo(to)),
    ;

    /// Draws a quadratic Bézier curve to `to`.
    fn quadratic_curve_to(&mut self, ctrl: Vector2I, to: Vector2I)
        ensures
            final(self).received() == old(self).received().push(
                PathSegment::QuadraticCurveTo { ctrl, to },
            ),
    ;

    /// Draws a cubic Bézier curve to `to`.
    fn cubic_curve_to(&mut self, ctrl0: Vector2I, ctrl1: Vector2I, to: Vector2I)
        ensures
            final(self).received() == old(self).received().push(
                PathSegment::CubicCurveTo { ctrl0, ctrl1, to },
            ),
    ;

    /// Closes the current contour.
    fn close(&mut self)
        ensures
            final(self).received() == old(self).received().push(PathSegment::Close),
    ;
}

/// A sink that keeps every segment it receives.
#[derive(Debug)]
pub struct OutlineRecorder {
    pub segments: Vec<PathSegment>,
}

impl OutlineRecorder {
    /// A recorder that has received nothing.
    pub fn new() -> (recorder: OutlineRecorder)
        ensures
            recorder.segments@ == Seq::<PathSegment>::empty(),
    {
        OutlineRecorder { segments: Vec::new() }
    }
}

impl OutlineSink for OutlineRecorder {
    open spec fn received(&self) -> Seq<PathSegment> {
        self.segments@
    }

    fn move_to(&mut self, to: Vector2I) {
        self.segments.push(PathSegment::MoveTo(to));
    }

    fn line_to(&mut self, to: Vector2I) {
        self.segments.push(PathSegment::LineTo(to));
    }

    fn quadratic_curve_to(&mut self, ctrl: Vector2I, to: Vector2I) {
        self.segments.push(PathSegment::QuadraticCurveTo { ctrl, to });
    }

    fn cubic_curve_to(&mut self, ctrl0: Vector2I, ctrl1: Vector2I, to: Vector2I) {
        self.segments.push(PathSegment::CubicCurveTo { ctrl0, ctrl1, to });
    }

    fn close(&mut self) {
        self.segments.push(PathSegment::Close);
    }
}

/// Sends one segment to a sink, by the method that stands for it.
pub fn send_segment<S: OutlineSink>(sink: &mut S, segment: PathSegment)
    ensures
        final(sink).received() == old(sink).received().push(segment),
{
    match segment {
        PathSegment::MoveTo(to) => sink.move_to(to),
        PathSegment::LineTo(to) => sink.line_to(to),
        PathSegment::QuadraticCurveTo { ctrl, to } => sink.quadratic_curve_to(ctrl, to),
        PathSegment::CubicCurveTo { ctrl0, ctrl1, to } => sink.cubic_curve_to(ctrl0, ctrl1, to),
        PathSegment::Close => sink.close(),
    }
}

/// Sends all the segments to a sink, in their order.
pub fn send_segments<S: OutlineSink>(sink: &mut S, segments: &Vec<PathSegment>)
    ensures
        final(sink).received() == old(sink).received() + segments@,
{
    let mut i: usize = 0;
    while i < segments.len()
        invariant
            i <= segments.len(),
            sink.received() == old(sink).received() + segments@.subrange(0, i as int),
        decreases segments.len() - i,
    {
        send_segment(sink, segments[i]);
        proof {
            assert(segments@.subrange(0, i + 1) =~= segments@.subrange(0, i as int).push(
                segments@[i as int],
            ));
            assert(old(sink).received() + segments@.subrange(0, i + 1) =~= (old(sink).received()
                + segments@.subrange(0, i as int)).push(segments@[i as int]));
        }
        i += 1;
    }
    proof {
        assert(segments@.subrange(0, segments@.len() as int) =~= segments@);
    }
}

} // verus!
