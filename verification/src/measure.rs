//! Measuring renderables: how wide and how tall a renderable would be,
//! without keeping the rendered output.

use vstd::prelude::*;

verus! {

use crate::renderable::Renderable;
use crate::console::RenderContext;
use crate::bidi::TextDirection;

/// Measurement of a renderable's dimensions.
#[derive(Debug, Clone, Copy, PartialEq, Eq, Structural)]
pub struct Measurement {
    /// Minimum width required
    pub minimum: usize,
    /// Maximum width that will be used
    pub maximum: usize,
    /// Number of lines when rendered
    pub lines: usize,
}

impl Measurement {
    /// Create a new measurement.
    pub fn new(minimum: usize, maximum: usize, lines: usize) -> (m: Measurement)
        ensures
            m == (Measurement { minimum, maximum, lines }),
    {
        Measurement { minimum, maximum, lines }
    }

    /// Measure a renderable at a given width: its line count at that width,
    /// its own minimum, and its natural width capped at the given width.
    pub fn measure<R: Renderable>(renderable: &R, width: usize) -> (m: Measurement)
        ensures
            m.maximum <= width,
    {
        let context = RenderContext { width, height: None, direction: TextDirection::Auto };
        let segments = renderable.render(&context);
        let lines = segments.len();
        let minimum = renderable.min_width();
        let natural = renderable.max_width();
        let maximum = if natural < width {
            natural
        } else {
            width
        };
        Measurement { minimum, maximum, lines }
    }

    /// Check whether the measurement fits in the given dimensions.
    pub fn fits(&self, width: usize, height: usize) -> (r: bool)
        ensures
            r == (self.minimum <= width && self.lines <= height),
    {
        self.minimum <= width && self.lines <= height
    }

    /// The total area covered when rendered: width times height.
    pub fn area(&self) -> (a: usize)
        requires
            self.maximum * self.lines <= usize::MAX,
        ensures
            a == self.maximum * self.lines,
    {
        self.maximum * self.lines
    }
}

/// Measuring, as a capability of every renderable.
pub trait Measurable {
    /// Measure this renderable at the given width.
    fn measure(&self, width: usize) -> Measurement;
}

impl<T: Renderable> Measurable for T {
    fn measure(&self, width: usize) -> Measurement {
        Measurement::measure(self, width)
    }
}

} // verus!
