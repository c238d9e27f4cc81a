//! Widths of the four borders of a rectangle.
use vstd::prelude::*;
use vstd::std_specs::convert::FromSpecImpl;
use crate::bounds::RectSize;
use crate::scalar::Scalar;

verus! {

#[derive(Clone, Copy, Debug, PartialEq, Eq)]
pub enum LineWidth {
    /// All borders have the same line width.
    Uniform(Scalar),
    /// Borders have different line widths.
    PerBorder { left: Scalar, top: Scalar, right: Scalar, bottom: Scalar },
}

impl Default for LineWidth {
    fn default() -> (width: Self)
        ensures
            width == LineWidth::Uniform(Scalar { raw: 0 }),
    {
        LineWidth::Uniform(Scalar::zero())
    }
}

impl From<Scalar> for LineWidth {
    fn from(width: Scalar) -> (line_width: Self) {
        LineWidth::Uniform(width)
    }
}

impl FromSpecImpl<Scalar> for LineWidth {
    open spec fn obeys_from_spec() -> bool {
        true
    }

    open spec fn from_spec(width: Scalar) -> Self {
        LineWidth::Uniform(width)
    }
}

impl From<[Scalar; 4]> for LineWidth {
    fn from(widths: [Scalar; 4]) -> (line_width: Self) {
        LineWidth::PerBorder { left: widths[0], top: widths[1], right: widths[2], bottom: widths[3] }
    }
}

impl FromSpecImpl<[Scalar; 4]> for LineWidth {
    open spec fn obeys_from_spec() -> bool {
        true
    }

    open spec fn from_spec(widths: [Scalar; 4]) -> Self {
        LineWidth::PerBorder { left: widths[0], top: widths[1], right: widths[2], bottom: widths[3] }
    }
}

impl LineWidth {
    pub open spec fn left_spec(&self) -> Scalar {
        match self {
            LineWidth::Uniform(width) => *width,
            LineWidth::PerBorder { left, .. } => *left,
        }
    }

    pub open spec fn top_spec(&self) -> Scalar {
        match self {
            LineWidth::Uniform(width) => *width,
            LineWidth::PerBorder { top, .. } => *top,
        }
    }

    pub open spec fn right_spec(&self) -> Scalar {
        match self {
            LineWidth::Uniform(width) => *width,
            LineWidth::PerBorder { right, .. } => *right,
        }
    }

    pub open spec fn bottom_spec(&self) -> Scalar {
        match self {
            LineWidth::Uniform(width) => *width,
            LineWidth::PerBorder { bottom, .. } => *bottom,
        }
    }

    /// The widths as a sequence: left, top, right, bottom.
    pub open spec fn widths(self) -> Seq<Scalar> {
        seq![self.left_spec(), self.top_spec(), self.right_spec(), self.bottom_spec()]
    }

    /// The widths as shares of `size`: left and right of its width, top and
    /// bottom of its height.
    pub open spec fn normalized_in_spec(self, size: RectSize<Scalar>) -> Self {
        LineWidth::PerBorder {
            left: self.left_spec().div_spec(size.width),
            top: self.top_spec().div_spec(size.height),
            right: self.right_spec().div_spec(size.width),
            bottom: self.bottom_spec().div_spec(size.height),
        }
    }

    /// The widths in the order left, top, right, bottom.
    pub fn to_array(self) -> (widths: [Scalar; 4])
        ensures
            widths@ == self.widths(),
    {
        let widths = match self {
            LineWidth::Uniform(width) => [width, width, width, width],
            LineWidth::PerBorder { left, top, right, bottom } => [left, top, right, bottom],
        };
        assert(widths@ =~= self.widths());
        widths
    }

    #[verifier::when_used_as_spec(normalized_in_spec)]
    pub fn normalized_in(self, size: RectSize<Scalar>) -> (normalized: Self)
        ensures
            normalized == self.normalized_in_spec(size),
    {
        LineWidth::PerBorder {
            left: self.left().div(size.width),
            top: self.top().div(size.height),
            right: self.right().div(size.width),
            bottom: self.bottom().div(size.height),
        }
    }

    #[verifier::when_used_as_spec(left_spec)]
    pub fn left(&self) -> (width: Scalar)
        ensures
            width == self.left_spec(),
    {
        match self {
            LineWidth::Uniform(width) => *width,
            LineWidth::PerBorder { left, .. } => *left,
        }
    }

    #[verifier::when_used_as_spec(top_spec)]
    pub fn top(&self) -> (width: Scalar)
        ensures
            width == self.top_spec(),
    {
        match self {
            LineWidth::Uniform(width) => *width,
            LineWidth::PerBorder { top, .. } => *top,
        }
    }

    #[verifier::when_used_as_spec(right_spec)]
    pub fn right(&self) -> (width: Scalar)
        ensures
            width == self.right_spec(),
    {
        match self {
            LineWidth::Uniform(width) => *width,
            LineWidth::PerBorder { right, .. } => *right,
        }
    }

    #[verifier::when_used_as_spec(bottom_spec)]
    pub fn bottom(&self) -> (width: Scalar)
        ensures
            width == self.bottom_spec(),
    {
        match self {
            LineWidth::Uniform(width) => *width,
            LineWidth::PerBorder { bottom, .. } => *bottom,
        }
    }

    pub fn set_left(&mut self, left_width: Scalar)
        ensures
            *final(self) == (LineWidth::PerBorder {
                left: left_width,
                top: old(self).top_spec(),
                right: old(self).right_spec(),
                bottom: old(self).bottom_spec(),
            }),
    {
        *self = LineWidth::PerBorder {
            left: left_width,
            top: self.top(),
            right: self.right(),
            bottom: self.bottom(),
        };
    }

    pub fn set_top(&mut self, top_width: Scalar)
        ensures
            *final(self) == (LineWidth::PerBorder {
                left: old(self).left_spec(),
                top: top_width,
                right: old(self).right_spec(),
                bottom: old(self).bottom_spec(),
            }),
    {
        *self = LineWidth::PerBorder {
            left: self.left(),
            top: top_width,
            right: self.right(),
            bottom: self.bottom(),
        };
    }

    pub fn set_right(&mut self, right_width: Scalar)
        ensures
            *final(self) == (LineWidth::PerBorder {
                left: old(self).left_spec(),
                top: old(self).top_spec(),
                right: right_width,
                bottom: old(self).bottom_spec(),
            }),
    {
        *self = LineWidth::PerBorder {
            left: self.left(),
            top: self.top(),
            right: right_width,
            bottom: self.bottom(),
        };
    }

    pub fn set_bottom(&mut self, bottom_width: Scalar)
        ensures
            *final(self) == (LineWidth::PerBorder {
                left: old(self).left_spec(),
                top: old(self).top_spec(),
                right: old(self).right_spec(),
                bottom: bottom_width,
            }),
    {
        *self = LineWidth::PerBorder {
            left: self.left(),
            top: self.top(),
            right: self.right(),
            bottom: bottom_width,
        };
    }
}

} // verus!
