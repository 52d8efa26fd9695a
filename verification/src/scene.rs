//! Drawable primitives of the scene graph. A scene is an ordered sequence of
//! drawables, stored back-to-front: later entries visually and interactively
//! occlude earlier ones. Rectangles may carry a drag/snap capability tag.

use vstd::prelude::*;

use crate::geom::Color;
use crate::geom::FbCoords;
use crate::geom::Rect;
use crate::geom::coord_shift;
use crate::geom::shifted_coord;

verus! {

/// Drag/snap capability of a drawable: whether it can itself be dragged, and
/// whether a dragged item may snap to it on release.
#[derive(Copy, Clone, PartialEq, Eq, Structural, Debug)]
pub enum DraggableSnapType {
    Card(bool, bool),
}

/// One primitive of the scene: a filled rectangle, an outlined rectangle, or a
/// text block with a size in logical pixels.
pub enum Drawable {
    Rectangle(Rect, Color, Option<DraggableSnapType>),
    RectOutlined(Rect, Color, Option<DraggableSnapType>),
    Text(Rect, String, usize),
}

/// The same drawable with its bounding rectangle's origin replaced.
pub open spec fn with_origin(d: Drawable, coords: FbCoords) -> Drawable {
    match d {
        Drawable::Rectangle(r, c, t) => Drawable::Rectangle(
            Rect { x: coords.0, y: coords.1, w: r.w, h: r.h },
            c,
            t,
        ),
        Drawable::RectOutlined(r, c, t) => Drawable::RectOutlined(
            Rect { x: coords.0, y: coords.1, w: r.w, h: r.h },
            c,
            t,
        ),
        Drawable::Text(r, s, size) => Drawable::Text(
            Rect { x: coords.0, y: coords.1, w: r.w, h: r.h },
            s,
            size,
        ),
    }
}

impl Drawable {
    /// The bounding rectangle of the drawable.
    pub open spec fn spec_rect(self) -> Rect {
        match self {
            Drawable::Rectangle(rect, _, _) => rect,
            Drawable::RectOutlined(rect, _, _) => rect,
            Drawable::Text(rect, _, _) => rect,
        }
    }

    /// Whether a point lies within the bounding rectangle, inclusive on all
    /// edges.
    pub open spec fn spec_contains(self, coord: FbCoords) -> bool {
        let rect = self.spec_rect();
        &&& rect.x <= coord.0 <= rect.x + rect.w
        &&& rect.y <= coord.1 <= rect.y + rect.h
    }

    /// The drag/snap tag, if any; text blocks carry none.
    pub open spec fn spec_drag_type(self) -> Option<DraggableSnapType> {
        match self {
            Drawable::Rectangle(_, _, drag_type) => drag_type,
            Drawable::RectOutlined(_, _, drag_type) => drag_type,
            Drawable::Text(_, _, _) => None,
        }
    }

    /// Whether the drawable may be picked up by a drag press.
    pub open spec fn spec_draggable(self) -> bool {
        match self.spec_drag_type() {
            Some(DraggableSnapType::Card(draggable, _)) => draggable,
            None => false,
        }
    }

    /// Whether a dragged item may snap to this drawable on release.
    pub open spec fn spec_accepts_drop(self) -> bool {
        match self.spec_drag_type() {
            Some(DraggableSnapType::Card(_, accepts)) => accepts,
            None => false,
        }
    }

    pub fn get_rect(self: &Drawable) -> (r: Rect)
        ensures
            r == self.spec_rect(),
    {
        match self {
            Drawable::Rectangle(rect, _, _) => *rect,
            Drawable::RectOutlined(rect, _, _) => *rect,
            Drawable::Text(rect, _, _) => *rect,
        }
    }

    pub fn contains(self: &Drawable, coord: FbCoords) -> (r: bool)
        ensures
            r == self.spec_contains(coord),
    {
        let rect = self.get_rect();
        let (x, y) = coord;
        x >= rect.x && x - rect.x <= rect.w && y >= rect.y && y - rect.y <= rect.h
    }

    /// The origin of the bounding rectangle.
    pub fn get_coords(self: &Drawable) -> (r: FbCoords)
        ensures
            r == (self.spec_rect().x, self.spec_rect().y),
    {
        let rect = self.get_rect();
        (rect.x, rect.y)
    }

    /// Relative repositioning: shifts the origin, clamped at zero so the
    /// coordinates never wrap below the coordinate space.
    pub fn shift(self: &mut Drawable, amount: (i32, i32))
        ensures
            *final(self) == with_origin(
                *old(self),
                (
                    shifted_coord(old(self).spec_rect().x as int, amount.0 as int) as usize,
                    shifted_coord(old(self).spec_rect().y as int, amount.1 as int) as usize,
                ),
            ),
    {
        let origin = self.get_coords();
        let shifted = coord_shift(origin, amount);
        self.move_to(shifted);
    }

    /// Absolute repositioning of the bounding rectangle's origin.
    pub fn move_to(self: &mut Drawable, coords: FbCoords)
        ensures
            *final(self) == with_origin(*old(self), coords),
    {
        let (x, y) = coords;
        match self {
            Drawable::Rectangle(rect, _, _) => {
                rect.x = x;
                rect.y = y;
            },
            Drawable::RectOutlined(rect, _, _) => {
                rect.x = x;
                rect.y = y;
            },
            Drawable::Text(rect, _, _) => {
                rect.x = x;
                rect.y = y;
            },
        }
    }

    pub fn get_drag_type(self: &Drawable) -> (r: Option<DraggableSnapType>)
        ensures
            r == self.spec_drag_type(),
    {
        match self {
            Drawable::Rectangle(_, _, drag_type) => *drag_type,
            Drawable::RectOutlined(_, _, drag_type) => *drag_type,
            Drawable::Text(_, _, _) => None,
        }
    }

    pub fn is_draggable(self: &Drawable) -> (r: bool)
        ensures
            r == self.spec_draggable(),
    {
        let drag_type = self.get_drag_type();
        match drag_type {
            Some(DraggableSnapType::Card(draggable, _)) => draggable,
            None => false,
        }
    }

    /// Whether a drag of `draggable` may be released onto this drawable. The
    /// capability class of the dragged item must exist; within the one class
    /// of card-shaped items, only the target's accept tag decides.
    pub fn is_releasable(self: &Drawable, draggable: &Drawable) -> (r: bool)
        requires
            draggable.spec_drag_type() is Some,
        ensures
            r == self.spec_accepts_drop(),
    {
        let drag_type = draggable.get_drag_type();
        let release_type = self.get_drag_type();
        match drag_type {
            Some(DraggableSnapType::Card(_, _)) => match release_type {
                Some(DraggableSnapType::Card(_, true)) => true,
                _ => false,
            },
            None => false,
        }
    }
}

impl Clone for Drawable {
    /// A clone is equal to the original, text content included.
    fn clone(&self) -> (r: Self)
        ensures
            r == *self,
    {
        match self {
            Drawable::Rectangle(rect, color, tag) => Drawable::Rectangle(*rect, *color, *tag),
            Drawable::RectOutlined(rect, color, tag) => Drawable::RectOutlined(
                *rect,
                *color,
                *tag,
            ),
            Drawable::Text(rect, s, size) => Drawable::Text(*rect, s.clone(), *size),
        }
    }
}

} // verus!
