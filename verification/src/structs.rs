//! Geometry primitives: points, sizes and rectangles with the usual
//! containment, intersection and union operations. All operations are pure;
//! an intersection of disjoint rectangles yields the zero rectangle.

use vstd::prelude::*;

verus! {

#[derive(Debug, Clone, Copy, PartialEq, Eq, Structural)]
pub struct Point {
    pub x: i32,
    pub y: i32,
}

#[derive(Debug, Clone, Copy, PartialEq, Eq, Structural)]
pub struct Size {
    pub width: i32,
    pub height: i32,
}

#[derive(Debug, Clone, Copy, PartialEq, Eq, Structural)]
pub struct Rectangle {
    pub x: i32,
    pub y: i32,
    pub width: i32,
    pub height: i32,
}

impl Rectangle {
    /// Right edge as a mathematical integer (may fall outside `i32` for
    /// degenerate rectangles, hence the overflow preconditions below).
    pub open spec fn spec_right(self) -> int {
        self.x + self.width
    }

    /// Bottom edge as a mathematical integer.
    pub open spec fn spec_bottom(self) -> int {
        self.y + self.height
    }

    /// Both derived edges fit in `i32`, so the edge accessors are defined.
    pub open spec fn edges_in_range(self) -> bool {
        &&& i32::MIN <= self.spec_right() <= i32::MAX
        &&& i32::MIN <= self.spec_bottom() <= i32::MAX
    }

    pub open spec fn spec_contains(self, x: int, y: int) -> bool {
        &&& self.x <= x < self.spec_right()
        &&& self.y <= y < self.spec_bottom()
    }

    pub open spec fn spec_intersects(self, other: Rectangle) -> bool {
        &&& self.x < other.x + other.width
        &&& other.x < self.x + self.width
        &&& self.y < other.y + other.height
        &&& other.y < self.y + self.height
    }

    /// The intersection: the common region when the rectangles overlap,
    /// the zero rectangle otherwise.
    pub open spec fn spec_intersection(self, other: Rectangle) -> Rectangle {
        let x1 = if self.x >= other.x { self.x as int } else { other.x as int };
        let y1 = if self.y >= other.y { self.y as int } else { other.y as int };
        let x2 = if self.spec_right() <= other.spec_right() {
            self.spec_right()
        } else {
            other.spec_right()
        };
        let y2 = if self.spec_bottom() <= other.spec_bottom() {
            self.spec_bottom()
        } else {
            other.spec_bottom()
        };
        if x2 >= x1 && y2 >= y1 {
            Rectangle {
                x: x1 as i32,
                y: y1 as i32,
                width: (x2 - x1) as i32,
                height: (y2 - y1) as i32,
            }
        } else {
            Rectangle { x: 0, y: 0, width: 0, height: 0 }
        }
    }

    /// Width of the smallest rectangle containing both arguments, before
    /// truncation to `i32` (it can exceed `i32::MAX` for distant inputs).
    pub open spec fn spec_union_width(self, other: Rectangle) -> int {
        let x1 = if self.x <= other.x { self.x as int } else { other.x as int };
        let x2 = if self.spec_right() >= other.spec_right() {
            self.spec_right()
        } else {
            other.spec_right()
        };
        x2 - x1
    }

    /// Height of the smallest rectangle containing both arguments, before
    /// truncation to `i32`.
    pub open spec fn spec_union_height(self, other: Rectangle) -> int {
        let y1 = if self.y <= other.y { self.y as int } else { other.y as int };
        let y2 = if self.spec_bottom() >= other.spec_bottom() {
            self.spec_bottom()
        } else {
            other.spec_bottom()
        };
        y2 - y1
    }

    /// The smallest rectangle containing both arguments.
    pub open spec fn spec_union(self, other: Rectangle) -> Rectangle {
        let x1 = if self.x <= other.x { self.x as int } else { other.x as int };
        let y1 = if self.y <= other.y { self.y as int } else { other.y as int };
        let x2 = if self.spec_right() >= other.spec_right() {
            self.spec_right()
        } else {
            other.spec_right()
        };
        let y2 = if self.spec_bottom() >= other.spec_bottom() {
            self.spec_bottom()
        } else {
            other.spec_bottom()
        };
        Rectangle { x: x1 as i32, y: y1 as i32, width: (x2 - x1) as i32, height: (y2 - y1) as i32 }
    }

    pub fn new(x: i32, y: i32, width: i32, height: i32) -> (r: Rectangle)
        ensures
            r == (Rectangle { x, y, width, height }),
    {
        Rectangle { x, y, width, height }
    }

    pub fn from_points(location: Point, size: Size) -> (r: Rectangle)
        ensures
            r == (Rectangle { x: location.x, y: location.y, width: size.width, height: size.height }),
    {
        Rectangle { x: location.x, y: location.y, width: size.width, height: size.height }
    }

    pub fn from_ltrb(left: i32, top: i32, right: i32, bottom: i32) -> (r: Rectangle)
        requires
            i32::MIN <= right - left <= i32::MAX,
            i32::MIN <= bottom - top <= i32::MAX,
        ensures
            r == (Rectangle { x: left, y: top, width: (right - left) as i32, height: (bottom - top) as i32 }),
    {
        Rectangle { x: left, y: top, width: right - left, height: bottom - top }
    }

    pub fn location(&self) -> (r: Point)
        ensures
            r == (Point { x: self.x, y: self.y }),
    {
        Point { x: self.x, y: self.y }
    }

    pub fn size(&self) -> (r: Size)
        ensures
            r == (Size { width: self.width, height: self.height }),
    {
        Size { width: self.width, height: self.height }
    }

    pub fn left(&self) -> (r: i32)
        ensures
            r == self.x,
    {
        self.x
    }

    pub fn top(&self) -> (r: i32)
        ensures
            r == self.y,
    {
        self.y
    }

    pub fn right(&self) -> (r: i32)
        requires
            i32::MIN <= self.spec_right() <= i32::MAX,
        ensures
            r == self.spec_right(),
    {
        self.x + self.width
    }

    pub fn bottom(&self) -> (r: i32)
        requires
            i32::MIN <= self.spec_bottom() <= i32::MAX,
        ensures
            r == self.spec_bottom(),
    {
        self.y + self.height
    }

    pub fn is_empty(&self) -> (r: bool)
        ensures
            r == (self.width == 0 && self.height == 0 && self.x == 0 && self.y == 0),
    {
        self.width == 0 && self.height == 0 && self.x == 0 && self.y == 0
    }

    pub fn contains(&self, x: i32, y: i32) -> (r: bool)
        requires
            self.edges_in_range(),
        ensures
            r == self.spec_contains(x as int, y as int),
    {
        x >= self.x && x < self.right() && y >= self.y && y < self.bottom()
    }

    pub fn contains_point(&self, point: Point) -> (r: bool)
        requires
            self.edges_in_range(),
        ensures
            r == self.spec_contains(point.x as int, point.y as int),
    {
        self.contains(point.x, point.y)
    }

    pub fn contains_rect(&self, rect: Rectangle) -> (r: bool)
        requires
            self.edges_in_range(),
            rect.edges_in_range(),
        ensures
            r == (self.spec_contains(rect.x as int, rect.y as int)
                && self.spec_contains(rect.spec_right(), rect.spec_bottom())),
    {
        self.contains(rect.x, rect.y) && self.contains(rect.right(), rect.bottom())
    }

    pub fn inflate(&mut self, width: i32, height: i32)
        requires
            i32::MIN <= old(self).x - width <= i32::MAX,
            i32::MIN <= old(self).y - height <= i32::MAX,
            i32::MIN <= 2 * width <= i32::MAX,
            i32::MIN <= 2 * height <= i32::MAX,
            i32::MIN <= old(self).width + 2 * width <= i32::MAX,
            i32::MIN <= old(self).height + 2 * height <= i32::MAX,
        ensures
            final(self).x == old(self).x - width,
            final(self).y == old(self).y - height,
            final(self).width == old(self).width + 2 * width,
            final(self).height == old(self).height + 2 * height,
    {
        self.x = self.x - width;
        self.y = self.y - height;
        self.width = self.width + 2 * width;
        self.height = self.height + 2 * height;
    }

    pub fn intersect(&mut self, other: Rectangle)
        requires
            old(self).edges_in_range(),
            other.edges_in_range(),
        ensures
            *final(self) == old(self).spec_intersection(other),
    {
        let x1 = if self.x >= other.x { self.x } else { other.x };
        let y1 = if self.y >= other.y { self.y } else { other.y };
        let self_right = self.right();
        let other_right = other.right();
        let x2 = if self_right <= other_right { self_right } else { other_right };
        let self_bottom = self.bottom();
        let other_bottom = other.bottom();
        let y2 = if self_bottom <= other_bottom { self_bottom } else { other_bottom };

        if x2 >= x1 && y2 >= y1 {
            *self = Rectangle { x: x1, y: y1, width: x2 - x1, height: y2 - y1 };
        } else {
            *self = Rectangle { x: 0, y: 0, width: 0, height: 0 };
        }
    }

    pub fn intersect_with(&self, other: Rectangle) -> (r: Rectangle)
        requires
            self.edges_in_range(),
            other.edges_in_range(),
        ensures
            r == self.spec_intersection(other),
    {
        let mut result = *self;
        result.intersect(other);
        result
    }

    pub fn intersects_with(&self, other: Rectangle) -> (r: bool)
        requires
            self.edges_in_range(),
            other.edges_in_range(),
        ensures
            r == self.spec_intersects(other),
    {
        self.x < other.x + other.width && other.x < self.x + self.width
            && self.y < other.y + other.height && other.y < self.y + self.height
    }

    pub fn union_with(&self, other: Rectangle) -> (r: Rectangle)
        requires
            self.edges_in_range(),
            other.edges_in_range(),
            self.spec_union_width(other) <= i32::MAX,
            self.spec_union_height(other) <= i32::MAX,
        ensures
            r == self.spec_union(other),
    {
        let x1 = if self.x <= other.x { self.x } else { other.x };
        let y1 = if self.y <= other.y { self.y } else { other.y };
        let self_right = self.right();
        let other_right = other.right();
        let x2 = if self_right >= other_right { self_right } else { other_right };
        let self_bottom = self.bottom();
        let other_bottom = other.bottom();
        let y2 = if self_bottom >= other_bottom { self_bottom } else { other_bottom };

        Rectangle { x: x1, y: y1, width: x2 - x1, height: y2 - y1 }
    }

    pub fn offset(&mut self, dx: i32, dy: i32)
        requires
            i32::MIN <= old(self).x + dx <= i32::MAX,
            i32::MIN <= old(self).y + dy <= i32::MAX,
        ensures
            final(self).x == old(self).x + dx,
            final(self).y == old(self).y + dy,
            final(self).width == old(self).width,
            final(self).height == old(self).height,
    {
        self.x = self.x + dx;
        self.y = self.y + dy;
    }
}

impl Default for Rectangle {
    fn default() -> (r: Rectangle)
        ensures
            r == (Rectangle { x: 0, y: 0, width: 0, height: 0 }),
    {
        Rectangle { x: 0, y: 0, width: 0, height: 0 }
    }
}

} // verus!
