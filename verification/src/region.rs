//! Click-through regions: rectangles of a window that capture pointer input.

use vstd::prelude::*;
use crate::error::WindowError;

verus! {

/// A pointer position in window-local coordinates.
#[derive(Clone, Copy, Debug, PartialEq, Eq, Structural)]
pub struct Point {
    pub x: i32,
    pub y: i32,
}

/// A rectangle in window-local coordinates.  It is half-open: the left and
/// top edges belong to it, the right and bottom edges do not.
#[derive(Clone, Copy, Debug, PartialEq, Eq, Structural)]
pub struct ClickThroughRegion {
    pub x: i32,
    pub y: i32,
    pub width: u32,
    pub height: u32,
}

impl ClickThroughRegion {
    /// A rectangle is valid when it has a positive width and height.
    pub open spec fn valid(self) -> bool {
        self.width > 0 && self.height > 0
    }

    /// Whether the position `(px, py)` lies inside the rectangle.
    pub open spec fn covers_at(self, px: int, py: int) -> bool {
        &&& self.x <= px < self.x + self.width
        &&& self.y <= py < self.y + self.height
    }

    /// Whether `point` lies inside the rectangle.
    pub open spec fn covers(self, point: Point) -> bool {
        self.covers_at(point.x as int, point.y as int)
    }

    pub fn new(x: i32, y: i32, width: u32, height: u32) -> (region: Self)
        ensures
            region == (ClickThroughRegion { x, y, width, height }),
    {
        ClickThroughRegion { x, y, width, height }
    }

    pub fn is_valid(&self) -> (ok: bool)
        ensures
            ok == self.valid(),
    {
        self.width > 0 && self.height > 0
    }

    /// Tests one point against the rectangle.
    pub fn contains(&self, point: Point) -> (inside: bool)
        ensures
            inside == self.covers(point),
    {
        let dx: i64 = point.x as i64 - self.x as i64;
        let dy: i64 = point.y as i64 - self.y as i64;
        0 <= dx && dx < self.width as i64 && 0 <= dy && dy < self.height as i64
    }
}

/// Whether every rectangle of the sequence is valid.
pub open spec fn all_valid(regions: Seq<ClickThroughRegion>) -> bool {
    forall|i: int| 0 <= i < regions.len() ==> (#[trigger] regions[i]).valid()
}

/// Whether `point` lies inside at least one rectangle of the sequence.
/// Rectangles may overlap; one that covers the point is enough.
pub open spec fn hits(regions: Seq<ClickThroughRegion>, point: Point) -> bool {
    exists|i: int| 0 <= i < regions.len() && (#[trigger] regions[i]).covers(point)
}

/// An ordered list of rectangles, as a caller hands it in.  It may hold
/// invalid rectangles; `validate` tells.
#[derive(Clone, Debug, PartialEq, Eq)]
pub struct RegionSet {
    regions: Vec<ClickThroughRegion>,
}

impl View for RegionSet {
    type V = Seq<ClickThroughRegion>;

    closed spec fn view(&self) -> Seq<ClickThroughRegion> {
        self.regions@
    }
}

impl RegionSet {
    /// The empty list: no rectangle captures input.
    pub fn new() -> (set: Self)
        ensures
            set@ == Seq::<ClickThroughRegion>::empty(),
    {
        RegionSet { regions: Vec::new() }
    }

    /// The list that holds the rectangles of `regions`, in their order.
    pub fn from_vec(regions: Vec<ClickThroughRegion>) -> (set: Self)
        ensures
            set@ == regions@,
    {
        RegionSet { regions }
    }

    /// Appends one rectangle.
    pub fn push(&mut self, region: ClickThroughRegion)
        ensures
            final(self)@ == old(self)@.push(region),
    {
        self.regions.push(region);
    }

    pub fn len(&self) -> (n: usize)
        ensures
            n == self@.len(),
    {
        self.regions.len()
    }

    pub fn is_empty(&self) -> (empty: bool)
        ensures
            empty == (self@.len() == 0),
    {
        self.regions.len() == 0
    }

    /// The rectangle at position `index`, if there is one.
    pub fn get(&self, index: usize) -> (region: Option<ClickThroughRegion>)
        ensures
            index < self@.len() ==> region == Some(self@[index as int]),
            index >= self@.len() ==> region is None,
    {
        if index < self.regions.len() {
            Some(self.regions[index])
        } else {
            None
        }
    }

    /// The rectangles as a vector, in their order.
    pub fn to_vec(&self) -> (regions: Vec<ClickThroughRegion>)
        ensures
            regions@ == self@,
    {
        let mut out: Vec<ClickThroughRegion> = Vec::new();
        let mut i: usize = 0;
        while i < self.regions.len()
            invariant
                i <= self.regions.len(),
                out@ == self.regions@.subrange(0, i as int),
            decreases self.regions.len() - i,
        {
            out.push(self.regions[i]);
            i += 1;
        }
        out
    }

    /// Checks every rectangle; the list is rejected as soon as one has a
    /// width or a height of zero.
    pub fn validate(&self) -> (checked: Result<(), WindowError>)
        ensures
            all_valid(self@) ==> checked == Ok::<(), WindowError>(()),
            !all_valid(self@) ==> checked == Err::<(), WindowError>(WindowError::InvalidRegion),
    {
        let mut i: usize = 0;
        while i < self.regions.len()
            invariant
                i <= self.regions.len(),
                all_valid(self.regions@.subrange(0, i as int)),
            decreases self.regions.len() - i,
        {
            if !self.regions[i].is_valid() {
                return Err(WindowError::InvalidRegion);
            }
            assert forall|j: int| 0 <= j < i + 1 implies (#[trigger] self.regions@.subrange(
                0,
                i + 1,
            )[j]).valid() by {
                if j < i {
                    assert(self.regions@.subrange(0, i as int)[j].valid());
                }
            }
            i += 1;
        }
        assert(self.regions@.subrange(0, i as int) == self.regions@);
        Ok(())
    }

    /// Whether `point` falls inside at least one rectangle of the list.
    pub fn hit_test(&self, point: Point) -> (hit: bool)
        ensures
            hit == hits(self@, point),
    {
        let mut i: usize = 0;
        while i < self.regions.len()
            invariant
                i <= self.regions.len(),
                forall|j: int| 0 <= j < i ==> !(#[trigger] self.regions@[j]).covers(point),
            decreases self.regions.len() - i,
        {
            if self.regions[i].contains(point) {
                return true;
            }
            i += 1;
        }
        false
    }
}

/// The engine that owns the active rectangles of the one window that takes
/// click-through regions.  Outside the active rectangles pointer input
/// passes through that window; inside any of them the window receives it.
pub struct RegionEngine {
    target: String,
    active: RegionSet,
}

impl RegionEngine {
    /// The label of the window that the engine serves.
    pub closed spec fn target(self) -> Seq<char> {
        self.target@
    }

    /// The rectangles that are in force.
    pub closed spec fn active(self) -> Seq<ClickThroughRegion> {
        self.active@
    }

    /// The rectangles in force are all valid.
    pub open spec fn wf(self) -> bool {
        all_valid(self.active())
    }

    /// An engine for the window labelled `target`.  It starts with no
    /// rectangle, so the window is click-through everywhere.
    pub fn new(target: &str) -> (engine: Self)
        ensures
            engine.wf(),
            engine.target() == target@,
            engine.active() == Seq::<ClickThroughRegion>::empty(),
    {
        RegionEngine { target: target.to_owned(), active: RegionSet::new() }
    }

    /// Whether `window_label` names the window that the engine serves.
    pub fn accepts(&self, window_label: &str) -> (ok: bool)
        ensures
            ok == (window_label@ == self.target()),
    {
        window_label.to_owned() == self.target
    }

    /// Replaces the active rectangles by `regions`, all at once or not at
    /// all.  A label other than the engine's window is refused first, then
    /// a list with an invalid rectangle; either way the rectangles in force
    /// stay as they were.
    pub fn set_regions(&mut self, window_label: &str, regions: RegionSet) -> (outcome: Result<
        (),
        WindowError,
    >)
        requires
            old(self).wf(),
        ensures
            final(self).wf(),
            final(self).target() == old(self).target(),
            window_label@ != old(self).target() ==> {
                &&& outcome == Err::<(), WindowError>(WindowError::InvalidTarget)
                &&& final(self).active() == old(self).active()
            },
            window_label@ == old(self).target() && !all_valid(regions@) ==> {
                &&& outcome == Err::<(), WindowError>(WindowError::InvalidRegion)
                &&& final(self).active() == old(self).active()
            },
            window_label@ == old(self).target() && all_valid(regions@) ==> {
                &&& outcome == Ok::<(), WindowError>(())
                &&& final(self).active() == regions@
            },
    {
        if !self.accepts(window_label) {
            return Err(WindowError::InvalidTarget);
        }
        match regions.validate() {
            Err(e) => Err(e),
            Ok(()) => {
                self.active = regions;
                Ok(())
            },
        }
    }

    /// Whether pointer input at `point` is delivered to the window.
    pub fn hit_test(&self, point: Point) -> (hit: bool)
        ensures
            hit == hits(self.active(), point),
    {
        self.active.hit_test(point)
    }

    /// The rectangles in force, for the platform layer to apply.
    pub fn regions(&self) -> (regions: &RegionSet)
        ensures
            regions@ == self.active(),
    {
        &self.active
    }

    /// The label of the window that the engine serves.
    pub fn target_label(&self) -> (label: &str)
        ensures
            label@ == self.target(),
    {
        self.target.as_str()
    }
}

/// The hit test depends on nothing but the rectangles and the point: two
/// lists with the same rectangles answer alike for every point.
pub proof fn lemma_hit_test_is_a_function(a: RegionSet, b: RegionSet, point: Point)
    requires
        a@ == b@,
    ensures
        hits(a@, point) == hits(b@, point),
{
}

/// Rectangles are half-open: the top-left corner of a valid rectangle is
/// inside it, the corner diagonally opposite is outside.
pub proof fn lemma_rectangle_is_half_open(region: ClickThroughRegion)
    requires
        region.valid(),
    ensures
        region.covers_at(region.x as int, region.y as int),
        !region.covers_at(region.x + region.width, region.y + region.height),
        !region.covers_at(region.x + region.width, region.y as int),
        !region.covers_at(region.x as int, region.y + region.height),
        region.covers_at(region.x + region.width - 1, region.y + region.height - 1),
{
}

/// With no rectangle, no point is hit: the window is fully click-through.
pub proof fn lemma_empty_hits_nothing(point: Point)
    ensures
        !hits(Seq::<ClickThroughRegion>::empty(), point),
{
}

} // verus!
