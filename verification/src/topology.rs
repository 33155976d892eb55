//! Nodes and springs of a worm body, addressed by small integer handles.
//!
//! Node 0 is the head. Behind it follow triplets of a centre, a left and a
//! right node; triplet `i` owns the handles `3 i + 1`, `3 i + 2` and
//! `3 i + 3`. Five springs tie the head to triplet 0, and every later
//! triplet is tied to the one before it by the same eight springs, two of
//! which are muscles.
use crate::config::ConfigError;
use vstd::prelude::*;

verus! {

/// Springs that tie the head to the first triplet.
pub const HEAD_SPRINGS: usize = 5;

/// Springs that tie a triplet to the one before it.
pub const LINK_SPRINGS: usize = 8;

/// Side of the body midline on which a muscle lies.
#[derive(Clone, Copy, Debug, PartialEq, Eq, Structural)]
pub enum Side {
    Left,
    Right,
}

/// Tag of a muscle spring: the segment it moves and the side it lies on.
#[derive(Clone, Copy, Debug, PartialEq, Eq, Structural)]
pub struct Control {
    pub index: usize,
    pub side: Side,
}

/// Role of a spring in the body.
#[derive(Clone, Copy, Debug, PartialEq, Eq, Structural)]
pub enum SpringKind {
    /// Lateral bracing of ordinary stiffness.
    Soft,
    /// The backbone.
    Skeleton,
    /// Left-to-right strut of a triplet; never drawn.
    Brace,
    /// Actuated spring along one flank, with edge drag.
    Muscle(Control),
}

/// A spring between the nodes `a` and `b`.
#[derive(Clone, Copy, Debug, PartialEq, Eq, Structural)]
pub struct Spring {
    pub a: usize,
    pub b: usize,
    pub kind: SpringKind,
}

/// One body segment: a centre with its left and right companions.
#[derive(Clone, Copy, Debug, PartialEq, Eq)]
pub struct Segment<T> {
    pub index: usize,
    pub center: T,
    pub left: T,
    pub right: T,
}

/// The node handles of triplet `i`.
pub open spec fn triplet(i: int) -> Segment<usize> {
    Segment {
        index: i as usize,
        center: (3 * i + 1) as usize,
        left: (3 * i + 2) as usize,
        right: (3 * i + 3) as usize,
    }
}

/// The first `count` triplets.
pub open spec fn triplets(count: nat) -> Seq<Segment<usize>> {
    Seq::new(count, |i: int| triplet(i))
}

/// Spring number `slot` of the five that tie `head` to the triplet `first`.
pub open spec fn head_spring(head: usize, first: Segment<usize>, slot: int) -> Spring {
    if slot == 0 {
        Spring { a: first.left, b: head, kind: SpringKind::Soft }
    } else if slot == 1 {
        Spring { a: first.center, b: head, kind: SpringKind::Skeleton }
    } else if slot == 2 {
        Spring { a: first.right, b: head, kind: SpringKind::Soft }
    } else if slot == 3 {
        Spring { a: first.center, b: first.left, kind: SpringKind::Soft }
    } else {
        Spring { a: first.center, b: first.right, kind: SpringKind::Soft }
    }
}

/// Spring number `slot` of the eight that tie the triplet `new` to the
/// triplet `prev` in front of it.
pub open spec fn link_spring(new: Segment<usize>, prev: Segment<usize>, slot: int) -> Spring {
    if slot == 0 {
        Spring { a: new.center, b: prev.center, kind: SpringKind::Skeleton }
    } else if slot == 1 {
        Spring { a: new.center, b: new.left, kind: SpringKind::Soft }
    } else if slot == 2 {
        Spring { a: new.center, b: new.right, kind: SpringKind::Soft }
    } else if slot == 3 {
        Spring { a: new.left, b: prev.center, kind: SpringKind::Soft }
    } else if slot == 4 {
        Spring { a: new.right, b: prev.center, kind: SpringKind::Soft }
    } else if slot == 5 {
        Spring { a: new.left, b: new.right, kind: SpringKind::Brace }
    } else if slot == 6 {
        Spring {
            a: new.left,
            b: prev.left,
            kind: SpringKind::Muscle(Control { index: new.index, side: Side::Left }),
        }
    } else {
        Spring {
            a: new.right,
            b: prev.right,
            kind: SpringKind::Muscle(Control { index: new.index, side: Side::Right }),
        }
    }
}

/// The eight springs of one link, in wiring order.
pub open spec fn link(new: Segment<usize>, prev: Segment<usize>) -> Seq<Spring> {
    Seq::new(LINK_SPRINGS as nat, |slot: int| link_spring(new, prev, slot))
}

/// Spring number `j` of a body, whatever its length.
pub open spec fn spring_at(j: int) -> Spring {
    if j < HEAD_SPRINGS {
        head_spring(0, triplet(0), j)
    } else {
        let i = (j - HEAD_SPRINGS) / (LINK_SPRINGS as int) + 1;
        link_spring(triplet(i), triplet(i - 1), (j - HEAD_SPRINGS) % (LINK_SPRINGS as int))
    }
}

/// All springs of a body with `links` links behind triplet 0.
pub open spec fn wiring(links: nat) -> Seq<Spring> {
    Seq::new(HEAD_SPRINGS as nat + LINK_SPRINGS as nat * links, |j: int| spring_at(j))
}

/// Whether a body of `links` links can be addressed by `usize` handles.
pub open spec fn fits(links: nat) -> bool {
    LINK_SPRINGS * links + HEAD_SPRINGS <= usize::MAX
}

/// What a body is made of.
pub struct BodyView {
    pub segments: Seq<Segment<usize>>,
    pub springs: Seq<Spring>,
}

/// The arena of one worm: its triplets and its springs.
pub struct Body {
    segments: Vec<Segment<usize>>,
    springs: Vec<Spring>,
}

impl View for Body {
    type V = BodyView;

    closed spec fn view(&self) -> BodyView {
        BodyView { segments: self.segments@, springs: self.springs@ }
    }
}

/// Appends to `springs` the eight springs that tie `new` to `prev`. Building
/// and growing a body both wire their links through this one function.
pub fn wire_link(springs: &mut Vec<Spring>, new: Segment<usize>, prev: Segment<usize>)
    ensures
        final(springs)@ == old(springs)@ + link(new, prev),
{
    springs.push(Spring { a: new.center, b: prev.center, kind: SpringKind::Skeleton });
    springs.push(Spring { a: new.center, b: new.left, kind: SpringKind::Soft });
    springs.push(Spring { a: new.center, b: new.right, kind: SpringKind::Soft });
    springs.push(Spring { a: new.left, b: prev.center, kind: SpringKind::Soft });
    springs.push(Spring { a: new.right, b: prev.center, kind: SpringKind::Soft });
    springs.push(Spring { a: new.left, b: new.right, kind: SpringKind::Brace });
    springs.push(
        Spring {
            a: new.left,
            b: prev.left,
            kind: SpringKind::Muscle(Control { index: new.index, side: Side::Left }),
        },
    );
    springs.push(
        Spring {
            a: new.right,
            b: prev.right,
            kind: SpringKind::Muscle(Control { index: new.index, side: Side::Right }),
        },
    );
    assert(springs@ =~= old(springs)@ + link(new, prev));
}

/// Appends to `springs` the five springs that tie `head` to `first`.
pub fn wire_head(springs: &mut Vec<Spring>, head: usize, first: Segment<usize>)
    ensures
        final(springs)@ == old(springs)@ + Seq::new(
            HEAD_SPRINGS as nat,
            |slot: int| head_spring(head, first, slot),
        ),
{
    springs.push(Spring { a: first.left, b: head, kind: SpringKind::Soft });
    springs.push(Spring { a: first.center, b: head, kind: SpringKind::Skeleton });
    springs.push(Spring { a: first.right, b: head, kind: SpringKind::Soft });
    springs.push(Spring { a: first.center, b: first.left, kind: SpringKind::Soft });
    springs.push(Spring { a: first.center, b: first.right, kind: SpringKind::Soft });
    assert(springs@ =~= old(springs)@ + Seq::new(
        HEAD_SPRINGS as nat,
        |slot: int| head_spring(head, first, slot),
    ));
}

/// The wiring of `links + 1` links is the wiring of `links` links followed
/// by the eight springs of the new last link.
pub proof fn lemma_wiring_grows(links: nat)
    ensures
        wiring(links + 1) =~= wiring(links) + link(
            triplet(links as int + 1),
            triplet(links as int),
        ),
{
    let grown = wiring(links + 1);
    let joined = wiring(links) + link(triplet(links as int + 1), triplet(links as int));
    assert(grown.len() == joined.len());
    assert forall|j: int| 0 <= j < grown.len() implies grown[j] == joined[j] by {
        if j >= HEAD_SPRINGS + LINK_SPRINGS * links {
            let slot = j - (HEAD_SPRINGS + LINK_SPRINGS * links);
            assert(j - HEAD_SPRINGS == 8 * links + slot);
            assert((j - HEAD_SPRINGS) / 8 == links as int);
            assert((j - HEAD_SPRINGS) % 8 == slot);
        }
    }
}

impl Body {
    /// Number of links behind triplet 0, which is the number of actuated
    /// segments.
    pub open spec fn links(&self) -> nat {
        (self@.segments.len() - 1) as nat
    }

    /// The body has a head, at least two triplets, and exactly the springs
    /// that the wiring rule gives for its length.
    pub open spec fn wf(&self) -> bool {
        &&& self@.segments.len() >= 2
        &&& fits(self.links())
        &&& self@.segments == triplets(self@.segments.len())
        &&& self@.springs == wiring(self.links())
    }

    /// Builds a body of `segment_count` actuated segments: a head and
    /// `segment_count + 1` triplets.
    pub fn build(segment_count: usize) -> (r: Result<Body, ConfigError>)
        ensures
            segment_count == 0 ==> r == Err::<Body, ConfigError>(ConfigError::NoSegments),
            segment_count > 0 && !fits(segment_count as nat) ==> r == Err::<Body, ConfigError>(
                ConfigError::TooManySegments,
            ),
            segment_count > 0 && fits(segment_count as nat) ==> r.is_ok() && r.unwrap().wf()
                && r.unwrap().links() == segment_count,
    {
        if segment_count == 0 {
            return Err(ConfigError::NoSegments);
        }
        if segment_count > (usize::MAX - HEAD_SPRINGS) / LINK_SPRINGS {
            return Err(ConfigError::TooManySegments);
        }
        let mut segments: Vec<Segment<usize>> = Vec::new();
        let mut i: usize = 0;
        while i <= segment_count
            invariant
                i <= segment_count + 1,
                fits(segment_count as nat),
                segments@ =~= triplets(i as nat),
            decreases segment_count + 1 - i,
        {
            segments.push(Segment { index: i, center: 3 * i + 1, left: 3 * i + 2, right: 3 * i + 3 });
            i += 1;
        }
        let mut springs: Vec<Spring> = Vec::new();
        wire_head(&mut springs, 0, segments[0]);
        assert(springs@ =~= wiring(0));
        let mut k: usize = 1;
        while k <= segment_count
            invariant
                1 <= k <= segment_count + 1,
                fits(segment_count as nat),
                segments@ == triplets((segment_count + 1) as nat),
                springs@ == wiring((k - 1) as nat),
            decreases segment_count + 1 - k,
        {
            wire_link(&mut springs, segments[k], segments[k - 1]);
            proof {
                lemma_wiring_grows((k - 1) as nat);
            }
            k += 1;
        }
        Ok(Body { segments, springs })
    }

    /// Grows the body by one segment behind the last one, wired exactly as a
    /// built segment is. Nothing that exists changes; the new triplet is
    /// returned.
    pub fn append_segment(&mut self) -> (r: Result<Segment<usize>, ConfigError>)
        requires
            old(self).wf(),
        ensures
            final(self).wf(),
            !fits(old(self).links() + 1) ==> r == Err::<Segment<usize>, ConfigError>(
                ConfigError::TooManySegments,
            ) && final(self)@ == old(self)@,
            fits(old(self).links() + 1) ==> r == Ok::<Segment<usize>, ConfigError>(
                triplet(old(self).links() as int + 1),
            ) && final(self).links() == old(self).links() + 1 && final(self)@.segments == old(
                self,
            )@.segments.push(r.unwrap()) && final(self)@.springs == old(self)@.springs + link(
                r.unwrap(),
                old(self)@.segments.last(),
            ),
    {
        let length: usize = self.segments.len();
        if length > (usize::MAX - HEAD_SPRINGS) / LINK_SPRINGS {
            return Err(ConfigError::TooManySegments);
        }
        let prev: Segment<usize> = self.segments[length - 1];
        let new: Segment<usize> = Segment {
            index: length,
            center: 3 * length + 1,
            left: 3 * length + 2,
            right: 3 * length + 3,
        };
        wire_link(&mut self.springs, new, prev);
        self.segments.push(new);
        proof {
            lemma_wiring_grows((length - 1) as nat);
            assert(self.segments@ =~= triplets((length + 1) as nat));
        }
        Ok(new)
    }

    /// Number of nodes, the head included.
    pub fn node_count(&self) -> (n: usize)
        requires
            self.wf(),
        ensures
            n == 3 * self@.segments.len() + 1,
    {
        3 * self.segments.len() + 1
    }

    /// Number of actuated segments.
    pub fn segment_count(&self) -> (n: usize)
        requires
            self.wf(),
        ensures
            n == self.links(),
    {
        self.segments.len() - 1
    }

    /// The two nodes that spring `j` joins, if the body has that spring:
    /// always two different nodes of this body.
    pub fn spring_endpoints(&self, j: usize) -> (r: Option<(usize, usize)>)
        requires
            self.wf(),
        ensures
            j >= self@.springs.len() ==> r.is_none(),
            j < self@.springs.len() ==> r == Some((self@.springs[j as int].a, self@.springs[j as int].b)),
            r matches Some((a, b)) ==> a != b && a < 3 * self@.segments.len() + 1 && b < 3
                * self@.segments.len() + 1,
    {
        if j < self.springs.len() {
            proof {
                lemma_endpoints_exist(self.links(), j as int);
            }
            Some((self.springs[j].a, self.springs[j].b))
        } else {
            None
        }
    }

    /// The triplets, head end first.
    pub fn segments(&self) -> (r: &Vec<Segment<usize>>)
        ensures
            r@ == self@.segments,
    {
        &self.segments
    }

    /// The springs, in wiring order.
    pub fn springs(&self) -> (r: &Vec<Spring>)
        ensures
            r@ == self@.springs,
    {
        &self.springs
    }
}

/// Every spring of a body joins two different nodes of that body.
pub proof fn lemma_endpoints_exist(links: nat, j: int)
    requires
        fits(links),
        0 <= j < wiring(links).len(),
    ensures
        wiring(links)[j].a != wiring(links)[j].b,
        wiring(links)[j].a < 3 * links + 4,
        wiring(links)[j].b < 3 * links + 4,
{
    if j >= HEAD_SPRINGS {
        let i = (j - HEAD_SPRINGS) / 8 + 1;
        assert(1 <= i <= links);
    }
}

/// Position in the wiring of the muscle that moves `segment` on `side`.
pub open spec fn muscle_slot(segment: int, side: Side) -> int {
    HEAD_SPRINGS + LINK_SPRINGS * (segment - 1) + if side == Side::Left {
        6int
    } else {
        7int
    }
}

/// A muscle spring carries the tag of an actuated segment of the body and
/// sits at the position that belongs to that tag.
pub proof fn lemma_muscle_tag(links: nat, j: int)
    requires
        fits(links),
        0 <= j < wiring(links).len(),
    ensures
        match wiring(links)[j].kind {
            SpringKind::Muscle(c) => 1 <= c.index <= links && j == muscle_slot(
                c.index as int,
                c.side,
            ),
            _ => true,
        },
{
    if j >= HEAD_SPRINGS {
        let i = (j - HEAD_SPRINGS) / 8 + 1;
        assert(1 <= i <= links);
    }
}

/// Each actuated segment has one muscle per side, so a body of `links`
/// links has `2 * links` muscles.
pub proof fn lemma_muscle_of_segment(links: nat, segment: int, side: Side)
    requires
        fits(links),
        1 <= segment <= links,
    ensures
        0 <= muscle_slot(segment, side) < wiring(links).len(),
        wiring(links)[muscle_slot(segment, side)].kind == SpringKind::Muscle(
            Control { index: segment as usize, side },
        ),
{
    let j = muscle_slot(segment, side);
    assert((j - HEAD_SPRINGS) / 8 == segment - 1);
}

/// Two well-formed bodies of the same length are the same body, whether
/// they were built at that length or grew to it.
pub proof fn lemma_shape_by_length(a: Body, b: Body)
    requires
        a.wf(),
        b.wf(),
        a.links() == b.links(),
    ensures
        a@ == b@,
{
}

impl Side {
    /// `-1` on the left, `+1` on the right.
    pub open spec fn sign_value(self) -> int {
        match self {
            Side::Left => -1,
            Side::Right => 1,
        }
    }

    pub fn sign(self) -> (s: i32)
        ensures
            s == self.sign_value(),
    {
        match self {
            Side::Left => -1,
            Side::Right => 1,
        }
    }
}

/// Stiffness shared by all springs, in quarter units.
pub const STIFFNESS: u32 = 150;

/// Mass of every node, in quarter units.
pub const NODE_MASS: u32 = 4;

/// Drag coefficient of every node, in quarter units.
pub const NODE_DRAG: u32 = 0;

impl SpringKind {
    /// Rest length in quarter units.
    pub open spec fn rest_quarters(self) -> int {
        match self {
            SpringKind::Brace => 4,
            _ => 2,
        }
    }

    /// Rest length at which the spring is built, in quarter units.
    pub fn rest_length(self) -> (q: u32)
        ensures
            q == self.rest_quarters(),
    {
        match self {
            SpringKind::Brace => 4,
            _ => 2,
        }
    }

    /// Edge drag coefficient in quarter units: only muscles feel the fluid.
    pub fn edge_drag(self) -> (q: u32)
        ensures
            q == if self is Muscle {
                4int
            } else {
                0int
            },
    {
        match self {
            SpringKind::Muscle(_) => 4,
            _ => 0,
        }
    }

    /// The tag of a muscle; other springs have none.
    pub fn control(self) -> (c: Option<Control>)
        ensures
            c == match self {
                SpringKind::Muscle(t) => Some(t),
                _ => None::<Control>,
            },
    {
        match self {
            SpringKind::Muscle(t) => Some(t),
            _ => None,
        }
    }
}

/// A place on the quarter-unit lattice.
#[derive(Clone, Copy, Debug, PartialEq, Eq, Structural)]
pub struct Point {
    pub x: i64,
    pub y: i64,
}

/// Where the head of a fresh body rests.
pub open spec fn head_rest() -> Point {
    Point { x: 0, y: 0 }
}

/// Where triplet `i` of a fresh body rests: centres two quarters apart along
/// the negative x axis, flanks one quarter off the axis and one quarter ahead
/// of their centre.
pub open spec fn triplet_rest(i: int) -> Segment<Point> {
    Segment {
        index: i as usize,
        center: Point { x: (-2 * i - 2) as i64, y: 0 },
        left: Point { x: (-2 * i - 1) as i64, y: (-1int) as i64 },
        right: Point { x: (-2 * i - 1) as i64, y: 1 },
    }
}

/// Resting place of the head.
pub fn head_position() -> (p: Point)
    ensures
        p == head_rest(),
{
    Point { x: 0, y: 0 }
}

/// Resting places of the first `count` triplets, head end first.
pub fn gen_segments(count: usize) -> (r: Vec<Segment<Point>>)
    requires
        2 * count <= i64::MAX,
    ensures
        r@ == Seq::new(count as nat, |i: int| triplet_rest(i)),
{
    let mut out: Vec<Segment<Point>> = Vec::new();
    let mut i: usize = 0;
    while i < count
        invariant
            i <= count,
            2 * count <= i64::MAX,
            out@ =~= Seq::new(i as nat, |k: int| triplet_rest(k)),
        decreases count - i,
    {
        let step: i64 = i as i64;
        let along: i64 = 0 - 2 * step;
        out.push(
            Segment {
                index: i,
                center: Point { x: along - 2, y: 0 },
                left: Point { x: along - 1, y: -1 },
                right: Point { x: along - 1, y: 1 },
            },
        );
        i += 1;
    }
    out
}

} // verus!
