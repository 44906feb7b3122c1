//! The result of a conversion: exactly six face images, one per face tag, all
//! of the same square size; and the optional Z-up re-orientation of a whole
//! result.

use vstd::prelude::*;
use crate::face::Side;
use crate::pixel::FaceImage;
use crate::rotation::is_quarter_rotation_of;
use crate::rotation::quarters_spec;
use crate::rotation::rotate_face;

verus! {

/// Six face images, one per face of the cube.
pub struct CubemapResult {
    pub front: FaceImage,
    pub back: FaceImage,
    pub left: FaceImage,
    pub right: FaceImage,
    pub top: FaceImage,
    pub bottom: FaceImage,
}

impl CubemapResult {
    /// The shared side length of the six faces.
    pub open spec fn size_spec(self) -> int {
        self.front.size as int
    }

    /// The face that carries `side`'s tag.
    pub open spec fn face_spec(self, side: Side) -> FaceImage {
        match side {
            Side::Front => self.front,
            Side::Back => self.back,
            Side::Left => self.left,
            Side::Right => self.right,
            Side::Top => self.top,
            Side::Bottom => self.bottom,
        }
    }

    /// The six faces in a fixed order.
    pub open spec fn faces(self) -> Seq<FaceImage> {
        seq![self.front, self.back, self.left, self.right, self.top, self.bottom]
    }

    /// Each of the six slots holds a well-formed face image carrying that
    /// slot's tag, and all six share one side length.
    pub open spec fn wf(self) -> bool {
        forall|s: Side|
            {
                &&& (#[trigger] self.face_spec(s)).wf()
                &&& self.face_spec(s).side == s
                &&& self.face_spec(s).size as int == self.size_spec()
            }
    }

    /// Assemble a result from six face images, one per tag, of one size.
    pub fn new(
        front: FaceImage,
        back: FaceImage,
        left: FaceImage,
        right: FaceImage,
        top: FaceImage,
        bottom: FaceImage,
    ) -> (r: CubemapResult)
        requires
            front.wf() && front.side == Side::Front,
            back.wf() && back.side == Side::Back,
            left.wf() && left.side == Side::Left,
            right.wf() && right.side == Side::Right,
            top.wf() && top.side == Side::Top,
            bottom.wf() && bottom.side == Side::Bottom,
            back.size == front.size,
            left.size == front.size,
            right.size == front.size,
            top.size == front.size,
            bottom.size == front.size,
        ensures
            r.wf(),
            r == (CubemapResult { front, back, left, right, top, bottom }),
    {
        CubemapResult { front, back, left, right, top, bottom }
    }

    /// Borrow the face that carries `side`'s tag.
    pub fn face(&self, side: Side) -> (r: &FaceImage)
        ensures
            *r == self.face_spec(side),
    {
        match side {
            Side::Front => &self.front,
            Side::Back => &self.back,
            Side::Left => &self.left,
            Side::Right => &self.right,
            Side::Top => &self.top,
            Side::Bottom => &self.bottom,
        }
    }
}

/// A well-formed result holds exactly six face images, one per face tag, each
/// well formed and of the shared square size: the face listed at any position
/// is the one its own tag names, so no tag appears twice and none is missing.
pub proof fn lemma_result_complete(r: CubemapResult)
    requires
        r.wf(),
    ensures
        r.faces().len() == 6,
        forall|s: Side| (#[trigger] r.face_spec(s)).side == s,
        forall|s: Side| (#[trigger] r.face_spec(s)).wf(),
        forall|s: Side| (#[trigger] r.face_spec(s)).size as int == r.size_spec(),
        forall|s: Side| r.faces().contains(#[trigger] r.face_spec(s)),
        forall|i: int| 0 <= i < 6 ==> r.faces()[i] == r.face_spec(r.faces()[i].side),
{
    assert forall|s: Side| r.faces().contains(#[trigger] r.face_spec(s)) by {
        match s {
            Side::Front => assert(r.faces()[0] == r.face_spec(s)),
            Side::Back => assert(r.faces()[1] == r.face_spec(s)),
            Side::Left => assert(r.faces()[2] == r.face_spec(s)),
            Side::Right => assert(r.faces()[3] == r.face_spec(s)),
            Side::Top => assert(r.faces()[4] == r.face_spec(s)),
            Side::Bottom => assert(r.faces()[5] == r.face_spec(s)),
        }
    }
    assert forall|i: int| 0 <= i < 6 implies r.faces()[i] == r.face_spec(r.faces()[i].side) by {
        assert(r.face_spec(Side::Front) == r.front);
        assert(r.face_spec(Side::Back) == r.back);
        assert(r.face_spec(Side::Left) == r.left);
        assert(r.face_spec(Side::Right) == r.right);
        assert(r.face_spec(Side::Top) == r.top);
        assert(r.face_spec(Side::Bottom) == r.bottom);
    }
}

/// The Z-up re-orientation does not alter a constant result: if every pixel
/// of every face of `cubemap` equals `c`, and `r` relates to `cubemap` as
/// `rotate`'s contract states, then every pixel of every face of `r` equals
/// `c` as well.
pub proof fn lemma_rotate_preserves_constant_result(
    cubemap: CubemapResult,
    r: CubemapResult,
    c: crate::pixel::Rgba8,
)
    requires
        cubemap.wf(),
        r.wf(),
        forall|s: Side|
            is_quarter_rotation_of(
                #[trigger] r.face_spec(s),
                cubemap.face_spec(s),
                quarters_spec(s),
            ),
        forall|s: Side| (#[trigger] cubemap.face_spec(s)).is_constant(c),
    ensures
        forall|s: Side| (#[trigger] r.face_spec(s)).is_constant(c),
{
    assert forall|s: Side| (#[trigger] r.face_spec(s)).is_constant(c) by {
        crate::rotation::lemma_rotation_preserves_constant(
            cubemap.face_spec(s),
            r.face_spec(s),
            quarters_spec(s),
            c,
        );
    }
}

/// Re-orient a whole result for a Z-up convention: each face is turned by the
/// quarter turn its tag prescribes, and nothing else changes.
pub fn rotate(cubemap: CubemapResult) -> (r: CubemapResult)
    requires
        cubemap.wf(),
    ensures
        r.wf(),
        r.size_spec() == cubemap.size_spec(),
        forall|s: Side|
            is_quarter_rotation_of(
                #[trigger] r.face_spec(s),
                cubemap.face_spec(s),
                quarters_spec(s),
            ),
{
    proof {
        assert(cubemap.face_spec(Side::Front) == cubemap.front);
        assert(cubemap.face_spec(Side::Back) == cubemap.back);
        assert(cubemap.face_spec(Side::Left) == cubemap.left);
        assert(cubemap.face_spec(Side::Right) == cubemap.right);
        assert(cubemap.face_spec(Side::Top) == cubemap.top);
        assert(cubemap.face_spec(Side::Bottom) == cubemap.bottom);
    }
    let front = rotate_face(&cubemap.front);
    let back = rotate_face(&cubemap.back);
    let left = rotate_face(&cubemap.left);
    let right = rotate_face(&cubemap.right);
    let top = rotate_face(&cubemap.top);
    let bottom = rotate_face(&cubemap.bottom);
    CubemapResult { front, back, left, right, top, bottom }
}

} // verus!
