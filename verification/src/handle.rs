//! Object handles as MATLAB code sees them.
//!
//! Every object that Strobe creates (a screen, a shape, ...) reaches MATLAB
//! as a 1x2 `uint64` array: the first word is the object's address, the
//! second a tag that says what kind of object it is.  Commands that take an
//! object back check that tag before they touch the object.

use vstd::prelude::*;

verus! {

/// The kinds of Strobe objects that MATLAB code holds handles to.
#[derive(Debug, Clone, Copy, PartialEq, Eq, Structural)]
pub enum ObjectKind {
    Screen,
    Shape,
    Texture,
    Framebuffer,
    Image,
    Mould,
    Shader,
}

impl ObjectKind {
    /// The tag word stored in the second element of a handle.
    pub open spec fn code(self) -> u64 {
        match self {
            ObjectKind::Screen => 1,
            ObjectKind::Shape => 2,
            ObjectKind::Texture => 3,
            ObjectKind::Framebuffer => 4,
            ObjectKind::Image => 5,
            ObjectKind::Mould => 6,
            ObjectKind::Shader => 7,
        }
    }

    pub fn tag(self) -> (r: u64)
        ensures
            r == self.code(),
    {
        match self {
            ObjectKind::Screen => 1,
            ObjectKind::Shape => 2,
            ObjectKind::Texture => 3,
            ObjectKind::Framebuffer => 4,
            ObjectKind::Image => 5,
            ObjectKind::Mould => 6,
            ObjectKind::Shader => 7,
        }
    }

    /// The kind whose tag is `t`, if any.
    pub fn from_tag(t: u64) -> (r: Option<ObjectKind>)
        ensures
            r matches Some(k) ==> k.code() == t,
            r is None ==> forall|k: ObjectKind| k.code() != t,
    {
        if t == 1 {
            Some(ObjectKind::Screen)
        } else if t == 2 {
            Some(ObjectKind::Shape)
        } else if t == 3 {
            Some(ObjectKind::Texture)
        } else if t == 4 {
            Some(ObjectKind::Framebuffer)
        } else if t == 5 {
            Some(ObjectKind::Image)
        } else if t == 6 {
            Some(ObjectKind::Mould)
        } else if t == 7 {
            Some(ObjectKind::Shader)
        } else {
            None
        }
    }
}

/// The two words of the handle that is handed to MATLAB for a new object of
/// kind `kind` at `address`.
pub fn handle_words(address: u64, kind: ObjectKind) -> (r: (u64, u64))
    ensures
        r == (address, kind.code()),
{
    (address, kind.tag())
}

/// Distinct kinds have distinct tags, so a handle never passes for an object
/// of another kind.
pub proof fn law_tags_distinct(a: ObjectKind, b: ObjectKind)
    ensures
        a.code() == b.code() <==> a == b,
{
}

} // verus!
