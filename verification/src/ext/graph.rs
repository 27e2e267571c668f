//! Images and screens.

use vstd::prelude::*;
use crate::dx::FALSE;
use crate::ext::tdx::{Kind, Release, Tr};

verus! {

/// A screen to draw on. The backend releases it as it releases an image.
#[derive(Debug, PartialEq, Eq, Structural)]
pub struct Screen {
    /// Whether this wrapper owns the handle and is the one to dispose it.
    pub d: bool,
    /// The handle.
    pub h: i32,
}

impl Screen {
    /// A view of the same resource that does not own it.
    pub fn as_screen(&self) -> (v: Screen)
        ensures
            v == (Screen { d: false, h: self.h }),
    {
        Screen { d: false, h: self.h }
    }
}

impl Tr for Screen {
    open spec fn spec_kind(&self) -> Kind {
        Kind::Screen
    }

    open spec fn spec_handle(&self) -> i32 {
        self.h
    }

    open spec fn spec_owner(&self) -> bool {
        self.d
    }

    fn kind(&self) -> (k: Kind) {
        Kind::Screen
    }

    fn handle(&self) -> (h: i32) {
        self.h
    }

    fn dispose(&mut self) -> (r: Option<Release>)
    {
        if self.d && self.h != 0 {
            let r = Release::Graph(self.h, FALSE);
            self.h = 0;
            Some(r)
        } else {
            None
        }
    }
}

/// An image: loaded from a file, made empty, or captured from the screen.
#[derive(Debug, PartialEq, Eq, Structural)]
pub struct Graph {
    /// Whether this wrapper owns the handle and is the one to dispose it.
    pub d: bool,
    /// The handle.
    pub h: i32,
}

impl Graph {
    /// A view of the same resource that does not own it.
    pub fn as_graph(&self) -> (v: Graph)
        ensures
            v == (Graph { d: false, h: self.h }),
    {
        Graph { d: false, h: self.h }
    }
}

impl Tr for Graph {
    open spec fn spec_kind(&self) -> Kind {
        Kind::Graph
    }

    open spec fn spec_handle(&self) -> i32 {
        self.h
    }

    open spec fn spec_owner(&self) -> bool {
        self.d
    }

    fn kind(&self) -> (k: Kind) {
        Kind::Graph
    }

    fn handle(&self) -> (h: i32) {
        self.h
    }

    fn dispose(&mut self) -> (r: Option<Release>)
    {
        if self.d && self.h != 0 {
            let r = Release::Graph(self.h, FALSE);
            self.h = 0;
            Some(r)
        } else {
            None
        }
    }
}

/// The right and bottom edge of the rectangle of width `w` and height `h`
/// whose left top corner is at `l`, `t`, where both can be represented.
pub fn rect_corner(l: i32, t: i32, w: i32, h: i32) -> (c: Option<(i32, i32)>)
    ensures
        c is Some <==> i32::MIN <= l + w <= i32::MAX && i32::MIN <= t + h <= i32::MAX,
        c matches Some(p) ==> p.0 == l + w && p.1 == t + h,
{
    match (l.checked_add(w), t.checked_add(h)) {
        (Some(r), Some(b)) => Some((r, b)),
        _ => None,
    }
}

} // verus!
