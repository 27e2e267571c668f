//! Fonts.

use vstd::prelude::*;
use crate::ext::tdx::{Kind, Release, Tr};

verus! {

/// A font, of the system or loaded from font data.
#[derive(Debug, PartialEq, Eq, Structural)]
pub struct Font {
    /// Whether this wrapper owns the handle and is the one to dispose it.
    pub d: bool,
    /// The handle.
    pub h: i32,
}

impl Font {
    /// A view of the same resource that does not own it.
    pub fn as_font(&self) -> (v: Font)
        ensures
            v == (Font { d: false, h: self.h }),
    {
        Font { d: false, h: self.h }
    }
}

impl Tr for Font {
    open spec fn spec_kind(&self) -> Kind {
        Kind::Font
    }

    open spec fn spec_handle(&self) -> i32 {
        self.h
    }

    open spec fn spec_owner(&self) -> bool {
        self.d
    }

    fn kind(&self) -> (k: Kind) {
        Kind::Font
    }

    fn handle(&self) -> (h: i32) {
        self.h
    }

    fn dispose(&mut self) -> (r: Option<Release>)
    {
        if self.d && self.h != 0 {
            let r = Release::Font(self.h);
            self.h = 0;
            Some(r)
        } else {
            None
        }
    }
}

} // verus!
