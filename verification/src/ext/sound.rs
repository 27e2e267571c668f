//! Sounds.

use vstd::prelude::*;
use crate::dx::FALSE;
use crate::ext::tdx::{Kind, Release, Tr};

verus! {

/// A sound loaded into memory.
#[derive(Debug, PartialEq, Eq, Structural)]
pub struct Sound {
    /// Whether this wrapper owns the handle and is the one to dispose it.
    pub d: bool,
    /// The handle.
    pub h: i32,
}

impl Sound {
    /// A view of the same resource that does not own it.
    pub fn as_sound(&self) -> (v: Sound)
        ensures
            v == (Sound { d: false, h: self.h }),
    {
        Sound { d: false, h: self.h }
    }
}

impl Tr for Sound {
    open spec fn spec_kind(&self) -> Kind {
        Kind::Sound
    }

    open spec fn spec_handle(&self) -> i32 {
        self.h
    }

    open spec fn spec_owner(&self) -> bool {
        self.d
    }

    fn kind(&self) -> (k: Kind) {
        Kind::Sound
    }

    fn handle(&self) -> (h: i32) {
        self.h
    }

    fn dispose(&mut self) -> (r: Option<Release>)
    {
        if self.d && self.h != 0 {
            let r = Release::Sound(self.h, FALSE);
            self.h = 0;
            Some(r)
        } else {
            None
        }
    }
}

} // verus!
