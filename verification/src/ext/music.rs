//! Music.

use vstd::prelude::*;
use crate::ext::tdx::{Kind, Release, Tr};

verus! {

/// A piece of music loaded into memory.
#[derive(Debug, PartialEq, Eq, Structural)]
pub struct Music {
    /// Whether this wrapper owns the handle and is the one to dispose it.
    pub d: bool,
    /// The handle.
    pub h: i32,
}

impl Music {
    /// A view of the same resource that does not own it.
    pub fn as_music(&self) -> (v: Music)
        ensures
            v == (Music { d: false, h: self.h }),
    {
        Music { d: false, h: self.h }
    }
}

impl Tr for Music {
    open spec fn spec_kind(&self) -> Kind {
        Kind::Music
    }

    open spec fn spec_handle(&self) -> i32 {
        self.h
    }

    open spec fn spec_owner(&self) -> bool {
        self.d
    }

    fn kind(&self) -> (k: Kind) {
        Kind::Music
    }

    fn handle(&self) -> (h: i32) {
        self.h
    }

    fn dispose(&mut self) -> (r: Option<Release>)
    {
        if self.d && self.h != 0 {
            let r = Release::Music(self.h);
            self.h = 0;
            Some(r)
        } else {
            None
        }
    }
}

} // verus!
