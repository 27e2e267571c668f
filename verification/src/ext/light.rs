//! Lights.

use vstd::prelude::*;
use crate::ext::tdx::{Kind, Release, Tr};

verus! {

/// A light of the scene.
#[derive(Debug, PartialEq, Eq, Structural)]
pub struct Light {
    /// Whether this wrapper owns the handle and is the one to dispose it.
    pub d: bool,
    /// The handle.
    pub h: i32,
}

impl Light {
    /// A view of the same resource that does not own it.
    pub fn as_light(&self) -> (v: Light)
        ensures
            v == (Light { d: false, h: self.h }),
    {
        Light { d: false, h: self.h }
    }
}

impl Tr for Light {
    open spec fn spec_kind(&self) -> Kind {
        Kind::Light
    }

    open spec fn spec_handle(&self) -> i32 {
        self.h
    }

    open spec fn spec_owner(&self) -> bool {
        self.d
    }

    fn kind(&self) -> (k: Kind) {
        Kind::Light
    }

    fn handle(&self) -> (h: i32) {
        self.h
    }

    fn dispose(&mut self) -> (r: Option<Release>)
    {
        if self.d && self.h != 0 {
            let r = Release::Light(self.h);
            self.h = 0;
            Some(r)
        } else {
            None
        }
    }
}

} // verus!
