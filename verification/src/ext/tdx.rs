//! The registry of native resources.
//!
//! Every resource of the backend is known by a handle. A wrapper holds one
//! handle and a flag that says whether it owns the handle or only views it.
//! The registry keeps the owning wrappers, one for each handle, and says
//! which releases the backend is owed whenever a wrapper leaves it.

use std::collections::HashMap;
use vstd::prelude::*;
use vstd::std_specs::hash::spec_keys_iter;
use vstd::std_specs::iter::IteratorSpec;
use crate::dx::FALSE;
use crate::ext::font::Font;
use crate::ext::graph::{Graph, Screen};
use crate::ext::light::Light;
use crate::ext::music::Music;
use crate::ext::shader::{ConstantBuffer, GeometryShader, PixelShader, VertexShader};
use crate::ext::sound::Sound;

verus! {

broadcast use vstd::std_specs::hash::group_hash_axioms;

/// The kinds of resource.
#[derive(Debug, Clone, Copy, PartialEq, Eq, Structural)]
pub enum Kind {
    Music,
    Sound,
    Screen,
    Graph,
    VertexShader,
    PixelShader,
    GeometryShader,
    ConstantBuffer,
    Light,
    Font,
}

/// A release that the backend is owed, with the handle to release. A screen
/// is released as an image, and the three shaders are released alike. The
/// release of a sound and that of an image carry, after the handle, the flag
/// that tells the backend whether to log it.
#[derive(Debug, Clone, Copy, PartialEq, Eq, Structural)]
pub enum Release {
    Music(i32),
    Sound(i32, i32),
    Graph(i32, i32),
    Shader(i32),
    ConstantBuffer(i32),
    Light(i32),
    Font(i32),
}

/// A wrapper was asked to be of a kind that it is not.
#[derive(Debug, Clone, Copy, PartialEq, Eq, Structural)]
pub struct KindError {
    pub wanted: Kind,
    pub found: Kind,
}

/// The release of a handle of the given kind. No release is logged.
pub open spec fn release_for(kind: Kind, h: i32) -> Release {
    match kind {
        Kind::Music => Release::Music(h),
        Kind::Sound => Release::Sound(h, FALSE),
        Kind::Screen => Release::Graph(h, FALSE),
        Kind::Graph => Release::Graph(h, FALSE),
        Kind::VertexShader => Release::Shader(h),
        Kind::PixelShader => Release::Shader(h),
        Kind::GeometryShader => Release::Shader(h),
        Kind::ConstantBuffer => Release::ConstantBuffer(h),
        Kind::Light => Release::Light(h),
        Kind::Font => Release::Font(h),
    }
}

/// What disposing a wrapper owes the backend: the release of its handle if
/// it owns the handle and the handle is not zero, nothing otherwise.
pub open spec fn owed(kind: Kind, owner: bool, h: i32) -> Option<Release> {
    if owner && h != 0 {
        Some(release_for(kind, h))
    } else {
        None
    }
}

impl Release {
    /// The handle to release.
    pub open spec fn spec_handle(self) -> i32 {
        match self {
            Release::Music(h) => h,
            Release::Sound(h, _) => h,
            Release::Graph(h, _) => h,
            Release::Shader(h) => h,
            Release::ConstantBuffer(h) => h,
            Release::Light(h) => h,
            Release::Font(h) => h,
        }
    }

    /// The handle to release.
    pub fn handle(&self) -> (h: i32)
        ensures
            h == self.spec_handle(),
    {
        match self {
            Release::Music(h) => *h,
            Release::Sound(h, _) => *h,
            Release::Graph(h, _) => *h,
            Release::Shader(h) => *h,
            Release::ConstantBuffer(h) => *h,
            Release::Light(h) => *h,
            Release::Font(h) => *h,
        }
    }
}

impl Kind {
    /// The release of a handle of this kind.
    pub fn release(self, h: i32) -> (r: Release)
        ensures
            r == release_for(self, h),
    {
        match self {
            Kind::Music => Release::Music(h),
            Kind::Sound => Release::Sound(h, FALSE),
            Kind::Screen => Release::Graph(h, FALSE),
            Kind::Graph => Release::Graph(h, FALSE),
            Kind::VertexShader => Release::Shader(h),
            Kind::PixelShader => Release::Shader(h),
            Kind::GeometryShader => Release::Shader(h),
            Kind::ConstantBuffer => Release::ConstantBuffer(h),
            Kind::Light => Release::Light(h),
            Kind::Font => Release::Font(h),
        }
    }
}

/// What every wrapper of a native resource can do: tell its kind and its
/// handle, and be disposed.
pub trait Tr {
    spec fn spec_kind(&self) -> Kind;

    spec fn spec_handle(&self) -> i32;

    /// Whether the wrapper owns its handle. A view does not.
    spec fn spec_owner(&self) -> bool;

    fn kind(&self) -> (k: Kind)
        ensures
            k == self.spec_kind(),
    ;

    fn handle(&self) -> (h: i32)
        ensures
            h == self.spec_handle(),
    ;

    /// Disposes the wrapper and returns the release that the backend is
    /// owed. An owner of a handle other than zero owes one release and is
    /// left with the handle zero; any other wrapper owes nothing and is left
    /// as it was. Either way the wrapper owes nothing afterwards.
    fn dispose(&mut self) -> (r: Option<Release>)
        ensures
            r == owed(old(self).spec_kind(), old(self).spec_owner(), old(self).spec_handle()),
            final(self).spec_kind() == old(self).spec_kind(),
            final(self).spec_owner() == old(self).spec_owner(),
            final(self).spec_handle() == (if r is Some {
                0
            } else {
                old(self).spec_handle()
            }),
            owed(final(self).spec_kind(), final(self).spec_owner(), final(self).spec_handle())
                is None,
    ;
}

/// A wrapper of any kind: what the registry keeps.
#[derive(Debug, PartialEq, Eq, Structural)]
pub enum Resource {
    Music(Music),
    Sound(Sound),
    Screen(Screen),
    Graph(Graph),
    VertexShader(VertexShader),
    PixelShader(PixelShader),
    GeometryShader(GeometryShader),
    ConstantBuffer(ConstantBuffer),
    Light(Light),
    Font(Font),
}

impl Tr for Resource {
    open spec fn spec_kind(&self) -> Kind {
        match *self {
            Resource::Music(_) => Kind::Music,
            Resource::Sound(_) => Kind::Sound,
            Resource::Screen(_) => Kind::Screen,
            Resource::Graph(_) => Kind::Graph,
            Resource::VertexShader(_) => Kind::VertexShader,
            Resource::PixelShader(_) => Kind::PixelShader,
            Resource::GeometryShader(_) => Kind::GeometryShader,
            Resource::ConstantBuffer(_) => Kind::ConstantBuffer,
            Resource::Light(_) => Kind::Light,
            Resource::Font(_) => Kind::Font,
        }
    }

    open spec fn spec_handle(&self) -> i32 {
        match *self {
            Resource::Music(w) => w.h,
            Resource::Sound(w) => w.h,
            Resource::Screen(w) => w.h,
            Resource::Graph(w) => w.h,
            Resource::VertexShader(w) => w.h,
            Resource::PixelShader(w) => w.h,
            Resource::GeometryShader(w) => w.h,
            Resource::ConstantBuffer(w) => w.h,
            Resource::Light(w) => w.h,
            Resource::Font(w) => w.h,
        }
    }

    open spec fn spec_owner(&self) -> bool {
        match *self {
            Resource::Music(w) => w.d,
            Resource::Sound(w) => w.d,
            Resource::Screen(w) => w.d,
            Resource::Graph(w) => w.d,
            Resource::VertexShader(w) => w.d,
            Resource::PixelShader(w) => w.d,
            Resource::GeometryShader(w) => w.d,
            Resource::ConstantBuffer(w) => w.d,
            Resource::Light(w) => w.d,
            Resource::Font(w) => w.d,
        }
    }

    fn kind(&self) -> (k: Kind) {
        match self {
            Resource::Music(_) => Kind::Music,
            Resource::Sound(_) => Kind::Sound,
            Resource::Screen(_) => Kind::Screen,
            Resource::Graph(_) => Kind::Graph,
            Resource::VertexShader(_) => Kind::VertexShader,
            Resource::PixelShader(_) => Kind::PixelShader,
            Resource::GeometryShader(_) => Kind::GeometryShader,
            Resource::ConstantBuffer(_) => Kind::ConstantBuffer,
            Resource::Light(_) => Kind::Light,
            Resource::Font(_) => Kind::Font,
        }
    }

    fn handle(&self) -> (h: i32) {
        match self {
            Resource::Music(w) => w.h,
            Resource::Sound(w) => w.h,
            Resource::Screen(w) => w.h,
            Resource::Graph(w) => w.h,
            Resource::VertexShader(w) => w.h,
            Resource::PixelShader(w) => w.h,
            Resource::GeometryShader(w) => w.h,
            Resource::ConstantBuffer(w) => w.h,
            Resource::Light(w) => w.h,
            Resource::Font(w) => w.h,
        }
    }

    fn dispose(&mut self) -> (r: Option<Release>) {
        match self {
            Resource::Music(w) => w.dispose(),
            Resource::Sound(w) => w.dispose(),
            Resource::Screen(w) => w.dispose(),
            Resource::Graph(w) => w.dispose(),
            Resource::VertexShader(w) => w.dispose(),
            Resource::PixelShader(w) => w.dispose(),
            Resource::GeometryShader(w) => w.dispose(),
            Resource::ConstantBuffer(w) => w.dispose(),
            Resource::Light(w) => w.dispose(),
            Resource::Font(w) => w.dispose(),
        }
    }
}

/// What narrowing the wrapper `r` to the kind `wanted` answers where `r` is
/// not of that kind.
pub open spec fn wrong_kind(r: Resource, wanted: Kind) -> KindError {
    KindError { wanted, found: r.spec_kind() }
}

/// The view of the wrapper `r`: of the same kind and handle, owning nothing.
pub open spec fn view_of(r: Resource) -> Resource {
    match r {
        Resource::Music(w) => Resource::Music(Music { d: false, h: w.h }),
        Resource::Sound(w) => Resource::Sound(Sound { d: false, h: w.h }),
        Resource::Screen(w) => Resource::Screen(Screen { d: false, h: w.h }),
        Resource::Graph(w) => Resource::Graph(Graph { d: false, h: w.h }),
        Resource::VertexShader(w) => Resource::VertexShader(VertexShader { d: false, h: w.h }),
        Resource::PixelShader(w) => Resource::PixelShader(PixelShader { d: false, h: w.h }),
        Resource::GeometryShader(w) => Resource::GeometryShader(
            GeometryShader { d: false, h: w.h },
        ),
        Resource::ConstantBuffer(w) => Resource::ConstantBuffer(
            ConstantBuffer { d: false, h: w.h, n: w.n, s: w.s },
        ),
        Resource::Light(w) => Resource::Light(Light { d: false, h: w.h }),
        Resource::Font(w) => Resource::Font(Font { d: false, h: w.h }),
    }
}

/// What narrowing the wrapper `r` to the kind `wanted` answers: a view of
/// `r` where it is of that kind, an error that names both kinds where it is
/// not.
pub open spec fn narrowed(r: Resource, wanted: Kind) -> Result<Resource, KindError> {
    if r.spec_kind() == wanted {
        Ok(view_of(r))
    } else {
        Err(wrong_kind(r, wanted))
    }
}

impl Resource {
    /// Narrows to music: a view of it where the wrapper is one, an error
    /// that names both kinds where it is not.
    pub fn as_music(&self) -> (r: Result<Music, KindError>)
        ensures
            r == (match *self {
                Resource::Music(w) => Ok(Music { d: false, h: w.h }),
                _ => Err(wrong_kind(*self, Kind::Music)),
            }),
            match r {
                Ok(v) => narrowed(*self, Kind::Music) == Ok::<Resource, KindError>(
                    Resource::Music(v),
                ),
                Err(e) => narrowed(*self, Kind::Music) == Err::<Resource, KindError>(e),
            },
    {
        match self {
            Resource::Music(w) => Ok(w.as_music()),
            _ => Err(KindError { wanted: Kind::Music, found: self.kind() }),
        }
    }

    /// Narrows to a sound: a view of it where the wrapper is one, an error
    /// that names both kinds where it is not.
    pub fn as_sound(&self) -> (r: Result<Sound, KindError>)
        ensures
            r == (match *self {
                Resource::Sound(w) => Ok(Sound { d: false, h: w.h }),
                _ => Err(wrong_kind(*self, Kind::Sound)),
            }),
            match r {
                Ok(v) => narrowed(*self, Kind::Sound) == Ok::<Resource, KindError>(
                    Resource::Sound(v),
                ),
                Err(e) => narrowed(*self, Kind::Sound) == Err::<Resource, KindError>(e),
            },
    {
        match self {
            Resource::Sound(w) => Ok(w.as_sound()),
            _ => Err(KindError { wanted: Kind::Sound, found: self.kind() }),
        }
    }

    /// Narrows to a screen: a view of it where the wrapper is one, an error
    /// that names both kinds where it is not.
    pub fn as_screen(&self) -> (r: Result<Screen, KindError>)
        ensures
            r == (match *self {
                Resource::Screen(w) => Ok(Screen { d: false, h: w.h }),
                _ => Err(wrong_kind(*self, Kind::Screen)),
            }),
            match r {
                Ok(v) => narrowed(*self, Kind::Screen) == Ok::<Resource, KindError>(
                    Resource::Screen(v),
                ),
                Err(e) => narrowed(*self, Kind::Screen) == Err::<Resource, KindError>(e),
            },
    {
        match self {
            Resource::Screen(w) => Ok(w.as_screen()),
            _ => Err(KindError { wanted: Kind::Screen, found: self.kind() }),
        }
    }

    /// Narrows to an image: a view of it where the wrapper is one, an error
    /// that names both kinds where it is not.
    pub fn as_graph(&self) -> (r: Result<Graph, KindError>)
        ensures
            r == (match *self {
                Resource::Graph(w) => Ok(Graph { d: false, h: w.h }),
                _ => Err(wrong_kind(*self, Kind::Graph)),
            }),
            match r {
                Ok(v) => narrowed(*self, Kind::Graph) == Ok::<Resource, KindError>(
                    Resource::Graph(v),
                ),
                Err(e) => narrowed(*self, Kind::Graph) == Err::<Resource, KindError>(e),
            },
    {
        match self {
            Resource::Graph(w) => Ok(w.as_graph()),
            _ => Err(KindError { wanted: Kind::Graph, found: self.kind() }),
        }
    }

    /// Narrows to a vertex shader: a view of it where the wrapper is one, an error
    /// that names both kinds where it is not.
    pub fn as_vertex_shader(&self) -> (r: Result<VertexShader, KindError>)
        ensures
            r == (match *self {
                Resource::VertexShader(w) => Ok(VertexShader { d: false, h: w.h }),
                _ => Err(wrong_kind(*self, Kind::VertexShader)),
            }),
            match r {
                Ok(v) => narrowed(*self, Kind::VertexShader) == Ok::<Resource, KindError>(
                    Resource::VertexShader(v),
                ),
                Err(e) => narrowed(*self, Kind::VertexShader) == Err::<Resource, KindError>(e),
            },
    {
        match self {
            Resource::VertexShader(w) => Ok(w.as_vertex_shader()),
            _ => Err(KindError { wanted: Kind::VertexShader, found: self.kind() }),
        }
    }

    /// Narrows to a pixel shader: a view of it where the wrapper is one, an error
    /// that names both kinds where it is not.
    pub fn as_pixel_shader(&self) -> (r: Result<PixelShader, KindError>)
        ensures
            r == (match *self {
                Resource::PixelShader(w) => Ok(PixelShader { d: false, h: w.h }),
                _ => Err(wrong_kind(*self, Kind::PixelShader)),
            }),
            match r {
                Ok(v) => narrowed(*self, Kind::PixelShader) == Ok::<Resource, KindError>(
                    Resource::PixelShader(v),
                ),
                Err(e) => narrowed(*self, Kind::PixelShader) == Err::<Resource, KindError>(e),
            },
    {
        match self {
            Resource::PixelShader(w) => Ok(w.as_pixel_shader()),
            _ => Err(KindError { wanted: Kind::PixelShader, found: self.kind() }),
        }
    }

    /// Narrows to a geometry shader: a view of it where the wrapper is one, an error
    /// that names both kinds where it is not.
    pub fn as_geometry_shader(&self) -> (r: Result<GeometryShader, KindError>)
        ensures
            r == (match *self {
                Resource::GeometryShader(w) => Ok(GeometryShader { d: false, h: w.h }),
                _ => Err(wrong_kind(*self, Kind::GeometryShader)),
            }),
            match r {
                Ok(v) => narrowed(*self, Kind::GeometryShader) == Ok::<Resource, KindError>(
                    Resource::GeometryShader(v),
                ),
                Err(e) => narrowed(*self, Kind::GeometryShader) == Err::<Resource, KindError>(e),
            },
    {
        match self {
            Resource::GeometryShader(w) => Ok(w.as_geometry_shader()),
            _ => Err(KindError { wanted: Kind::GeometryShader, found: self.kind() }),
        }
    }

    /// Narrows to a constant buffer: a view of it where the wrapper is one, an error
    /// that names both kinds where it is not.
    pub fn as_constant_buffer(&self) -> (r: Result<ConstantBuffer, KindError>)
        ensures
            r == (match *self {
                Resource::ConstantBuffer(w) => Ok(
                    ConstantBuffer { d: false, h: w.h, n: w.n, s: w.s },
                ),
                _ => Err(wrong_kind(*self, Kind::ConstantBuffer)),
            }),
            match r {
                Ok(v) => narrowed(*self, Kind::ConstantBuffer) == Ok::<Resource, KindError>(
                    Resource::ConstantBuffer(v),
                ),
                Err(e) => narrowed(*self, Kind::ConstantBuffer) == Err::<Resource, KindError>(e),
            },
    {
        match self {
            Resource::ConstantBuffer(w) => Ok(w.as_constant_buffer()),
            _ => Err(KindError { wanted: Kind::ConstantBuffer, found: self.kind() }),
        }
    }

    /// Narrows to a light: a view of it where the wrapper is one, an error
    /// that names both kinds where it is not.
    pub fn as_light(&self) -> (r: Result<Light, KindError>)
        ensures
            r == (match *self {
                Resource::Light(w) => Ok(Light { d: false, h: w.h }),
                _ => Err(wrong_kind(*self, Kind::Light)),
            }),
            match r {
                Ok(v) => narrowed(*self, Kind::Light) == Ok::<Resource, KindError>(
                    Resource::Light(v),
                ),
                Err(e) => narrowed(*self, Kind::Light) == Err::<Resource, KindError>(e),
            },
    {
        match self {
            Resource::Light(w) => Ok(w.as_light()),
            _ => Err(KindError { wanted: Kind::Light, found: self.kind() }),
        }
    }

    /// Narrows to a font: a view of it where the wrapper is one, an error
    /// that names both kinds where it is not.
    pub fn as_font(&self) -> (r: Result<Font, KindError>)
        ensures
            r == (match *self {
                Resource::Font(w) => Ok(Font { d: false, h: w.h }),
                _ => Err(wrong_kind(*self, Kind::Font)),
            }),
            match r {
                Ok(v) => narrowed(*self, Kind::Font) == Ok::<Resource, KindError>(
                    Resource::Font(v),
                ),
                Err(e) => narrowed(*self, Kind::Font) == Err::<Resource, KindError>(e),
            },
    {
        match self {
            Resource::Font(w) => Ok(w.as_font()),
            _ => Err(KindError { wanted: Kind::Font, found: self.kind() }),
        }
    }
}

/// The status with which the backend reports that it could not start.
pub const INIT_FAILED: i32 = -1;

/// Why there is no registry.
#[derive(Debug, Clone, Copy, PartialEq, Eq, Structural)]
pub enum TdxError {
    /// The backend could not start.
    Init,
}

/// What disposing the wrapper `r` owes the backend.
pub open spec fn release_of(r: Resource) -> Option<Release> {
    owed(r.spec_kind(), r.spec_owner(), r.spec_handle())
}

/// What the backend is owed when the entry of `h`, if there is one, leaves
/// the table `m`.
pub open spec fn displaced(m: Map<i32, Resource>, h: i32) -> Option<Release> {
    if m.contains_key(h) {
        release_of(m[h])
    } else {
        None
    }
}

/// Whether every entry of `m` stands under its own handle.
pub open spec fn keyed(m: Map<i32, Resource>) -> bool {
    forall|k: i32| m.contains_key(k) ==> (#[trigger] m[k]).spec_handle() == k
}

/// The registry: for each handle at most one wrapper, and every wrapper
/// under its own handle. Its view is the table from handles to wrappers;
/// every function of the registry says of the table it leaves that it is
/// `keyed`.
pub struct Tdx {
    tbl: HashMap<i32, Resource>,
}

impl View for Tdx {
    type V = Map<i32, Resource>;

    closed spec fn view(&self) -> Map<i32, Resource> {
        self.tbl@
    }
}

impl Tdx {
    /// Every registered wrapper stands under its own handle.
    #[verifier::type_invariant]
    spec fn inv(self) -> bool {
        keyed(self.tbl@)
    }

    /// The empty registry of a backend that has started. `status` is what
    /// the backend answered when it was started.
    pub fn new(status: i32) -> (r: Result<Tdx, TdxError>)
        ensures
            status == INIT_FAILED <==> r is Err,
            r matches Ok(dx) ==> dx@ == Map::<i32, Resource>::empty(),
    {
        if status == INIT_FAILED {
            return Err(TdxError::Init);
        }
        Ok(Tdx { tbl: HashMap::new() })
    }

    /// The number of registered wrappers.
    pub fn len(&self) -> (n: usize)
        ensures
            keyed(self@),
            n == self@.len(),
    {
        proof {
            use_type_invariant(self);
        }
        self.tbl.len()
    }

    /// The wrapper that is registered under `h`.
    pub fn get(&self, h: i32) -> (r: Option<&Resource>)
        ensures
            keyed(self@),
            self@.contains_key(h) <==> r is Some,
            r matches Some(o) ==> *o == self@[h] && o.spec_handle() == h,
    {
        proof {
            use_type_invariant(self);
        }
        self.tbl.get(&h)
    }

    /// Registers `o` under its handle and returns that handle. A wrapper
    /// that stood there before is disposed, and what that owes is returned
    /// with the handle.
    pub fn reg(&mut self, o: Resource) -> (r: (i32, Option<Release>))
        ensures
            keyed(final(self)@),
            final(self)@ == old(self)@.insert(o.spec_handle(), o),
            r.0 == o.spec_handle(),
            r.1 == displaced(old(self)@, o.spec_handle()),
    {
        proof {
            use_type_invariant(&*self);
        }
        let h = o.handle();
        // The table is taken out while it changes and put back changed, so
        // that the registry holds a valid table at every moment.
        let mut tbl: HashMap<i32, Resource> = HashMap::new();
        std::mem::swap(&mut self.tbl, &mut tbl);
        let prev = tbl.insert(h, o);
        std::mem::swap(&mut self.tbl, &mut tbl);
        match prev {
            Some(mut prev) => (h, prev.dispose()),
            None => (h, None),
        }
    }

    /// Removes the wrapper that is registered under `h` and disposes it.
    /// Returns what that owes the backend; where nothing is registered under
    /// `h`, nothing happens.
    pub fn unreg(&mut self, h: i32) -> (r: Option<Release>)
        ensures
            keyed(final(self)@),
            final(self)@ == old(self)@.remove(h),
            r == displaced(old(self)@, h),
    {
        proof {
            use_type_invariant(&*self);
        }
        let mut tbl: HashMap<i32, Resource> = HashMap::new();
        std::mem::swap(&mut self.tbl, &mut tbl);
        let prev = tbl.remove(&h);
        std::mem::swap(&mut self.tbl, &mut tbl);
        match prev {
            Some(mut prev) => prev.dispose(),
            None => None,
        }
    }

    /// The handles under which a wrapper is registered, each once, in no
    /// particular order.
    pub fn handles(&self) -> (hs: Vec<i32>)
        ensures
            hs@.no_duplicates(),
            hs@.to_set() == self@.dom(),
    {
        let mut hs: Vec<i32> = Vec::new();
        let ghost keys = spec_keys_iter(&self.tbl).remaining();
        for k in it: self.tbl.keys()
            invariant
                it.seq() == keys,
                hs@.len() == it.index(),
                forall|j: int| 0 <= j < hs@.len() ==> hs@[j] == *keys[j],
        {
            hs.push(*k);
        }
        assert(hs@ =~= keys.unref());
        hs
    }

    // Each of the functions below takes the handle that the backend answered
    // when it was asked for the resource, registers an owning wrapper of it,
    // and returns a view of the resource together with what a wrapper that
    // stood under that handle before owes the backend.

    /// Registers the music that the backend loaded into memory.
    pub fn load_music_mem(&mut self, h: i32) -> (r: (Music, Option<Release>))
        ensures
            keyed(final(self)@),
            final(self)@ == old(self)@.insert(h, Resource::Music(Music { d: true, h })),
            r.0 == (Music { d: false, h }),
            r.1 == displaced(old(self)@, h),
    {
        let o = Music { d: true, h };
        let v = o.as_music();
        let (_, rel) = self.reg(Resource::Music(o));
        (v, rel)
    }

    /// Registers the sound that the backend loaded into memory.
    pub fn load_sound_mem(&mut self, h: i32) -> (r: (Sound, Option<Release>))
        ensures
            keyed(final(self)@),
            final(self)@ == old(self)@.insert(h, Resource::Sound(Sound { d: true, h })),
            r.0 == (Sound { d: false, h }),
            r.1 == displaced(old(self)@, h),
    {
        let o = Sound { d: true, h };
        let v = o.as_sound();
        let (_, rel) = self.reg(Resource::Sound(o));
        (v, rel)
    }

    /// Registers the screen that the backend made.
    pub fn make_screen(&mut self, h: i32) -> (r: (Screen, Option<Release>))
        ensures
            keyed(final(self)@),
            final(self)@ == old(self)@.insert(h, Resource::Screen(Screen { d: true, h })),
            r.0 == (Screen { d: false, h }),
            r.1 == displaced(old(self)@, h),
    {
        let o = Screen { d: true, h };
        let v = o.as_screen();
        let (_, rel) = self.reg(Resource::Screen(o));
        (v, rel)
    }

    /// Registers the empty image that the backend made.
    pub fn make_graph(&mut self, h: i32) -> (r: (Graph, Option<Release>))
        ensures
            keyed(final(self)@),
            final(self)@ == old(self)@.insert(h, Resource::Graph(Graph { d: true, h })),
            r.0 == (Graph { d: false, h }),
            r.1 == displaced(old(self)@, h),
    {
        let o = Graph { d: true, h };
        let v = o.as_graph();
        let (_, rel) = self.reg(Resource::Graph(o));
        (v, rel)
    }

    /// Registers the image that the backend loaded from a file.
    pub fn load_graph(&mut self, h: i32) -> (r: (Graph, Option<Release>))
        ensures
            keyed(final(self)@),
            final(self)@ == old(self)@.insert(h, Resource::Graph(Graph { d: true, h })),
            r.0 == (Graph { d: false, h }),
            r.1 == displaced(old(self)@, h),
    {
        let o = Graph { d: true, h };
        let v = o.as_graph();
        let (_, rel) = self.reg(Resource::Graph(o));
        (v, rel)
    }

    /// Registers the image that the backend made to capture a part of the
    /// draw screen into.
    pub fn get_graph(&mut self, h: i32) -> (r: (Graph, Option<Release>))
        ensures
            keyed(final(self)@),
            final(self)@ == old(self)@.insert(h, Resource::Graph(Graph { d: true, h })),
            r.0 == (Graph { d: false, h }),
            r.1 == displaced(old(self)@, h),
    {
        let o = Graph { d: true, h };
        let v = o.as_graph();
        let (_, rel) = self.reg(Resource::Graph(o));
        (v, rel)
    }

    /// Registers the vertex shader that the backend loaded.
    pub fn load_vertex_shader(&mut self, h: i32) -> (r: (VertexShader, Option<Release>))
        ensures
            keyed(final(self)@),
            final(self)@ == old(self)@.insert(
                h,
                Resource::VertexShader(VertexShader { d: true, h }),
            ),
            r.0 == (VertexShader { d: false, h }),
            r.1 == displaced(old(self)@, h),
    {
        let o = VertexShader { d: true, h };
        let v = o.as_vertex_shader();
        let (_, rel) = self.reg(Resource::VertexShader(o));
        (v, rel)
    }

    /// Registers the pixel shader that the backend loaded.
    pub fn load_pixel_shader(&mut self, h: i32) -> (r: (PixelShader, Option<Release>))
        ensures
            keyed(final(self)@),
            final(self)@ == old(self)@.insert(h, Resource::PixelShader(PixelShader { d: true, h })),
            r.0 == (PixelShader { d: false, h }),
            r.1 == displaced(old(self)@, h),
    {
        let o = PixelShader { d: true, h };
        let v = o.as_pixel_shader();
        let (_, rel) = self.reg(Resource::PixelShader(o));
        (v, rel)
    }

    /// Registers the geometry shader that the backend loaded.
    pub fn load_geometry_shader(&mut self, h: i32) -> (r: (GeometryShader, Option<Release>))
        ensures
            keyed(final(self)@),
            final(self)@ == old(self)@.insert(
                h,
                Resource::GeometryShader(GeometryShader { d: true, h }),
            ),
            r.0 == (GeometryShader { d: false, h }),
            r.1 == displaced(old(self)@, h),
    {
        let o = GeometryShader { d: true, h };
        let v = o.as_geometry_shader();
        let (_, rel) = self.reg(Resource::GeometryShader(o));
        (v, rel)
    }

    /// Registers the constant buffer of `n` entries that the backend made for
    /// the slot `s`.
    pub fn create_constant_buffer(&mut self, n: i32, s: i32, h: i32) -> (r: (
        ConstantBuffer,
        Option<Release>,
    ))
        ensures
            keyed(final(self)@),
            final(self)@ == old(self)@.insert(
                h,
                Resource::ConstantBuffer(ConstantBuffer { d: true, h, n, s }),
            ),
            r.0 == (ConstantBuffer { d: false, h, n, s }),
            r.1 == displaced(old(self)@, h),
    {
        let o = ConstantBuffer { d: true, h, n, s };
        let v = o.as_constant_buffer();
        let (_, rel) = self.reg(Resource::ConstantBuffer(o));
        (v, rel)
    }

    /// Registers the directional light that the backend made.
    pub fn create_dir_light(&mut self, h: i32) -> (r: (Light, Option<Release>))
        ensures
            keyed(final(self)@),
            final(self)@ == old(self)@.insert(h, Resource::Light(Light { d: true, h })),
            r.0 == (Light { d: false, h }),
            r.1 == displaced(old(self)@, h),
    {
        let o = Light { d: true, h };
        let v = o.as_light();
        let (_, rel) = self.reg(Resource::Light(o));
        (v, rel)
    }

    /// Registers the spot light that the backend made.
    pub fn create_spot_light(&mut self, h: i32) -> (r: (Light, Option<Release>))
        ensures
            keyed(final(self)@),
            final(self)@ == old(self)@.insert(h, Resource::Light(Light { d: true, h })),
            r.0 == (Light { d: false, h }),
            r.1 == displaced(old(self)@, h),
    {
        let o = Light { d: true, h };
        let v = o.as_light();
        let (_, rel) = self.reg(Resource::Light(o));
        (v, rel)
    }

    /// Registers the point light that the backend made.
    pub fn create_point_light(&mut self, h: i32) -> (r: (Light, Option<Release>))
        ensures
            keyed(final(self)@),
            final(self)@ == old(self)@.insert(h, Resource::Light(Light { d: true, h })),
            r.0 == (Light { d: false, h }),
            r.1 == displaced(old(self)@, h),
    {
        let o = Light { d: true, h };
        let v = o.as_light();
        let (_, rel) = self.reg(Resource::Light(o));
        (v, rel)
    }

    /// Registers the font that the backend made of a system font.
    pub fn create_font(&mut self, h: i32) -> (r: (Font, Option<Release>))
        ensures
            keyed(final(self)@),
            final(self)@ == old(self)@.insert(h, Resource::Font(Font { d: true, h })),
            r.0 == (Font { d: false, h }),
            r.1 == displaced(old(self)@, h),
    {
        let o = Font { d: true, h };
        let v = o.as_font();
        let (_, rel) = self.reg(Resource::Font(o));
        (v, rel)
    }

    /// Registers the font that the backend loaded from font data.
    pub fn load_font(&mut self, h: i32) -> (r: (Font, Option<Release>))
        ensures
            keyed(final(self)@),
            final(self)@ == old(self)@.insert(h, Resource::Font(Font { d: true, h })),
            r.0 == (Font { d: false, h }),
            r.1 == displaced(old(self)@, h),
    {
        let o = Font { d: true, h };
        let v = o.as_font();
        let (_, rel) = self.reg(Resource::Font(o));
        (v, rel)
    }
}

/// The release in `o`, if there is one, as a list.
pub open spec fn some_seq(o: Option<Release>) -> Seq<Release> {
    match o {
        Some(r) => seq![r],
        None => Seq::empty(),
    }
}

/// The owning wrapper of the screen `h`.
pub open spec fn owned_screen(h: i32) -> Resource {
    Resource::Screen(Screen { d: true, h })
}

/// The owning wrapper of the image `h`.
pub open spec fn owned_graph(h: i32) -> Resource {
    Resource::Graph(Graph { d: true, h })
}

/// The table `m` after the images `hs` were registered, first to last.
pub open spec fn with_graphs(m: Map<i32, Resource>, hs: Seq<i32>) -> Map<i32, Resource>
    decreases hs.len(),
{
    if hs.len() == 0 {
        m
    } else {
        with_graphs(m, hs.drop_last()).insert(hs.last(), owned_graph(hs.last()))
    }
}

/// What the backend is owed, in order, when the images `hs` are registered
/// in the table `m`, first to last.
pub open spec fn graphs_displaced(m: Map<i32, Resource>, hs: Seq<i32>) -> Seq<Release>
    decreases hs.len(),
{
    if hs.len() == 0 {
        Seq::empty()
    } else {
        graphs_displaced(m, hs.drop_last()) + some_seq(
            displaced(with_graphs(m, hs.drop_last()), hs.last()),
        )
    }
}

/// The views of the images `hs`.
pub open spec fn graph_views(hs: Seq<i32>) -> Seq<Graph> {
    Seq::new(hs.len(), |i: int| Graph { d: false, h: hs[i] })
}

fn push_some(rels: &mut Vec<Release>, o: Option<Release>)
    ensures
        final(rels)@ == old(rels)@ + some_seq(o),
{
    match o {
        Some(r) => {
            rels.push(r);
            assert(rels@ =~= old(rels)@ + some_seq(o));
        },
        None => {
            assert(rels@ =~= old(rels)@ + some_seq(o));
        },
    }
}

impl Tdx {
    /// Books an image of one colour that was painted on a scratch screen and
    /// captured from it. `screen_h` is the scratch screen and `graph_h` the
    /// image, as the backend answered them: both are registered, and the
    /// screen is unregistered again. Returns a view of the image, and what
    /// the backend is owed, in order: for a wrapper that stood under the
    /// screen's handle, for one that stood under the image's, and for the
    /// screen.
    pub fn make_graph_color(&mut self, screen_h: i32, graph_h: i32) -> (r: (Graph, Vec<Release>))
        ensures
            keyed(final(self)@),
            ({
                let m1 = old(self)@.insert(screen_h, owned_screen(screen_h));
                let m2 = m1.insert(graph_h, owned_graph(graph_h));
                &&& final(self)@ == m2.remove(screen_h)
                &&& r.1@ == some_seq(displaced(old(self)@, screen_h)) + some_seq(
                    displaced(m1, graph_h),
                ) + some_seq(displaced(m2, screen_h))
            }),
            r.0 == (Graph { d: false, h: graph_h }),
    {
        let mut rels: Vec<Release> = Vec::new();
        let (screen, r1) = self.make_screen(screen_h);
        push_some(&mut rels, r1);
        let (g, r2) = self.get_graph(graph_h);
        push_some(&mut rels, r2);
        let r3 = self.unreg(screen.handle());
        push_some(&mut rels, r3);
        (g, rels)
    }

    /// Registers the images into which the backend divided one file, first
    /// to last. Returns their views in the same order, and what the backend
    /// is owed for the wrappers that stood under their handles before.
    pub fn load_div_graph(&mut self, handles: &Vec<i32>) -> (r: (Vec<Graph>, Vec<Release>))
        ensures
            keyed(final(self)@),
            final(self)@ == with_graphs(old(self)@, handles@),
            r.0@ == graph_views(handles@),
            r.1@ == graphs_displaced(old(self)@, handles@),
    {
        proof {
            use_type_invariant(&*self);
        }
        let ghost m0 = self@;
        let mut views: Vec<Graph> = Vec::new();
        let mut rels: Vec<Release> = Vec::new();
        let mut i: usize = 0;
        while i < handles.len()
            invariant
                i <= handles.len(),
                keyed(self@),
                self@ == with_graphs(m0, handles@.take(i as int)),
                views@ == graph_views(handles@.take(i as int)),
                rels@ == graphs_displaced(m0, handles@.take(i as int)),
            decreases handles.len() - i,
        {
            let (g, rel) = self.load_graph(handles[i]);
            views.push(g);
            push_some(&mut rels, rel);
            proof {
                let next = handles@.take(i + 1);
                assert(next.drop_last() =~= handles@.take(i as int));
                assert(next.last() == handles@[i as int]);
                assert(views@ =~= graph_views(next));
            }
            i += 1;
        }
        assert(handles@.take(i as int) =~= handles@);
        (views, rels)
    }

    /// Books the images that were drawn, one after the other, on a scratch
    /// screen and captured from it. `screen_h` is the scratch screen and
    /// `graph_hs` the captured images, as the backend answered them. With no
    /// image nothing happens. Otherwise the screen and then the images are
    /// registered, and the screen is unregistered again. Returns the views of
    /// the images, and what the backend is owed, in order.
    pub fn make_graphs_from_div_graph(&mut self, screen_h: i32, graph_hs: &Vec<i32>) -> (r: (
        Vec<Graph>,
        Vec<Release>,
    ))
        ensures
            keyed(final(self)@),
            r.0@ == graph_views(graph_hs@),
            graph_hs@.len() == 0 ==> final(self)@ == old(self)@ && r.1@ == Seq::<Release>::empty(),
            graph_hs@.len() > 0 ==> ({
                let m1 = old(self)@.insert(screen_h, owned_screen(screen_h));
                let m2 = with_graphs(m1, graph_hs@);
                &&& final(self)@ == m2.remove(screen_h)
                &&& r.1@ == some_seq(displaced(old(self)@, screen_h)) + graphs_displaced(
                    m1,
                    graph_hs@,
                ) + some_seq(displaced(m2, screen_h))
            }),
    {
        proof {
            use_type_invariant(&*self);
        }
        if graph_hs.len() == 0 {
            let views: Vec<Graph> = Vec::new();
            assert(views@ =~= graph_views(graph_hs@));
            return (views, Vec::new());
        }
        let mut rels: Vec<Release> = Vec::new();
        let (screen, r1) = self.make_screen(screen_h);
        push_some(&mut rels, r1);
        let (views, mut r2) = self.load_div_graph(graph_hs);
        rels.append(&mut r2);
        let r3 = self.unreg(screen.handle());
        push_some(&mut rels, r3);
        (views, rels)
    }

    /// Unregisters and disposes every wrapper. Returns what the backend is
    /// owed: one release for each registered owner of a handle other than
    /// zero, in no particular order.
    pub fn dispose_all(&mut self) -> (rels: Vec<Release>)
        ensures
            keyed(final(self)@),
            final(self)@ == Map::<i32, Resource>::empty(),
            rels@.no_duplicates(),
            forall|r: Release|
                #[trigger] rels@.contains(r) <==> displaced(old(self)@, r.spec_handle()) == Some(r),
    {
        proof {
            use_type_invariant(&*self);
        }
        let ghost m0 = self@;
        let hs = self.handles();
        let mut rels: Vec<Release> = Vec::new();
        let mut i: usize = 0;
        while i < hs.len()
            invariant
                i <= hs.len(),
                keyed(m0),
                keyed(self@),
                hs@.no_duplicates(),
                hs@.to_set() == m0.dom(),
                forall|k: i32| #[trigger]
                    self@.contains_key(k) ==> m0.contains_key(k) && self@[k] == m0[k],
                forall|j: int| i <= j < hs@.len() ==> self@.contains_key(#[trigger] hs@[j]),
                forall|j: int| 0 <= j < i ==> !self@.contains_key(#[trigger] hs@[j]),
                rels@.no_duplicates(),
                forall|r: Release|
                    #[trigger] rels@.contains(r) <==> displaced(m0, r.spec_handle()) == Some(r)
                        && hs@.take(i as int).contains(r.spec_handle()),
            decreases hs.len() - i,
        {
            let ghost before = rels@;
            let h = hs[i];
            assert(self@.contains_key(hs@[i as int]));
            let rel = self.unreg(h);
            push_some(&mut rels, rel);
            proof {
                let done = hs@.take(i as int);
                let next = hs@.take(i + 1);
                assert(next =~= done.push(h));
                assert(!done.contains(h)) by {
                    if done.contains(h) {
                        let j = choose|j: int| 0 <= j < done.len() && done[j] == h;
                        assert(hs@[j] == hs@[i as int]);
                    }
                }
                assert forall|r: Release| #[trigger]
                    rels@.contains(r) <==> displaced(m0, r.spec_handle()) == Some(r)
                        && next.contains(r.spec_handle()) by {
                    if rels@.contains(r) {
                        let j = choose|j: int| 0 <= j < rels@.len() && rels@[j] == r;
                        if j < before.len() {
                            assert(before[j] == r);
                            assert(before.contains(r));
                            let d = choose|d: int|
                                0 <= d < done.len() && done[d] == r.spec_handle();
                            assert(next[d] == r.spec_handle());
                        } else {
                            assert(rel == Some(r));
                            assert(next[i as int] == h);
                        }
                    }
                    if displaced(m0, r.spec_handle()) == Some(r) && next.contains(
                        r.spec_handle(),
                    ) {
                        let d = choose|d: int| 0 <= d < next.len() && next[d] == r.spec_handle();
                        if d < i {
                            assert(done[d] == r.spec_handle());
                            assert(before.contains(r));
                            let j = choose|j: int| 0 <= j < before.len() && before[j] == r;
                            assert(rels@[j] == r);
                        } else {
                            assert(rel == Some(r));
                            assert(rels@[before.len() as int] == r);
                        }
                    }
                }
                assert(rels@.no_duplicates()) by {
                    if rel is Some {
                        assert(!before.contains(rel->0));
                        assert(rels@ =~= before.push(rel->0));
                    } else {
                        assert(rels@ =~= before);
                    }
                }
            }
            i += 1;
        }
        proof {
            assert(hs@.take(i as int) =~= hs@);
            assert forall|k: i32| !self@.contains_key(k) by {
                if self@.contains_key(k) {
                    assert(m0.dom().contains(k));
                    assert(hs@.to_set().contains(k));
                    let j = choose|j: int| 0 <= j < hs@.len() && hs@[j] == k;
                    assert(!self@.contains_key(hs@[j]));
                }
            }
            assert(self@ =~= Map::<i32, Resource>::empty());
            assert forall|r: Release| #[trigger]
                rels@.contains(r) <==> displaced(m0, r.spec_handle()) == Some(r) by {
                if displaced(m0, r.spec_handle()) == Some(r) {
                    assert(hs@.to_set().contains(r.spec_handle()));
                }
            }
        }
        rels
    }
}

/// A wrapper that was registered and unregistered is gone: the first
/// unregistering disposes the very wrapper that was registered, a second one
/// finds nothing under its handle, owes the backend nothing and leaves the
/// table as it is.
pub proof fn lemma_unreg_twice(m: Map<i32, Resource>, o: Resource)
    ensures
        ({
            let h = o.spec_handle();
            let m1 = m.insert(h, o);
            let m2 = m1.remove(h);
            &&& displaced(m1, h) == release_of(o)
            &&& !m2.contains_key(h)
            &&& displaced(m2, h) is None
            &&& m2.remove(h) == m2
        }),
{
    let h = o.spec_handle();
    let m2 = m.insert(h, o).remove(h);
    assert(m2.remove(h) =~= m2);
}

/// A registered wrapper narrows to its own kind and to no other: to its own
/// kind it gives a view with the handle that it was registered under, to
/// any other kind an error that names both kinds.
pub proof fn lemma_narrow_registered(m: Map<i32, Resource>, o: Resource, wanted: Kind)
    ensures
        ({
            let h = o.spec_handle();
            let e = m.insert(h, o)[h];
            &&& e == o
            &&& wanted == o.spec_kind() ==> {
                &&& narrowed(e, wanted) matches Ok(v)
                &&& v.spec_kind() == wanted
                &&& v.spec_handle() == h
                &&& !v.spec_owner()
            }
            &&& wanted != o.spec_kind() ==> narrowed(e, wanted) == Err::<Resource, KindError>(
                KindError { wanted, found: o.spec_kind() },
            )
        }),
{
}

/// What was released when a wrapper was unregistered is not released again
/// when everything is disposed: the table that is left owes that release no
/// more.
pub proof fn lemma_unreg_then_dispose_all(m: Map<i32, Resource>, h: i32, r: Release)
    requires
        keyed(m),
        displaced(m, h) == Some(r),
    ensures
        r.spec_handle() == h,
        keyed(m.remove(h)),
        displaced(m.remove(h), r.spec_handle()) is None,
{
}

/// A view owes the backend nothing, so that disposing views, however many,
/// releases no handle.
pub proof fn lemma_view_owes_nothing(r: Resource)
    ensures
        release_of(view_of(r)) is None,
        view_of(r).spec_handle() == r.spec_handle(),
        view_of(r).spec_kind() == r.spec_kind(),
{
}

/// A release names the handle of the wrapper that owes it, so that in a
/// table that keeps every wrapper under its own handle, two entries never
/// owe the same release.
pub proof fn lemma_release_names_handle(m: Map<i32, Resource>, h: i32, k: i32)
    requires
        keyed(m),
        displaced(m, h) is Some,
        displaced(m, h) == displaced(m, k),
    ensures
        h == k,
        displaced(m, h)->0.spec_handle() == h,
{
}

} // verus!
