//! Shaders and their constant buffers.

use vstd::prelude::*;
use crate::dx::{DX_SHADERTYPE_GEOMETRY, DX_SHADERTYPE_PIXEL, DX_SHADERTYPE_VERTEX};
use crate::ext::tdx::{Kind, Release, Tr};

verus! {

/// The bytes of one entry of a constant buffer: four components of four
/// bytes each.
pub const ENTRY_BYTES: i32 = 16;

/// What the backend is asked when a constant buffer is bound: the buffer's
/// handle, the stage of the pipeline, and the slot of that stage.
#[derive(Debug, Clone, Copy, PartialEq, Eq, Structural)]
pub struct SlotBinding {
    pub cb: i32,
    pub shader_type: i32,
    pub slot: i32,
}

/// A constant buffer of a shader.
#[derive(Debug, PartialEq, Eq, Structural)]
pub struct ConstantBuffer {
    /// Whether this wrapper owns the handle and is the one to dispose it.
    pub d: bool,
    /// The handle.
    pub h: i32,
    /// The number of four-component entries that the buffer holds.
    pub n: i32,
    /// The slot of the shader that the buffer is made for.
    pub s: i32,
}

impl ConstantBuffer {
    /// A view of the same resource that does not own it.
    pub fn as_constant_buffer(&self) -> (v: ConstantBuffer)
        ensures
            v == (ConstantBuffer { d: false, h: self.h, n: self.n, s: self.s }),
    {
        ConstantBuffer { d: false, h: self.h, n: self.n, s: self.s }
    }
}

impl Tr for ConstantBuffer {
    open spec fn spec_kind(&self) -> Kind {
        Kind::ConstantBuffer
    }

    open spec fn spec_handle(&self) -> i32 {
        self.h
    }

    open spec fn spec_owner(&self) -> bool {
        self.d
    }

    fn kind(&self) -> (k: Kind) {
        Kind::ConstantBuffer
    }

    fn handle(&self) -> (h: i32) {
        self.h
    }

    fn dispose(&mut self) -> (r: Option<Release>)
        ensures
            final(self).n == old(self).n,
            final(self).s == old(self).s,
    {
        if self.d && self.h != 0 {
            let r = Release::ConstantBuffer(self.h);
            self.h = 0;
            Some(r)
        } else {
            None
        }
    }
}

impl ConstantBuffer {
    /// The bytes to ask of the backend for a buffer of `n` entries, where
    /// the number can be represented.
    pub fn byte_size(n: i32) -> (sz: Option<i32>)
        ensures
            sz is Some <==> i32::MIN <= n * ENTRY_BYTES <= i32::MAX,
            sz matches Some(b) ==> b == n * ENTRY_BYTES,
    {
        n.checked_mul(ENTRY_BYTES)
    }

    /// The binding of this buffer to a slot of a stage.
    pub fn set_to_slot(&self, ts: i32, slot: i32) -> (b: SlotBinding)
        ensures
            b == (SlotBinding { cb: self.h, shader_type: ts, slot }),
    {
        SlotBinding { cb: self.h, shader_type: ts, slot }
    }
}

/// What every shader can do besides: tell its stage of the pipeline, and
/// bind a constant buffer to the slot that the buffer was made for.
pub trait Ts: Tr {
    spec fn spec_shader_type(&self) -> i32;

    fn shader_type(&self) -> (t: i32)
        ensures
            t == self.spec_shader_type(),
    ;

    /// The binding of `cb` to its own slot of this shader's stage.
    fn set_const(&self, cb: &ConstantBuffer) -> (b: SlotBinding)
        ensures
            b == (SlotBinding { cb: cb.h, shader_type: self.spec_shader_type(), slot: cb.s }),
    {
        cb.set_to_slot(self.shader_type(), cb.s)
    }
}

/// A vertex shader.
#[derive(Debug, PartialEq, Eq, Structural)]
pub struct VertexShader {
    /// Whether this wrapper owns the handle and is the one to dispose it.
    pub d: bool,
    /// The handle.
    pub h: i32,
}

impl VertexShader {
    /// A view of the same resource that does not own it.
    pub fn as_vertex_shader(&self) -> (v: VertexShader)
        ensures
            v == (VertexShader { d: false, h: self.h }),
    {
        VertexShader { d: false, h: self.h }
    }
}

impl Tr for VertexShader {
    open spec fn spec_kind(&self) -> Kind {
        Kind::VertexShader
    }

    open spec fn spec_handle(&self) -> i32 {
        self.h
    }

    open spec fn spec_owner(&self) -> bool {
        self.d
    }

    fn kind(&self) -> (k: Kind) {
        Kind::VertexShader
    }

    fn handle(&self) -> (h: i32) {
        self.h
    }

    fn dispose(&mut self) -> (r: Option<Release>)
    {
        if self.d && self.h != 0 {
            let r = Release::Shader(self.h);
            self.h = 0;
            Some(r)
        } else {
            None
        }
    }
}

impl Ts for VertexShader {
    open spec fn spec_shader_type(&self) -> i32 {
        DX_SHADERTYPE_VERTEX
    }

    fn shader_type(&self) -> (t: i32) {
        DX_SHADERTYPE_VERTEX
    }
}

/// A pixel shader.
#[derive(Debug, PartialEq, Eq, Structural)]
pub struct PixelShader {
    /// Whether this wrapper owns the handle and is the one to dispose it.
    pub d: bool,
    /// The handle.
    pub h: i32,
}

impl PixelShader {
    /// A view of the same resource that does not own it.
    pub fn as_pixel_shader(&self) -> (v: PixelShader)
        ensures
            v == (PixelShader { d: false, h: self.h }),
    {
        PixelShader { d: false, h: self.h }
    }
}

impl Tr for PixelShader {
    open spec fn spec_kind(&self) -> Kind {
        Kind::PixelShader
    }

    open spec fn spec_handle(&self) -> i32 {
        self.h
    }

    open spec fn spec_owner(&self) -> bool {
        self.d
    }

    fn kind(&self) -> (k: Kind) {
        Kind::PixelShader
    }

    fn handle(&self) -> (h: i32) {
        self.h
    }

    fn dispose(&mut self) -> (r: Option<Release>)
    {
        if self.d && self.h != 0 {
            let r = Release::Shader(self.h);
            self.h = 0;
            Some(r)
        } else {
            None
        }
    }
}

impl Ts for PixelShader {
    open spec fn spec_shader_type(&self) -> i32 {
        DX_SHADERTYPE_PIXEL
    }

    fn shader_type(&self) -> (t: i32) {
        DX_SHADERTYPE_PIXEL
    }
}

/// A geometry shader.
#[derive(Debug, PartialEq, Eq, Structural)]
pub struct GeometryShader {
    /// Whether this wrapper owns the handle and is the one to dispose it.
    pub d: bool,
    /// The handle.
    pub h: i32,
}

impl GeometryShader {
    /// A view of the same resource that does not own it.
    pub fn as_geometry_shader(&self) -> (v: GeometryShader)
        ensures
            v == (GeometryShader { d: false, h: self.h }),
    {
        GeometryShader { d: false, h: self.h }
    }
}

impl Tr for GeometryShader {
    open spec fn spec_kind(&self) -> Kind {
        Kind::GeometryShader
    }

    open spec fn spec_handle(&self) -> i32 {
        self.h
    }

    open spec fn spec_owner(&self) -> bool {
        self.d
    }

    fn kind(&self) -> (k: Kind) {
        Kind::GeometryShader
    }

    fn handle(&self) -> (h: i32) {
        self.h
    }

    fn dispose(&mut self) -> (r: Option<Release>)
    {
        if self.d && self.h != 0 {
            let r = Release::Shader(self.h);
            self.h = 0;
            Some(r)
        } else {
            None
        }
    }
}

impl Ts for GeometryShader {
    open spec fn spec_shader_type(&self) -> i32 {
        DX_SHADERTYPE_GEOMETRY
    }

    fn shader_type(&self) -> (t: i32) {
        DX_SHADERTYPE_GEOMETRY
    }
}

} // verus!
