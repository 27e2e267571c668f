//! Rewinding of faces: from counter-clockwise vertex lists to the
//! clockwise triangle lists that the native library draws.
//!
//! The functions here arrange vertices and choose fixed colours. They are
//! generic in the vertex, so that placing a vertex in space, which is
//! arithmetic on coordinates, stays with the caller.

use vstd::prelude::*;
use crate::dx::COLOR_U8;

pub mod font;
pub mod graph;
pub mod light;
pub mod music;
pub mod shader;
pub mod sound;
pub mod tdx;

verus! {

/// Why a vertex list was not rewound.
#[derive(Debug, Clone, Copy, PartialEq, Eq, Structural)]
pub enum WindingError {
    /// A face has fewer than three vertices.
    TooFewVertices,
    /// The fixed remap was given a list that is not of four vertices.
    NotAQuad,
    /// A flat table does not hold faces times vertices-per-face entries.
    SizeMismatch,
}

/// The three source indices of triangle `i` of a fan over `vpf` vertices:
/// the anchor, then the other vertices walked backward.
pub open spec fn fan_triangle(vpf: int, i: int) -> (int, int, int) {
    (0, vpf - 1 - i, vpf - 2 - i)
}

/// The source index of the emitted vertex `k` of a fan over `vpf` vertices.
pub open spec fn fan_index(vpf: int, k: int) -> int {
    let t = fan_triangle(vpf, k / 3);
    if k % 3 == 0 {
        t.0
    } else if k % 3 == 1 {
        t.1
    } else {
        t.2
    }
}

/// Whether `t` is the fan table of a face of `vpf` vertices.
pub open spec fn is_fan_table(t: Seq<usize>, vpf: int) -> bool {
    &&& t.len() == 3 * (vpf - 2)
    &&& forall|i: int|
        0 <= i < vpf - 2 ==> (t[3 * i] as int, t[3 * i + 1] as int, t[3 * i + 2] as int)
            == #[trigger] fan_triangle(vpf, i)
}

/// The face `vts` as a clockwise triangle list.
pub open spec fn rewound<T>(vts: Seq<T>) -> Seq<T> {
    Seq::new((3 * (vts.len() - 2)) as nat, |k: int| vts[fan_index(vts.len() as int, k)])
}

/// Every index of a fan points into the face.
pub proof fn lemma_fan_index_in_face(vpf: int, k: int)
    requires
        3 <= vpf,
        0 <= k < 3 * (vpf - 2),
    ensures
        0 <= fan_index(vpf, k) < vpf,
{
}

/// A fan table holds, entry by entry, the source indices of the emitted
/// vertices, and each of them points into the face.
pub proof fn lemma_fan_table_entries(t: Seq<usize>, vpf: int)
    requires
        is_fan_table(t, vpf),
    ensures
        forall|k: int| 0 <= k < t.len() ==> #[trigger] t[k] == fan_index(vpf, k) && t[k] < vpf,
{
    assert forall|k: int| 0 <= k < t.len() implies #[trigger] t[k] == fan_index(vpf, k) && t[k]
        < vpf by {
        let i = k / 3;
        assert(0 <= i < vpf - 2);
        assert(fan_triangle(vpf, i) == (t[3 * i] as int, t[3 * i + 1] as int, t[3 * i + 2] as int));
        assert(k == 3 * i || k == 3 * i + 1 || k == 3 * i + 2);
    }
}

/// Triangle `i` of a rewound face is the anchor vertex followed by the
/// vertices `n - 1 - i` and `n - 2 - i` of the source, `n` being its length.
pub proof fn lemma_rewound_triangle<T>(vts: Seq<T>, i: int)
    requires
        0 <= i < vts.len() - 2,
    ensures
        rewound(vts).len() == 3 * (vts.len() - 2),
        rewound(vts)[3 * i] == vts[0],
        rewound(vts)[3 * i + 1] == vts[vts.len() - 1 - i],
        rewound(vts)[3 * i + 2] == vts[vts.len() - 2 - i],
{
}

/// The index table of the fan reduction of a convex face of `vpf` vertices:
/// `vpf - 2` triangles, each the anchor vertex 0 and two neighbours, walked
/// backward.
pub fn fan_table(vpf: usize) -> (r: Result<Vec<usize>, WindingError>)
    ensures
        vpf < 3 <==> r is Err,
        r matches Err(e) ==> e == WindingError::TooFewVertices,
        r matches Ok(t) ==> is_fan_table(t@, vpf as int),
{
    if vpf < 3 {
        return Err(WindingError::TooFewVertices);
    }
    let npolys: usize = vpf - 2;
    let mut tbl: Vec<usize> = Vec::new();
    let mut i: usize = 0;
    while i < npolys
        invariant
            3 <= vpf,
            npolys == vpf - 2,
            i <= npolys,
            tbl@.len() == 3 * i,
            forall|j: int|
                0 <= j < i ==> (tbl@[3 * j] as int, tbl@[3 * j + 1] as int, tbl@[3 * j + 2] as int)
                    == #[trigger] fan_triangle(vpf as int, j),
        decreases npolys - i,
    {
        tbl.push(0);
        tbl.push(vpf - 1 - i);
        tbl.push(vpf - 2 - i);
        i += 1;
    }
    Ok(tbl)
}

/// Gathers, by the fan table `tbl` of `vpf` vertices, the vertices of the
/// face of `vts` that starts at `base`.
fn gather<T: Copy>(vts: &Vec<T>, base: usize, vpf: usize, tbl: &Vec<usize>) -> (vs: Vec<T>)
    requires
        3 <= vpf,
        base + vpf <= vts.len(),
        is_fan_table(tbl@, vpf as int),
    ensures
        vs@ == rewound(vts@.subrange(base as int, base + vpf)),
{
    let ghost face = vts@.subrange(base as int, base + vpf);
    proof {
        lemma_fan_table_entries(tbl@, vpf as int);
    }
    let mut vs: Vec<T> = Vec::new();
    let mut k: usize = 0;
    while k < tbl.len()
        invariant
            k <= tbl.len(),
            base + vpf <= vts.len(),
            tbl@.len() == 3 * (vpf - 2),
            forall|j: int|
                0 <= j < tbl@.len() ==> #[trigger] tbl@[j] == fan_index(vpf as int, j) && tbl@[j]
                    < vpf,
            face == vts@.subrange(base as int, base + vpf),
            vs@.len() == k,
            forall|j: int| 0 <= j < k ==> vs@[j] == face[fan_index(vpf as int, j)],
        decreases tbl.len() - k,
    {
        vs.push(vts[base + tbl[k]]);
        k += 1;
    }
    assert(vs@ =~= rewound(face));
    vs
}

/// Rewinds one counter-clockwise face into a clockwise triangle list by fan
/// reduction. A face of fewer than three vertices is refused.
pub fn from_vts_gl<T: Copy>(vts: &Vec<T>) -> (r: Result<Vec<T>, WindingError>)
    ensures
        vts.len() < 3 <==> r is Err,
        r matches Err(e) ==> e == WindingError::TooFewVertices,
        r matches Ok(vs) ==> vs@ == rewound(vts@),
{
    let vpf: usize = vts.len();
    match fan_table(vpf) {
        Ok(tbl) => {
            assert(vts@.subrange(0, vpf as int) =~= vts@);
            Ok(gather(vts, 0, vpf, &tbl))
        },
        Err(e) => Err(e),
    }
}

/// Whether every face of `faces` has at least three vertices.
pub open spec fn all_faces<T>(faces: Seq<Vec<T>>) -> bool {
    forall|f: int| 0 <= f < faces.len() ==> (#[trigger] faces[f])@.len() >= 3
}

/// Whether `out` holds, face by face, the faces of `faces` rewound.
pub open spec fn faces_rewound<T>(faces: Seq<Vec<T>>, out: Seq<Vec<T>>) -> bool {
    &&& out.len() == faces.len()
    &&& forall|f: int| 0 <= f < faces.len() ==> (#[trigger] out[f])@ == rewound(faces[f]@)
}

/// Rewinds each face of a list on its own. One face of fewer than three
/// vertices refuses the whole list.
pub fn from_vec_vts_gl<T: Copy>(vec_vts: &Vec<Vec<T>>) -> (r: Result<Vec<Vec<T>>, WindingError>)
    ensures
        r is Ok <==> all_faces(vec_vts@),
        r matches Err(e) ==> e == WindingError::TooFewVertices,
        r matches Ok(vss) ==> faces_rewound(vec_vts@, vss@),
{
    let mut vss: Vec<Vec<T>> = Vec::new();
    let mut f: usize = 0;
    while f < vec_vts.len()
        invariant
            f <= vec_vts.len(),
            vss@.len() == f,
            forall|g: int| 0 <= g < f ==> (#[trigger] vec_vts@[g])@.len() >= 3,
            forall|g: int| 0 <= g < f ==> (#[trigger] vss@[g])@ == rewound(vec_vts@[g]@),
        decreases vec_vts.len() - f,
    {
        match from_vts_gl(&vec_vts[f]) {
            Ok(vs) => {
                vss.push(vs);
            },
            Err(e) => {
                return Err(e);
            },
        }
        f += 1;
    }
    Ok(vss)
}

/// Whether every face of every group has at least three vertices.
pub open spec fn all_groups<T>(groups: Seq<Vec<Vec<T>>>) -> bool {
    forall|g: int| 0 <= g < groups.len() ==> all_faces((#[trigger] groups[g])@)
}

/// Whether `out` holds, group by group and face by face, the faces of
/// `groups` rewound.
pub open spec fn groups_rewound<T>(groups: Seq<Vec<Vec<T>>>, out: Seq<Vec<Vec<T>>>) -> bool {
    &&& out.len() == groups.len()
    &&& forall|g: int|
        0 <= g < groups.len() ==> faces_rewound(groups[g]@, (#[trigger] out[g])@)
}

/// Rewinds each face of each group on its own, for solids whose faces are
/// grouped and may differ in their number of vertices.
pub fn from_vec_vec_vts_gl<T: Copy>(vec_vec_vts: &Vec<Vec<Vec<T>>>) -> (r: Result<
    Vec<Vec<Vec<T>>>,
    WindingError,
>)
    ensures
        r is Ok <==> all_groups(vec_vec_vts@),
        r matches Err(e) ==> e == WindingError::TooFewVertices,
        r matches Ok(vsss) ==> groups_rewound(vec_vec_vts@, vsss@),
{
    let mut vsss: Vec<Vec<Vec<T>>> = Vec::new();
    let mut g: usize = 0;
    while g < vec_vec_vts.len()
        invariant
            g <= vec_vec_vts.len(),
            vsss@.len() == g,
            forall|j: int| 0 <= j < g ==> all_faces((#[trigger] vec_vec_vts@[j])@),
            forall|j: int|
                0 <= j < g ==> faces_rewound(vec_vec_vts@[j]@, (#[trigger] vsss@[j])@),
        decreases vec_vec_vts.len() - g,
    {
        match from_vec_vts_gl(&vec_vec_vts[g]) {
            Ok(vss) => {
                vsss.push(vss);
            },
            Err(e) => {
                return Err(e);
            },
        }
        g += 1;
    }
    Ok(vsss)
}

/// Face `f` of a flat table of faces of `vpf` vertices each.
pub open spec fn table_face<T>(vts: Seq<T>, vpf: int, f: int) -> Seq<T> {
    vts.subrange(f * vpf, f * vpf + vpf)
}

/// The triangle list of face `f` of a flat table has `3 * (vpf - 2)` vertices
/// and starts with the first vertex of that face.
pub proof fn lemma_table_face_rewound<T>(vts: Seq<T>, vpf: int, f: int)
    requires
        3 <= vpf,
        0 <= f,
        f * vpf + vpf <= vts.len(),
    ensures
        rewound(table_face(vts, vpf, f)).len() == 3 * (vpf - 2),
        rewound(table_face(vts, vpf, f))[0] == vts[f * vpf],
{
    assert(0 <= f * vpf) by (nonlinear_arith)
        requires
            0 <= f,
            3 <= vpf,
    ;
    lemma_rewound_triangle(table_face(vts, vpf, f), 0);
}

/// Rewinds the faces of a flat table that holds `nfaces` faces of `vpf`
/// vertices each, one after the other, into one triangle list per face.
pub fn vss_from_vts_gl<T: Copy>(vts: &Vec<T>, nfaces: usize, vpf: usize) -> (r: Result<
    Vec<Vec<T>>,
    WindingError,
>)
    ensures
        r is Ok <==> 3 <= vpf && vts.len() == nfaces * vpf,
        r matches Err(e) ==> e == (if vpf < 3 {
            WindingError::TooFewVertices
        } else {
            WindingError::SizeMismatch
        }),
        r matches Ok(vss) ==> {
            &&& vss.len() == nfaces
            &&& forall|f: int|
                0 <= f < nfaces ==> (#[trigger] vss[f])@ == rewound(
                    table_face(vts@, vpf as int, f),
                )
        },
{
    let tbl = match fan_table(vpf) {
        Ok(tbl) => tbl,
        Err(e) => {
            return Err(e);
        },
    };
    match nfaces.checked_mul(vpf) {
        Some(n) => {
            if n != vts.len() {
                return Err(WindingError::SizeMismatch);
            }
        },
        None => {
            return Err(WindingError::SizeMismatch);
        },
    }
    let mut vss: Vec<Vec<T>> = Vec::new();
    let mut f: usize = 0;
    let mut base: usize = 0;
    while f < nfaces
        invariant
            3 <= vpf,
            is_fan_table(tbl@, vpf as int),
            vts.len() == nfaces * vpf,
            f <= nfaces,
            base == f * vpf,
            vss@.len() == f,
            forall|g: int|
                0 <= g < f ==> (#[trigger] vss@[g])@ == rewound(table_face(vts@, vpf as int, g)),
        decreases nfaces - f,
    {
        assert(base + vpf == (f + 1) * vpf && (f + 1) * vpf <= nfaces * vpf)
            by (nonlinear_arith)
            requires
                base == f * vpf,
                f < nfaces,
        ;
        let vs = gather(vts, base, vpf, &tbl);
        vss.push(vs);
        base += vpf;
        f += 1;
    }
    Ok(vss)
}

/// The fixed remap of a quad, as a permutation of its four vertices.
pub open spec fn quad_permutation() -> Seq<int> {
    seq![0, 3, 2, 1]
}

/// Which remapped vertex fills each of the six slots of the two triangles:
/// the second triangle starts, in slot 3, with a copy of the vertex before
/// it, and closes on a copy of the first.
pub open spec fn quad_slots() -> Seq<int> {
    seq![0, 1, 2, 2, 3, 0]
}

/// The quad `vts` as two clockwise triangles by the fixed remap.
pub open spec fn quad_rewound<T>(vts: Seq<T>) -> Seq<T> {
    Seq::new(6, |k: int| vts[quad_permutation()[quad_slots()[k]]])
}

/// The fixed remap of the quad `v0 v1 v2 v3` is `v0 v3 v2 v2 v1 v0`, whatever
/// was converted before.
pub proof fn lemma_quad_rewound<T>(vts: Seq<T>)
    requires
        vts.len() == 4,
    ensures
        quad_rewound(vts) == seq![vts[0], vts[3], vts[2], vts[2], vts[1], vts[0]],
{
    assert(quad_rewound(vts) =~= seq![vts[0], vts[3], vts[2], vts[2], vts[1], vts[0]]);
}

/// Rewinds a quad by the fixed remap: the four vertices are permuted, then
/// laid out as two triangles of six vertices. Only a list of exactly four
/// vertices is taken.
pub fn from_quad_gl<T: Copy>(vts: &Vec<T>) -> (r: Result<Vec<T>, WindingError>)
    ensures
        vts.len() != 4 <==> r is Err,
        r matches Err(e) ==> e == WindingError::NotAQuad,
        r matches Ok(vs) ==> vs@ == quad_rewound(vts@),
{
    if vts.len() != 4 {
        return Err(WindingError::NotAQuad);
    }
    let p: [T; 4] = [vts[0], vts[3], vts[2], vts[1]];
    let mut vs: Vec<T> = Vec::new();
    vs.push(p[0]);
    vs.push(p[1]);
    vs.push(p[2]);
    vs.push(p[2]);
    vs.push(p[3]);
    vs.push(p[0]);
    assert(vs@ =~= quad_rewound(vts@));
    Ok(vs)
}

/// Opaque white.
pub open spec fn white() -> COLOR_U8 {
    COLOR_U8 { b: 255, g: 255, r: 255, a: 255 }
}

/// Opaque blue.
pub open spec fn blue() -> COLOR_U8 {
    COLOR_U8 { b: 255, g: 0, r: 0, a: 255 }
}

/// The diffuse and specular colour of an emitted vertex. With a texture the
/// vertex is opaque white with an opaque blue specular; without one its
/// diffuse colour is `pos_color`, the colour that the caller derived from
/// the vertex's position, and it has no specular.
pub fn vertex_colors(tex: bool, pos_color: COLOR_U8) -> (c: (COLOR_U8, COLOR_U8))
    ensures
        tex ==> c == (white(), blue()),
        !tex ==> c == (pos_color, (COLOR_U8 { b: 0, g: 0, r: 0, a: 0 })),
{
    if tex {
        (COLOR_U8::new(255, 255, 255, 255), COLOR_U8::get(&[0, 0, 255, 255]))
    } else {
        (pos_color, COLOR_U8::zeros())
    }
}

} // verus!
