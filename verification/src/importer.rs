//! Import of interchange-format documents.
//!
//! Reading and decoding the file is the shell's work; it hands the library
//! one [`DocumentSource`]: the per-primitive position, texture-coordinate
//! and index streams, as plain values. Translation into the engine's
//! meshes happens here: every position becomes a vertex with a placeholder
//! normal, texture-coordinate streams are scattered onto the vertices by
//! position, a stream for a channel beyond the second is rejected with a
//! warning and touches nothing, and index streams pass through unchanged.

use vstd::prelude::*;

use crate::commands::PrimitiveUpload;
use crate::mesh::Mesh;
use crate::mesh::Meshes;
use crate::mesh::Model;
use crate::primitive::spec_attribute_layout;
use crate::primitive::spec_interleave;
use crate::primitive::Primitive;
use crate::scalar::copy_items;
use crate::scalar::Vec2;
use crate::scalar::Vec3;
use crate::shader::Shader;
use crate::transform::spec_transform_identity;
use crate::transform::Transform;
use crate::vertex::Vertex;

verus! {

/// One texture-coordinate stream of a primitive: the channel it addresses
/// and one coordinate pair per vertex.
#[derive(Clone, PartialEq, Debug)]
pub struct TexCoordSet {
    pub channel: u32,
    pub coords: Vec<Vec2>,
}

/// One primitive of the document: its positions, its texture-coordinate
/// streams, and its optional index stream.
#[derive(Clone, PartialEq, Debug)]
pub struct PrimitiveSource {
    pub positions: Vec<Vec3>,
    pub tex_coords: Vec<TexCoordSet>,
    pub indices: Option<Vec<u32>>,
}

/// One mesh definition of the document.
#[derive(Clone, PartialEq, Debug)]
pub struct MeshSource {
    pub primitives: Vec<PrimitiveSource>,
}

/// A parsed document: its mesh definitions, in document order.
#[derive(Clone, PartialEq, Debug)]
pub struct DocumentSource {
    pub meshes: Vec<MeshSource>,
}

/// What the importer reports and skips.
#[derive(Clone, Copy, PartialEq, Eq, Structural, Debug)]
pub enum ImportWarning {
    /// A texture-coordinate stream addressed a channel beyond the second;
    /// the stream is skipped and no vertex is touched.
    TexCoordChannelUnsupported { channel: u32 },
}

/// The vertex an imported position becomes: the default vertex — with the
/// placeholder normal of all ones, since normals are not read from the
/// document, and both texture-coordinate channels zero until a stream
/// fills them — moved to the position.
pub open spec fn spec_import_vertex(p: Vec3) -> Vertex {
    Vertex { position: p, ..crate::vertex::spec_vertex_default() }
}

/// The vertices after scattering one coordinate stream onto one channel:
/// vertex `i` takes coordinate `i` where the stream has one; a stream for
/// a channel beyond the second changes nothing.
pub open spec fn spec_apply_tex_set(vs: Seq<Vertex>, channel: u32, cs: Seq<Vec2>) -> Seq<
    Vertex,
> {
    if channel == 0 {
        Seq::new(
            vs.len(),
            |i: int|
                if i < cs.len() {
                    Vertex { tex_coord_0: cs[i], ..vs[i] }
                } else {
                    vs[i]
                },
        )
    } else if channel == 1 {
        Seq::new(
            vs.len(),
            |i: int|
                if i < cs.len() {
                    Vertex { tex_coord_1: cs[i], ..vs[i] }
                } else {
                    vs[i]
                },
        )
    } else {
        vs
    }
}

/// The vertices after scattering a list of coordinate streams, in order.
pub open spec fn spec_apply_tex_sets(vs: Seq<Vertex>, sets: Seq<TexCoordSet>) -> Seq<Vertex>
    decreases sets.len(),
{
    if sets.len() == 0 {
        vs
    } else {
        spec_apply_tex_set(
            spec_apply_tex_sets(vs, sets.drop_last()),
            sets.last().channel,
            sets.last().coords@,
        )
    }
}

/// Scattering never changes how many vertices there are.
pub proof fn lemma_apply_tex_sets_len(vs: Seq<Vertex>, sets: Seq<TexCoordSet>)
    ensures
        spec_apply_tex_sets(vs, sets).len() == vs.len(),
    decreases sets.len(),
{
    if sets.len() > 0 {
        lemma_apply_tex_sets_len(vs, sets.drop_last());
    }
}

/// The warnings a list of coordinate streams produces: one per stream that
/// addresses a channel beyond the second, in order.
pub open spec fn spec_sets_warnings(sets: Seq<TexCoordSet>) -> Seq<ImportWarning>
    decreases sets.len(),
{
    if sets.len() == 0 {
        Seq::empty()
    } else {
        spec_sets_warnings(sets.drop_last()) + (if sets.last().channel > 1 {
            seq![ImportWarning::TexCoordChannelUnsupported { channel: sets.last().channel }]
        } else {
            Seq::empty()
        })
    }
}

/// The vertex list one primitive source becomes.
pub open spec fn spec_primitive_vertices(src: PrimitiveSource) -> Seq<Vertex> {
    spec_apply_tex_sets(
        src.positions@.map_values(|p: Vec3| spec_import_vertex(p)),
        src.tex_coords@,
    )
}

/// For a primitive with one coordinate stream, on the first channel,
/// covering every position, the import yields one vertex per position:
/// its position from the stream of positions, its first channel from the
/// coordinate stream, its second channel still zero, and the placeholder
/// normal.
pub proof fn lemma_single_stream_vertices(src: PrimitiveSource)
    requires
        src.tex_coords@.len() == 1,
        src.tex_coords@[0].channel == 0,
        src.tex_coords@[0].coords@.len() == src.positions@.len(),
    ensures
        spec_primitive_vertices(src).len() == src.positions@.len(),
        forall|i: int|
            0 <= i < src.positions@.len() ==> #[trigger] spec_primitive_vertices(src)[i]
                == (Vertex {
                position: src.positions@[i],
                tex_coord_0: src.tex_coords@[0].coords@[i],
                ..spec_import_vertex(src.positions@[i])
            }),
{
    let base = src.positions@.map_values(|p: Vec3| spec_import_vertex(p));
    assert(src.tex_coords@.drop_last() =~= Seq::<TexCoordSet>::empty());
    assert(spec_apply_tex_sets(base, src.tex_coords@.drop_last()) == base);
    assert(src.tex_coords@.last() == src.tex_coords@[0]);
}

/// A coordinate stream for a channel beyond the second changes no vertex,
/// and adds exactly one warning to the list that the streams before it
/// produced: it corrupts nothing it does not address.
pub proof fn lemma_channel_beyond_pair(
    vs: Seq<Vertex>,
    sets: Seq<TexCoordSet>,
    extra: TexCoordSet,
)
    requires
        extra.channel > 1,
    ensures
        spec_apply_tex_sets(vs, sets.push(extra)) == spec_apply_tex_sets(vs, sets),
        spec_sets_warnings(sets.push(extra)) == spec_sets_warnings(sets).push(
            ImportWarning::TexCoordChannelUnsupported { channel: extra.channel },
        ),
{
    assert(sets.push(extra).drop_last() =~= sets);
    assert(sets.push(extra).last() == extra);
    assert(spec_sets_warnings(sets.push(extra)) =~= spec_sets_warnings(sets).push(
        ImportWarning::TexCoordChannelUnsupported { channel: extra.channel },
    ));
}

/// Whether a built primitive and its upload are the faithful translation
/// of a primitive source: one vertex per source position, the index
/// stream passed through, the vertex buffer the interleaving of the
/// scattered vertices, and no graphics handles yet.
pub open spec fn spec_prim_built(
    src: PrimitiveSource,
    prim: Primitive,
    up: PrimitiveUpload,
    shader: Shader,
) -> bool {
    &&& prim.shader == shader
    &&& prim.vao == 0
    &&& prim.vbo == 0
    &&& prim.ebo is None
    &&& prim.num_vertices == src.positions@.len()
    &&& prim.indexed == (src.indices is Some)
    &&& (src.indices matches Some(ix) ==> prim.num_indices == ix@.len())
    &&& (src.indices is None ==> prim.num_indices == 0)
    &&& up.vertex_data@ == spec_interleave(spec_primitive_vertices(src))
    &&& (src.indices is None ==> up.indices is None)
    &&& (src.indices matches Some(ix) ==> up.indices matches Some(ui) && ui@ == ix@)
    &&& up.attributes@ == spec_attribute_layout()
}

/// Whether a built mesh and its uploads are the faithful translation of a
/// mesh source: one primitive per source primitive, each built as
/// `spec_prim_built` says.
pub open spec fn spec_mesh_built(
    src: MeshSource,
    mesh: Mesh,
    ups: Seq<PrimitiveUpload>,
    shader: Shader,
) -> bool {
    &&& mesh.primitives@.len() == src.primitives@.len()
    &&& ups.len() == src.primitives@.len()
    &&& (forall|p: int|
        0 <= p < src.primitives@.len() ==> spec_prim_built(
            #[trigger] src.primitives@[p],
            mesh.primitives@[p],
            ups[p],
            shader,
        ))
}

/// The warnings of a list of primitive sources, in order.
pub open spec fn spec_prims_warnings(ps: Seq<PrimitiveSource>) -> Seq<ImportWarning>
    decreases ps.len(),
{
    if ps.len() == 0 {
        Seq::empty()
    } else {
        spec_prims_warnings(ps.drop_last()) + spec_sets_warnings(ps.last().tex_coords@)
    }
}

/// The warnings of a list of mesh sources, in order.
pub open spec fn spec_meshes_warnings(ms: Seq<MeshSource>) -> Seq<ImportWarning>
    decreases ms.len(),
{
    if ms.len() == 0 {
        Seq::empty()
    } else {
        spec_meshes_warnings(ms.drop_last()) + spec_prims_warnings(ms.last().primitives@)
    }
}

/// Whether every stream length of a document fits the machine's counts.
pub open spec fn spec_doc_fits(doc: DocumentSource) -> bool {
    forall|m: int, p: int|
        0 <= m < doc.meshes@.len() && 0 <= p < doc.meshes@[m].primitives@.len() ==> ({
            let src = #[trigger] doc.meshes@[m].primitives@[p];
            &&& src.positions@.len() <= u32::MAX
            &&& (src.indices matches Some(ix) ==> ix@.len() <= u32::MAX)
        })
}

/// Whether every stream length of a document fits the machine's counts:
/// the check a caller makes before handing a document to the importer.
pub fn document_fits(doc: &DocumentSource) -> (r: bool)
    ensures
        r == spec_doc_fits(*doc),
{
    let mut m: usize = 0;
    while m < doc.meshes.len()
        invariant
            m <= doc.meshes@.len(),
            forall|q: int, p: int|
                0 <= q < m && 0 <= p < doc.meshes@[q].primitives@.len() ==> ({
                    let src = #[trigger] doc.meshes@[q].primitives@[p];
                    &&& src.positions@.len() <= u32::MAX
                    &&& (src.indices matches Some(ix) ==> ix@.len() <= u32::MAX)
                }),
        decreases doc.meshes@.len() - m,
    {
        let mesh = &doc.meshes[m];
        let mut p: usize = 0;
        while p < mesh.primitives.len()
            invariant
                p <= mesh.primitives@.len(),
                mesh == doc.meshes@[m as int],
                0 <= m < doc.meshes@.len(),
                forall|q: int, p2: int|
                    0 <= q < m && 0 <= p2 < doc.meshes@[q].primitives@.len() ==> ({
                        let src = #[trigger] doc.meshes@[q].primitives@[p2];
                        &&& src.positions@.len() <= u32::MAX
                        &&& (src.indices matches Some(ix) ==> ix@.len() <= u32::MAX)
                    }),
                forall|p2: int|
                    0 <= p2 < p ==> ({
                        let src = #[trigger] mesh.primitives@[p2];
                        &&& src.positions@.len() <= u32::MAX
                        &&& (src.indices matches Some(ix) ==> ix@.len() <= u32::MAX)
                    }),
            decreases mesh.primitives@.len() - p,
        {
            let src = &mesh.primitives[p];
            if src.positions.len() > u32::MAX as usize {
                return false;
            }
            match &src.indices {
                Option::Some(ix) => {
                    if ix.len() > u32::MAX as usize {
                        return false;
                    }
                },
                Option::None => {},
            }
            p = p + 1;
        }
        m = m + 1;
    }
    true
}

/// One vertex per source position, with the placeholder normal and zero
/// texture coordinates. An absent position stream arrives as an empty
/// list and yields the silent degenerate empty vertex list.
pub fn get_vertex(positions: &Vec<Vec3>) -> (r: Vec<Vertex>)
    ensures
        r@ == positions@.map_values(|p: Vec3| spec_import_vertex(p)),
{
    let mut r: Vec<Vertex> = Vec::new();
    let mut i: usize = 0;
    while i < positions.len()
        invariant
            i <= positions@.len(),
            r@.len() == i,
            forall|j: int| 0 <= j < i ==> r@[j] == spec_import_vertex(#[trigger] positions@[j]),
        decreases positions@.len() - i,
    {
        r.push(
            Vertex {
                position: positions[i],
                normal: Vec3::ones(),
                tex_coord_0: Vec2::zeros(),
                tex_coord_1: Vec2::zeros(),
            },
        );
        i = i + 1;
    }
    proof {
        assert(r@ =~= positions@.map_values(|p: Vec3| spec_import_vertex(p)));
    }
    r
}

/// Scatters one coordinate stream onto the vertices: coordinate `i` lands
/// on vertex `i`'s channel. Channels beyond the second are rejected with a
/// warning and touch nothing; a stream longer than the vertex list only
/// fills the vertices that exist.
pub fn tex_coords_on_vertices(coords: &Vec<Vec2>, index: u32, vertices: &mut Vec<Vertex>) -> (r:
    Option<ImportWarning>)
    ensures
        final(vertices)@ == spec_apply_tex_set(old(vertices)@, index, coords@),
        index <= 1 ==> r is None,
        index > 1 ==> r == Some(ImportWarning::TexCoordChannelUnsupported { channel: index }),
{
    if index > 1 {
        proof {
            assert(vertices@ =~= spec_apply_tex_set(vertices@, index, coords@));
        }
        return Option::Some(ImportWarning::TexCoordChannelUnsupported { channel: index });
    }
    let n = vertices.len();
    let m = coords.len();
    let k: usize = if m < n {
        m
    } else {
        n
    };
    let mut i: usize = 0;
    while i < k
        invariant
            k <= vertices@.len(),
            k <= coords@.len(),
            k == if coords@.len() < old(vertices)@.len() {
                coords@.len()
            } else {
                old(vertices)@.len()
            },
            i <= k,
            index <= 1,
            vertices@.len() == old(vertices)@.len(),
            forall|j: int|
                0 <= j < i ==> vertices@[j] == (if index == 0 {
                    Vertex { tex_coord_0: coords@[j], ..old(vertices)@[j] }
                } else {
                    Vertex { tex_coord_1: coords@[j], ..old(vertices)@[j] }
                }),
            forall|j: int| i <= j < vertices@.len() ==> vertices@[j] == old(vertices)@[j],
        decreases k - i,
    {
        let c = coords[i];
        let slot = &mut vertices[i];
        if index == 0 {
            slot.tex_coord_0 = c;
        } else {
            slot.tex_coord_1 = c;
        }
        i = i + 1;
    }
    proof {
        assert(vertices@ =~= spec_apply_tex_set(old(vertices)@, index, coords@));
    }
    Option::None
}

/// Builds one primitive from its source: vertices from the positions, the
/// coordinate streams scattered in order, the index stream passed through,
/// drawn with the given shader.
fn build_primitive(src: &PrimitiveSource, shader: Shader) -> (r: (
    Primitive,
    PrimitiveUpload,
    Vec<ImportWarning>,
))
    requires
        src.positions@.len() <= u32::MAX,
        src.indices matches Some(ix) ==> ix@.len() <= u32::MAX,
    ensures
        spec_prim_built(*src, r.0, r.1, shader),
        r.2@ == spec_sets_warnings(src.tex_coords@),
{
    let ghost base = src.positions@.map_values(|p: Vec3| spec_import_vertex(p));
    let mut vertices = get_vertex(&src.positions);
    let mut warnings: Vec<ImportWarning> = Vec::new();
    let mut i: usize = 0;
    while i < src.tex_coords.len()
        invariant
            i <= src.tex_coords@.len(),
            vertices@ == spec_apply_tex_sets(base, src.tex_coords@.take(i as int)),
            warnings@ == spec_sets_warnings(src.tex_coords@.take(i as int)),
        decreases src.tex_coords@.len() - i,
    {
        let set = &src.tex_coords[i];
        let w = tex_coords_on_vertices(&set.coords, set.channel, &mut vertices);
        match w {
            Option::Some(warning) => {
                warnings.push(warning);
            },
            Option::None => {},
        }
        proof {
            let taken = src.tex_coords@.take(i + 1);
            assert(taken.drop_last() =~= src.tex_coords@.take(i as int));
            assert(taken.last() == src.tex_coords@[i as int]);
            assert(warnings@ =~= spec_sets_warnings(taken));
        }
        i = i + 1;
    }
    proof {
        assert(src.tex_coords@.take(src.tex_coords@.len() as int) =~= src.tex_coords@);
        lemma_apply_tex_sets_len(base, src.tex_coords@);
    }
    let indices: Option<Vec<u32>> = match &src.indices {
        Option::Some(ix) => Option::Some(copy_items(ix)),
        Option::None => Option::None,
    };
    let (primitive, upload) = Primitive::new(&vertices, indices, shader);
    (primitive, upload, warnings)
}

/// The importer's working form: the translated meshes and the transform
/// the model will carry, which starts as the identity and is repositioned
/// by the caller after import.
pub struct GltfFormater {
    pub meshes: Meshes,
    pub transform: Transform,
}

impl GltfFormater {
    /// Translates a parsed document: every mesh definition becomes one
    /// mesh, every primitive one primitive drawn with the given shader.
    /// Returns the translation, the warnings in document order, and one
    /// upload per primitive, grouped by mesh.
    pub fn new(doc: &DocumentSource, shader: Shader) -> (r: (
        GltfFormater,
        Vec<ImportWarning>,
        Vec<Vec<PrimitiveUpload>>,
    ))
        requires
            spec_doc_fits(*doc),
        ensures
            r.0.transform == spec_transform_identity(),
            r.0.meshes@.len() == doc.meshes@.len(),
            r.2@.len() == doc.meshes@.len(),
            forall|m: int|
                0 <= m < doc.meshes@.len() ==> spec_mesh_built(
                    #[trigger] doc.meshes@[m],
                    r.0.meshes@[m],
                    r.2@[m]@,
                    shader,
                ),
            r.1@ == spec_meshes_warnings(doc.meshes@),
    {
        let mut meshes: Meshes = Vec::new();
        let mut warnings: Vec<ImportWarning> = Vec::new();
        let mut uploads: Vec<Vec<PrimitiveUpload>> = Vec::new();
        let mut m: usize = 0;
        while m < doc.meshes.len()
            invariant
                m <= doc.meshes@.len(),
                spec_doc_fits(*doc),
                meshes@.len() == m,
                uploads@.len() == m,
                forall|q: int|
                    0 <= q < m ==> spec_mesh_built(
                        #[trigger] doc.meshes@[q],
                        meshes@[q],
                        uploads@[q]@,
                        shader,
                    ),
                warnings@ == spec_meshes_warnings(doc.meshes@.take(m as int)),
            decreases doc.meshes@.len() - m,
        {
            let mesh_src = &doc.meshes[m];
            let mut primitives: Vec<Primitive> = Vec::new();
            let mut mesh_uploads: Vec<PrimitiveUpload> = Vec::new();
            let mut mesh_warnings: Vec<ImportWarning> = Vec::new();
            let mut p: usize = 0;
            while p < mesh_src.primitives.len()
                invariant
                    p <= mesh_src.primitives@.len(),
                    mesh_src == doc.meshes@[m as int],
                    0 <= m < doc.meshes@.len(),
                    spec_doc_fits(*doc),
                    primitives@.len() == p,
                    mesh_uploads@.len() == p,
                    forall|q: int|
                        0 <= q < p ==> spec_prim_built(
                            #[trigger] mesh_src.primitives@[q],
                            primitives@[q],
                            mesh_uploads@[q],
                            shader,
                        ),
                    mesh_warnings@ == spec_prims_warnings(mesh_src.primitives@.take(p as int)),
                decreases mesh_src.primitives@.len() - p,
            {
                let prim_src = &mesh_src.primitives[p];
                let (primitive, upload, mut prim_warnings) = build_primitive(prim_src, shader);
                primitives.push(primitive);
                mesh_uploads.push(upload);
                mesh_warnings.append(&mut prim_warnings);
                proof {
                    let taken = mesh_src.primitives@.take(p + 1);
                    assert(taken.drop_last() =~= mesh_src.primitives@.take(p as int));
                    assert(taken.last() == mesh_src.primitives@[p as int]);
                }
                p = p + 1;
            }
            proof {
                assert(mesh_src.primitives@.take(mesh_src.primitives@.len() as int)
                    =~= mesh_src.primitives@);
            }
            meshes.push(Mesh::new(primitives));
            uploads.push(mesh_uploads);
            warnings.append(&mut mesh_warnings);
            proof {
                let taken = doc.meshes@.take(m + 1);
                assert(taken.drop_last() =~= doc.meshes@.take(m as int));
                assert(taken.last() == doc.meshes@[m as int]);
            }
            m = m + 1;
        }
        proof {
            assert(doc.meshes@.take(doc.meshes@.len() as int) =~= doc.meshes@);
        }
        let formater = GltfFormater { meshes, transform: Transform::default() };
        (formater, warnings, uploads)
    }

    /// The model: the translated meshes under the carried transform.
    pub fn to_model(self) -> (r: Model)
        ensures
            r.transform == self.transform,
            r.meshes == self.meshes,
    {
        Model::new(self.transform, self.meshes)
    }
}

/// Imports interchange-format documents by translating their data to fit
/// the engine.
pub struct Importer;

impl Importer {
    /// A model from a parsed document: the translation of every mesh,
    /// under an identity transform that the caller repositions afterwards.
    /// Returns the model, the warnings, and the uploads of its primitives,
    /// grouped by mesh.
    pub fn from_gltf(doc: &DocumentSource, shader: Shader) -> (r: (
        Model,
        Vec<ImportWarning>,
        Vec<Vec<PrimitiveUpload>>,
    ))
        requires
            spec_doc_fits(*doc),
        ensures
            r.0.transform == spec_transform_identity(),
            r.0.meshes@.len() == doc.meshes@.len(),
            r.2@.len() == doc.meshes@.len(),
            forall|m: int|
                0 <= m < doc.meshes@.len() ==> spec_mesh_built(
                    #[trigger] doc.meshes@[m],
                    r.0.meshes@[m],
                    r.2@[m]@,
                    shader,
                ),
            r.1@ == spec_meshes_warnings(doc.meshes@),
    {
        let (formater, warnings, uploads) = GltfFormater::new(doc, shader);
        let model = formater.to_model();
        (model, warnings, uploads)
    }
}

} // verus!
