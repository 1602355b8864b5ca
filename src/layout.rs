use vstd::prelude::*;

verus! {

/// Most attributes one vertex buffer may describe.
pub const MAX_VERTEX_ATTRIBUTES: usize = 16;

/// Format of one vertex attribute: one to four 32-bit float components.
#[derive(Clone, Copy, Debug, PartialEq, Eq, Structural)]
pub enum AttributeFormat {
    Float32,
    Float32x2,
    Float32x3,
    Float32x4,
}

/// Bytes taken by an attribute of format `f`.
pub open spec fn format_bytes(f: AttributeFormat) -> nat {
    match f {
        AttributeFormat::Float32 => 4,
        AttributeFormat::Float32x2 => 8,
        AttributeFormat::Float32x3 => 12,
        AttributeFormat::Float32x4 => 16,
    }
}

/// Bytes taken by the first `n` attributes of `fs`.
pub open spec fn bytes_upto(fs: Seq<AttributeFormat>, n: int) -> nat
    decreases n,
{
    if n <= 0 {
        0
    } else {
        bytes_upto(fs, n - 1) + format_bytes(fs[n - 1])
    }
}

impl AttributeFormat {
    /// Size in bytes.
    pub fn size(&self) -> (r: u64)
        ensures
            r == format_bytes(*self),
    {
        match self {
            AttributeFormat::Float32 => 4,
            AttributeFormat::Float32x2 => 8,
            AttributeFormat::Float32x3 => 12,
            AttributeFormat::Float32x4 => 16,
        }
    }
}

/// One attribute of an interleaved vertex.
#[derive(Clone, Copy, Debug, PartialEq, Eq, Structural)]
pub struct VertexAttribute {
    pub offset: u64,
    pub shader_location: u32,
    pub format: AttributeFormat,
}

/// How consecutive vertices are laid out in a buffer.
#[derive(Clone, Debug)]
pub struct VertexLayout {
    pub stride: u64,
    pub attributes: Vec<VertexAttribute>,
}

/// The layout that packs attributes of the given formats one after the
/// other, attribute `i` read at shader location `i`, each vertex directly
/// after the previous one. `None` when there are more attributes than a
/// vertex buffer may describe.
pub fn interleaved(formats: &Vec<AttributeFormat>) -> (r: Option<VertexLayout>)
    ensures
        formats@.len() > MAX_VERTEX_ATTRIBUTES ==> r is None,
        formats@.len() <= MAX_VERTEX_ATTRIBUTES ==> (r matches Some(l) && {
            &&& l.stride == bytes_upto(formats@, formats@.len() as int)
            &&& l.attributes@.len() == formats@.len()
            &&& forall|i: int|
                0 <= i < formats@.len() ==> {
                    &&& (#[trigger] l.attributes@[i]).offset == bytes_upto(formats@, i)
                    &&& l.attributes@[i].shader_location == i
                    &&& l.attributes@[i].format == formats@[i]
                }
        }),
{
    if formats.len() > MAX_VERTEX_ATTRIBUTES {
        return None;
    }
    let mut attributes: Vec<VertexAttribute> = Vec::new();
    let mut offset: u64 = 0;
    let mut i: usize = 0;
    while i < formats.len()
        invariant
            formats@.len() <= MAX_VERTEX_ATTRIBUTES,
            i <= formats@.len(),
            offset == bytes_upto(formats@, i as int),
            offset <= 16 * i,
            attributes@.len() == i,
            forall|j: int|
                0 <= j < i ==> {
                    &&& (#[trigger] attributes@[j]).offset == bytes_upto(formats@, j)
                    &&& attributes@[j].shader_location == j
                    &&& attributes@[j].format == formats@[j]
                },
        decreases formats@.len() - i,
    {
        let format = formats[i];
        attributes.push(VertexAttribute { offset, shader_location: i as u32, format });
        offset = offset + format.size();
        i = i + 1;
    }
    Some(VertexLayout { stride: offset, attributes })
}

} // verus!
