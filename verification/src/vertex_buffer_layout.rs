//! Declarative description of how a raw vertex record maps to shader
//! attribute slots.
//!
//! A layout is an ordered sequence of elements, each a primitive type
//! tag, a component count and a normalization flag.  The stride is the
//! byte distance between consecutive vertex records: the sum of each
//! element's component count times its primitive size.  Elements are
//! applied to attribute slots in insertion order starting at slot 0,
//! each at the byte offset accumulated over the elements before it.

use vstd::prelude::*;

use crate::gl_constants::GL_FLOAT;
use crate::gl_constants::GL_UNSIGNED_BYTE;
use crate::gl_constants::GL_UNSIGNED_INT;

verus! {

/// True for the primitive type tags the layout supports.
pub open spec fn supported_type(gl_type: u32) -> bool {
    gl_type == GL_FLOAT || gl_type == GL_UNSIGNED_INT || gl_type == GL_UNSIGNED_BYTE
}

/// Byte size of one component of a supported primitive type.
pub open spec fn spec_size_of_type(gl_type: u32) -> u32 {
    if gl_type == GL_FLOAT {
        4u32
    } else if gl_type == GL_UNSIGNED_INT {
        4u32
    } else {
        1u32
    }
}

/// Byte size of one component of the given primitive type.
///
/// The lookup is defined only for the supported tags; an unsupported
/// tag is excluded by the precondition.  [`size_of_type_checked`] is
/// the total variant for callers that cannot rule unsupported tags out.
pub fn size_of_type(gl_type: u32) -> (size: u32)
    requires
        supported_type(gl_type),
    ensures
        size == spec_size_of_type(gl_type),
        size >= 1,
{
    if gl_type == GL_FLOAT {
        4
    } else if gl_type == GL_UNSIGNED_INT {
        4
    } else {
        1
    }
}

/// Byte size of one component of the given primitive type, or `None`
/// for a tag the layout does not support.
pub fn size_of_type_checked(gl_type: u32) -> (size: Option<u32>)
    ensures
        supported_type(gl_type) ==> size == Some(spec_size_of_type(gl_type)),
        !supported_type(gl_type) ==> size is None,
{
    if gl_type == GL_FLOAT || gl_type == GL_UNSIGNED_INT || gl_type == GL_UNSIGNED_BYTE {
        Some(size_of_type(gl_type))
    } else {
        None
    }
}

/// One shader attribute slot: a primitive type tag, a component count
/// and a normalization flag.  Immutable once added to a layout.
#[derive(Clone, Copy, PartialEq, Eq, Structural, Debug)]
pub struct VertexBufferElement {
    gl_type: u32,
    count: u32,
    normalized: bool,
}

impl VertexBufferElement {
    /// The primitive type tag.
    pub closed spec fn spec_gl_type(self) -> u32 {
        self.gl_type
    }

    /// The component count.
    pub closed spec fn spec_count(self) -> u32 {
        self.count
    }

    /// The normalization flag.
    pub closed spec fn spec_normalized(self) -> bool {
        self.normalized
    }

    /// A valid element: a supported primitive type and one to four
    /// components.
    pub open spec fn wf(self) -> bool {
        supported_type(self.spec_gl_type()) && 1 <= self.spec_count() <= 4
    }

    /// Bytes this element occupies in one vertex record.
    pub open spec fn byte_size(self) -> int {
        self.spec_count() * spec_size_of_type(self.spec_gl_type())
    }

    /// The primitive type tag.
    pub fn gl_type(&self) -> (r: u32)
        ensures
            r == self.spec_gl_type(),
    {
        self.gl_type
    }

    /// The component count.
    pub fn count(&self) -> (r: u32)
        ensures
            r == self.spec_count(),
    {
        self.count
    }

    /// The normalization flag.
    pub fn normalized(&self) -> (r: bool)
        ensures
            r == self.spec_normalized(),
    {
        self.normalized
    }
}

/// The element a layout stores for the given type, count and flag.
pub closed spec fn spec_element(gl_type: u32, count: u32, normalized: bool) -> VertexBufferElement {
    VertexBufferElement { gl_type, count, normalized }
}

/// What [`spec_element`] packs into each field.
pub broadcast proof fn lemma_spec_element(gl_type: u32, count: u32, normalized: bool)
    ensures
        (#[trigger] spec_element(gl_type, count, normalized)).spec_gl_type() == gl_type,
        spec_element(gl_type, count, normalized).spec_count() == count,
        spec_element(gl_type, count, normalized).spec_normalized() == normalized,
{
}

/// Total byte size of a sequence of elements: the sum of each
/// element's component count times its primitive size.
pub open spec fn elements_size(elems: Seq<VertexBufferElement>) -> int
    decreases elems.len(),
{
    if elems.len() == 0 {
        0
    } else {
        elements_size(elems.drop_last()) + elems.last().byte_size()
    }
}

/// An ordered sequence of attribute elements plus the running byte
/// stride of one vertex record.
#[derive(Debug)]
pub struct VertexBufferLayout {
    stride: u32,
    elements: Vec<VertexBufferElement>,
}

impl VertexBufferLayout {
    /// The elements in insertion order.
    pub closed spec fn spec_elements(self) -> Seq<VertexBufferElement> {
        self.elements@
    }

    /// The stride in bytes.
    pub closed spec fn spec_stride(self) -> u32 {
        self.stride
    }

    /// A valid layout: every element is valid and the stride is exactly
    /// the byte size of all elements together.
    pub open spec fn wf(self) -> bool {
        &&& forall|i: int|
            0 <= i < self.spec_elements().len() ==> (#[trigger] self.spec_elements()[i]).wf()
        &&& self.spec_stride() == elements_size(self.spec_elements())
    }

    /// The stride in bytes: the byte distance between the starts of
    /// consecutive vertex records.
    pub fn stride(&self) -> (r: u32)
        ensures
            r == self.spec_stride(),
    {
        self.stride
    }

    /// The elements in insertion order.
    pub fn elements(&self) -> (r: &Vec<VertexBufferElement>)
        ensures
            r@ == self.spec_elements(),
    {
        &self.elements
    }

    /// Append a float attribute element of `count` components.
    pub fn with_floats(self, count: u32) -> (r: VertexBufferLayout)
        requires
            self.wf(),
            1 <= count <= 4,
            self.spec_stride() + count * spec_size_of_type(GL_FLOAT) <= u32::MAX,
        ensures
            r.wf(),
            r.spec_elements() == self.spec_elements().push(spec_element(GL_FLOAT, count, false)),
            r.spec_stride() == self.spec_stride() + count * spec_size_of_type(GL_FLOAT),
    {
        self.layout(GL_FLOAT, count, false)
    }

    /// Append an unsigned-int attribute element of `count` components.
    pub fn with_uints(self, count: u32) -> (r: VertexBufferLayout)
        requires
            self.wf(),
            1 <= count <= 4,
            self.spec_stride() + count * spec_size_of_type(GL_UNSIGNED_INT) <= u32::MAX,
        ensures
            r.wf(),
            r.spec_elements() == self.spec_elements().push(
                spec_element(GL_UNSIGNED_INT, count, false),
            ),
            r.spec_stride() == self.spec_stride() + count * spec_size_of_type(GL_UNSIGNED_INT),
    {
        self.layout(GL_UNSIGNED_INT, count, false)
    }

    /// Append an unsigned-byte attribute element of `count` components,
    /// normalized on upload.
    pub fn with_ubytes(self, count: u32) -> (r: VertexBufferLayout)
        requires
            self.wf(),
            1 <= count <= 4,
            self.spec_stride() + count * spec_size_of_type(GL_UNSIGNED_BYTE) <= u32::MAX,
        ensures
            r.wf(),
            r.spec_elements() == self.spec_elements().push(
                spec_element(GL_UNSIGNED_BYTE, count, true),
            ),
            r.spec_stride() == self.spec_stride() + count * spec_size_of_type(GL_UNSIGNED_BYTE),
    {
        self.layout(GL_UNSIGNED_BYTE, count, true)
    }

    /// Append one element and grow the stride by its byte size.
    fn layout(self, gl_type: u32, count: u32, normalized: bool) -> (r: VertexBufferLayout)
        requires
            self.wf(),
            supported_type(gl_type),
            1 <= count <= 4,
            self.spec_stride() + count * spec_size_of_type(gl_type) <= u32::MAX,
        ensures
            r.wf(),
            r.spec_elements() == self.spec_elements().push(
                spec_element(gl_type, count, normalized),
            ),
            r.spec_stride() == self.spec_stride() + count * spec_size_of_type(gl_type),
    {
        let VertexBufferLayout { stride: old_stride, elements: mut elements } = self;
        let vbe = VertexBufferElement { gl_type, count, normalized };
        elements.push(vbe);
        let stride = old_stride + count * size_of_type(gl_type);
        proof {
            let s = elements@;
            assert(s =~= self.spec_elements().push(spec_element(gl_type, count, normalized)));
            assert(s.drop_last() =~= self.spec_elements());
            assert(s.last() == spec_element(gl_type, count, normalized));
            assert(elements_size(s) == elements_size(self.spec_elements()) + vbe.byte_size());
            assert forall|i: int| 0 <= i < s.len() implies (#[trigger] s[i]).wf() by {
                if i < s.len() - 1 {
                    assert(s[i] == self.spec_elements()[i]);
                    assert(self.spec_elements()[i].wf());
                } else {
                    assert(s[i] == vbe);
                }
            }
        }
        VertexBufferLayout { stride, elements }
    }
}

impl Default for VertexBufferLayout {
    /// The empty layout: no elements, stride zero.
    fn default() -> (r: VertexBufferLayout)
        ensures
            r.wf(),
            r.spec_elements() == Seq::<VertexBufferElement>::empty(),
            r.spec_stride() == 0,
    {
        VertexBufferLayout { stride: 0, elements: Vec::new() }
    }
}

/// Law: in a valid layout the stride after all insertions equals the
/// sum of component count times primitive size over all elements.
pub proof fn lemma_stride_is_size_sum(layout: VertexBufferLayout)
    requires
        layout.wf(),
    ensures
        layout.spec_stride() == elements_size(layout.spec_elements()),
{
}

/// The byte size of a prefix never exceeds the byte size of the whole
/// sequence, provided every element is valid.
pub proof fn lemma_prefix_size_bounds(elems: Seq<VertexBufferElement>, k: int)
    requires
        forall|i: int| 0 <= i < elems.len() ==> (#[trigger] elems[i]).wf(),
        0 <= k <= elems.len(),
    ensures
        0 <= elements_size(elems.take(k)) <= elements_size(elems),
        elements_size(elems) >= elems.len(),
    decreases elems.len(),
{
    if elems.len() == 0 {
        assert(elems.take(k) =~= elems);
    } else {
        lemma_prefix_size_bounds(elems.drop_last(), if k <= elems.len() - 1 { k } else { k - 1 });
        assert(elems.last().wf());
        assert(elems.last().byte_size() >= 1);
        if k <= elems.len() - 1 {
            assert(elems.take(k) =~= elems.drop_last().take(k));
        } else {
            assert(elems.take(k) =~= elems);
        }
    }
}

} // verus!
