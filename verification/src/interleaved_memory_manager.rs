//! Interleaved vertex layouts: attributes packed one after another, each
//! aligned to the element alignment, with the per-vertex stride rounded up
//! to the struct alignment.

use vstd::prelude::*;
use crate::hd_types::HdTupleType;
use vstd::arithmetic::power2::pow2;
use vstd::bits::{low_bits_mask, lemma_usize_low_bits_mask_is_mod, lemma_usize_pow2_no_overflow};

verus! {

/// Default alignment of each attribute within a vertex.
pub const ELEMENT_ALIGNMENT: usize = 4;

/// Default struct alignment the stride is rounded up to.
pub const STRUCT_ALIGNMENT: usize = 16;

/// Round `v` up with the mask of `align` (unchanged when `align` is 0).
pub open spec fn spec_align_up(v: usize, align: usize) -> usize {
    if align == 0 {
        v
    } else {
        ((v + align - 1) as usize) & !((align - 1) as usize)
    }
}

/// `align_up` does not overflow.
pub open spec fn align_up_fits(v: usize, align: usize) -> bool {
    align == 0 || v + align <= usize::MAX
}

/// Rounds `v` up by clearing the bits of `align - 1` from `v + align - 1`;
/// for a power-of-two `align` this is the next multiple of `align`.
pub fn align_up(v: usize, align: usize) -> (r: usize)
    requires
        align_up_fits(v, align),
    ensures
        r == spec_align_up(v, align),
{
    if align == 0 {
        return v;
    }
    (v + align - 1) & !(align - 1)
}

/// Rounding up never moves below `v` nor by `align` or more.
pub proof fn lemma_align_up_bounds(v: usize, align: usize)
    requires
        align > 0,
        align_up_fits(v, align),
    ensures
        v <= spec_align_up(v, align) <= v + align - 1,
{
    let x: usize = (v + align - 1) as usize;
    let m: usize = (align - 1) as usize;
    assert((x & !m) <= x && x - m <= (x & !m)) by (bit_vector);
}

/// With a power-of-two alignment the result is a multiple of it.
pub proof fn lemma_align_up_pow2(v: usize, n: nat)
    requires
        n < usize::BITS,
        align_up_fits(v, pow2(n) as usize),
    ensures
        spec_align_up(v, pow2(n) as usize) % (pow2(n) as usize) == 0,
{
    lemma_usize_pow2_no_overflow(n);
    let a: usize = pow2(n) as usize;
    let x: usize = (v + a - 1) as usize;
    let m: usize = (a - 1) as usize;
    let y: usize = x & !m;
    assert(y & m == 0) by (bit_vector)
        requires
            y == x & !m,
    ;
    assert(low_bits_mask(n) as usize == m);
    lemma_usize_low_bits_mask_is_mod(y, n);
}

/// One vertex attribute of an interleaved layout.
#[derive(Debug, Clone)]
pub struct VertexAttribute {
    /// Attribute name (e.g. "points", "normals").
    pub name: String,
    /// Data type and count.
    pub tuple_type: HdTupleType,
    /// Byte offset from the start of the vertex.
    pub offset: usize,
    /// Unaligned size in bytes.
    pub size: usize,
}

impl VertexAttribute {
    pub fn new(name: String, tuple_type: HdTupleType, offset: usize, size: usize) -> (a: Self)
        ensures
            a == (VertexAttribute { name, tuple_type, offset, size }),
    {
        VertexAttribute { name, tuple_type, offset, size }
    }
}

/// Layout of several attributes packed into one vertex buffer.
#[derive(Debug, Clone)]
pub struct InterleavedLayout {
    attributes: Vec<VertexAttribute>,
    stride: usize,
    vertex_count: usize,
    element_alignment: usize,
    struct_alignment: usize,
}

/// End (offset plus size) of an attribute.
pub open spec fn attr_end(a: VertexAttribute) -> int {
    a.offset + a.size
}

impl InterleavedLayout {
    pub closed spec fn spec_attributes(self) -> Seq<VertexAttribute> {
        self.attributes@
    }

    pub closed spec fn spec_stride(self) -> usize {
        self.stride
    }

    pub closed spec fn spec_vertex_count(self) -> usize {
        self.vertex_count
    }

    pub closed spec fn spec_element_alignment(self) -> usize {
        self.element_alignment
    }

    pub closed spec fn spec_struct_alignment(self) -> usize {
        self.struct_alignment
    }

    /// End of the last attribute, or 0 without attributes.
    pub open spec fn raw_end(self) -> int {
        let attrs = self.spec_attributes();
        if attrs.len() == 0 {
            0
        } else {
            attr_end(attrs[attrs.len() - 1])
        }
    }

    /// Attributes appear in order without overlapping, and the stride covers
    /// the last one.
    pub open spec fn wf(self) -> bool {
        let attrs = self.spec_attributes();
        &&& forall|i: int|
            0 <= i < attrs.len() - 1 ==> attr_end(attrs[i]) <= #[trigger] attrs[i + 1].offset
        &&& forall|i: int| 0 <= i < attrs.len() ==> attr_end(#[trigger] attrs[i]) <= usize::MAX
        &&& (self.spec_struct_alignment() > 0 && attrs.len() > 0) ==> self.raw_end()
            <= self.spec_stride()
    }

    /// Offset the next attribute gets.
    pub open spec fn next_offset(self) -> usize {
        spec_align_up(self.raw_end() as usize, self.spec_element_alignment())
    }

    /// Adding an attribute of `size` bytes does not overflow.
    pub open spec fn can_add(self, size: usize) -> bool {
        &&& align_up_fits(self.raw_end() as usize, self.spec_element_alignment())
        &&& self.next_offset() + size <= usize::MAX
        &&& align_up_fits((self.next_offset() + size) as usize, self.spec_struct_alignment())
    }

    /// Empty layout with the default alignments.
    pub fn new() -> (l: Self)
        ensures
            l.spec_attributes().len() == 0,
            l.spec_stride() == 0,
            l.spec_vertex_count() == 0,
            l.spec_element_alignment() == ELEMENT_ALIGNMENT,
            l.spec_struct_alignment() == STRUCT_ALIGNMENT,
            l.wf(),
    {
        InterleavedLayout {
            attributes: Vec::new(),
            stride: 0,
            vertex_count: 0,
            element_alignment: ELEMENT_ALIGNMENT,
            struct_alignment: STRUCT_ALIGNMENT,
        }
    }

    /// Empty layout with explicit alignments.
    pub fn with_alignment(element_alignment: usize, struct_alignment: usize) -> (l: Self)
        ensures
            l.spec_attributes().len() == 0,
            l.spec_stride() == 0,
            l.spec_vertex_count() == 0,
            l.spec_element_alignment() == element_alignment,
            l.spec_struct_alignment() == struct_alignment,
            l.wf(),
    {
        InterleavedLayout {
            attributes: Vec::new(),
            stride: 0,
            vertex_count: 0,
            element_alignment,
            struct_alignment,
        }
    }

    /// Appends an attribute at the end of the previous one rounded up to the
    /// element alignment, sets the stride to the new end rounded up to the
    /// struct alignment, and returns the attribute's offset.
    pub fn add_attribute(&mut self, name: String, tuple_type: HdTupleType, size: usize) -> (offset:
        usize)
        requires
            old(self).wf(),
            old(self).can_add(size),
        ensures
            final(self).wf(),
            offset == old(self).next_offset(),
            final(self).spec_attributes() == old(self).spec_attributes().push(
                VertexAttribute { name, tuple_type, offset, size },
            ),
            final(self).spec_stride() == spec_align_up(
                (offset + size) as usize,
                old(self).spec_struct_alignment(),
            ),
            final(self).spec_vertex_count() == old(self).spec_vertex_count(),
            final(self).spec_element_alignment() == old(self).spec_element_alignment(),
            final(self).spec_struct_alignment() == old(self).spec_struct_alignment(),
    {
        let raw_end = if self.attributes.len() == 0 {
            0
        } else {
            let last = &self.attributes[self.attributes.len() - 1];
            last.offset + last.size
        };
        let offset = align_up(raw_end, self.element_alignment);
        proof {
            if self.element_alignment > 0 {
                lemma_align_up_bounds(raw_end, self.element_alignment);
            }
        }
        let ghost old_attrs = self.attributes@;
        let attr = VertexAttribute::new(name, tuple_type, offset, size);
        self.attributes.push(attr);
        self.stride = align_up(offset + size, self.struct_alignment);
        proof {
            if self.struct_alignment > 0 {
                lemma_align_up_bounds((offset + size) as usize, self.struct_alignment);
            }
            let attrs = self.attributes@;
            assert(attrs =~= old_attrs.push(attrs[attrs.len() - 1]));
            assert forall|i: int| 0 <= i < attrs.len() - 1 implies attr_end(attrs[i])
                <= #[trigger] attrs[i + 1].offset by {
                if i < attrs.len() - 2 {
                    assert(attrs[i + 1] == old_attrs[i + 1]);
                }
            }
        }
        offset
    }

    /// Per-vertex stride in bytes.
    pub fn stride(&self) -> (s: usize)
        ensures
            s == self.spec_stride(),
    {
        self.stride
    }

    /// The attributes, in order.
    pub fn attributes(&self) -> (a: &[VertexAttribute])
        ensures
            a@ == self.spec_attributes(),
    {
        self.attributes.as_slice()
    }

    /// Number of vertices.
    pub fn vertex_count(&self) -> (n: usize)
        ensures
            n == self.spec_vertex_count(),
    {
        self.vertex_count
    }

    /// Sets the number of vertices.
    pub fn set_vertex_count(&mut self, count: usize)
        ensures
            final(self).spec_vertex_count() == count,
            final(self).spec_attributes() == old(self).spec_attributes(),
            final(self).spec_stride() == old(self).spec_stride(),
            final(self).spec_element_alignment() == old(self).spec_element_alignment(),
            final(self).spec_struct_alignment() == old(self).spec_struct_alignment(),
    {
        self.vertex_count = count;
    }

    /// Buffer size for all vertices.
    pub fn total_size(&self) -> (n: usize)
        requires
            self.spec_stride() * self.spec_vertex_count() <= usize::MAX,
        ensures
            n == self.spec_stride() * self.spec_vertex_count(),
    {
        self.stride * self.vertex_count
    }

    /// The first attribute with the given name.
    pub fn find_attribute(&self, name: &String) -> (a: Option<&VertexAttribute>)
        ensures
            match a {
                Some(attr) => exists|i: int|
                    0 <= i < self.spec_attributes().len() && self.spec_attributes()[i] == *attr
                        && attr.name@ == name@ && forall|j: int|
                        0 <= j < i ==> (#[trigger] self.spec_attributes()[j]).name@ != name@,
                None => forall|j: int|
                    0 <= j < self.spec_attributes().len() ==> (
                    #[trigger] self.spec_attributes()[j]).name@ != name@,
            },
    {
        let mut i: usize = 0;
        while i < self.attributes.len()
            invariant
                i <= self.attributes@.len(),
                forall|j: int| 0 <= j < i ==> (#[trigger] self.attributes@[j]).name@ != name@,
            decreases self.attributes.len() - i,
        {
            if self.attributes[i].name == *name {
                return Some(&self.attributes[i]);
            }
            i = i + 1;
        }
        None
    }
}

impl Default for InterleavedLayout {
    fn default() -> (l: Self)
        ensures
            l.spec_attributes().len() == 0,
            l.spec_stride() == 0,
            l.spec_vertex_count() == 0,
            l.spec_element_alignment() == ELEMENT_ALIGNMENT,
            l.spec_struct_alignment() == STRUCT_ALIGNMENT,
            l.wf(),
    {
        InterleavedLayout::new()
    }
}

} // verus!
