//! Vertex attribute layouts: per-attribute byte sizes, offsets and stride.
use vstd::prelude::*;

verus! {

/// GL enum for 32-bit float components.
pub const GL_FLOAT: u32 = 0x1406;

/// GL enum for 32-bit signed integer components.
pub const GL_INT: u32 = 0x1404;

/// GL enum for boolean components.
pub const GL_BOOL: u32 = 0x8B56;

/// The semantic type of one vertex attribute.
#[derive(Clone, Copy, Debug, PartialEq, Eq, Structural)]
pub enum ShaderDataType {
    Float1,
    Float2,
    Float3,
    Float4,
    Matrix3,
    Matrix4,
    Integer1,
    Integer2,
    Integer3,
    Integer4,
    Boolean,
}

/// Byte size of one attribute of type `t`.
pub open spec fn type_size(t: ShaderDataType) -> int {
    match t {
        ShaderDataType::Float1 => 4,
        ShaderDataType::Float2 => 8,
        ShaderDataType::Float3 => 12,
        ShaderDataType::Float4 => 16,
        ShaderDataType::Matrix3 => 36,
        ShaderDataType::Matrix4 => 64,
        ShaderDataType::Integer1 => 4,
        ShaderDataType::Integer2 => 8,
        ShaderDataType::Integer3 => 12,
        ShaderDataType::Integer4 => 16,
        ShaderDataType::Boolean => 1,
    }
}

/// Number of scalar components in one attribute of type `t`.
pub open spec fn component_count(t: ShaderDataType) -> int {
    match t {
        ShaderDataType::Float1 => 1,
        ShaderDataType::Float2 => 2,
        ShaderDataType::Float3 => 3,
        ShaderDataType::Float4 => 4,
        ShaderDataType::Matrix3 => 9,
        ShaderDataType::Matrix4 => 16,
        ShaderDataType::Integer1 => 1,
        ShaderDataType::Integer2 => 2,
        ShaderDataType::Integer3 => 3,
        ShaderDataType::Integer4 => 4,
        ShaderDataType::Boolean => 1,
    }
}

/// GL component type of an attribute of type `t`.
pub open spec fn gl_type(t: ShaderDataType) -> u32 {
    match t {
        ShaderDataType::Integer1 | ShaderDataType::Integer2 | ShaderDataType::Integer3
        | ShaderDataType::Integer4 => GL_INT,
        ShaderDataType::Boolean => GL_BOOL,
        _ => GL_FLOAT,
    }
}

/// Total byte size of the first `n` attributes of `types`: the offset of
/// attribute `n`, and for `n == types.len()` the stride.
pub open spec fn prefix_size(types: Seq<ShaderDataType>, n: int) -> int
    decreases n,
{
    if n <= 0 {
        0
    } else {
        prefix_size(types, n - 1) + type_size(types[n - 1])
    }
}

/// Byte size of one vertex laid out with `types`.
pub open spec fn stride_of(types: Seq<ShaderDataType>) -> int {
    prefix_size(types, types.len() as int)
}

/// Every attribute type takes at least one byte.
pub proof fn lemma_type_size_positive(t: ShaderDataType)
    ensures
        1 <= type_size(t) <= 64,
{
}

/// Prefix sizes never decrease and never drop below zero.
pub proof fn lemma_prefix_size_monotonic(types: Seq<ShaderDataType>, i: int, j: int)
    requires
        0 <= i <= j <= types.len(),
    ensures
        0 <= prefix_size(types, i) <= prefix_size(types, j),
    decreases j - i,
{
    if i < j {
        lemma_prefix_size_monotonic(types, i, j - 1);
        lemma_type_size_positive(types[j - 1]);
    } else {
        lemma_prefix_size_nonnegative(types, i);
    }
}

proof fn lemma_prefix_size_nonnegative(types: Seq<ShaderDataType>, n: int)
    ensures
        0 <= prefix_size(types, n),
    decreases n,
{
    if n > 0 {
        lemma_prefix_size_nonnegative(types, n - 1);
        lemma_type_size_positive(types[n - 1]);
    }
}

/// Attribute offsets start at zero, strictly increase, and the last attribute
/// ends exactly at the stride, which is the sum of all attribute sizes.
pub proof fn lemma_offsets_strictly_increase(types: Seq<ShaderDataType>)
    ensures
        prefix_size(types, 0) == 0,
        forall|i: int, j: int|
            0 <= i < j <= types.len() ==> #[trigger] prefix_size(types, i) < #[trigger] prefix_size(
                types,
                j,
            ),
        types.len() > 0 ==> stride_of(types) == prefix_size(types, types.len() - 1) + type_size(
            types.last(),
        ),
{
    assert forall|i: int, j: int| 0 <= i < j <= types.len() implies #[trigger] prefix_size(
        types,
        i,
    ) < #[trigger] prefix_size(types, j) by {
        lemma_prefix_size_monotonic(types, i, j - 1);
        lemma_type_size_positive(types[j - 1]);
    }
}

/// Byte size of one attribute of type `data_type`.
pub fn get_shader_data_type_size(data_type: ShaderDataType) -> (r: i32)
    ensures
        r == type_size(data_type),
{
    match data_type {
        ShaderDataType::Float1 => 4,
        ShaderDataType::Float2 => 4 * 2,
        ShaderDataType::Float3 => 4 * 3,
        ShaderDataType::Float4 => 4 * 4,
        ShaderDataType::Matrix3 => 4 * 3 * 3,
        ShaderDataType::Matrix4 => 4 * 4 * 4,
        ShaderDataType::Integer1 => 4,
        ShaderDataType::Integer2 => 4 * 2,
        ShaderDataType::Integer3 => 4 * 3,
        ShaderDataType::Integer4 => 4 * 4,
        ShaderDataType::Boolean => 1,
    }
}

/// GL component type (`GL_FLOAT`, `GL_INT` or `GL_BOOL`) of `data_type`.
pub fn to_opengl_type(data_type: ShaderDataType) -> (r: u32)
    ensures
        r == gl_type(data_type),
{
    match data_type {
        ShaderDataType::Float1 => GL_FLOAT,
        ShaderDataType::Float2 => GL_FLOAT,
        ShaderDataType::Float3 => GL_FLOAT,
        ShaderDataType::Float4 => GL_FLOAT,
        ShaderDataType::Matrix3 => GL_FLOAT,
        ShaderDataType::Matrix4 => GL_FLOAT,
        ShaderDataType::Integer1 => GL_INT,
        ShaderDataType::Integer2 => GL_INT,
        ShaderDataType::Integer3 => GL_INT,
        ShaderDataType::Integer4 => GL_INT,
        ShaderDataType::Boolean => GL_BOOL,
    }
}

/// What a `BufferElement` holds.
pub struct ElementModel {
    pub name: Seq<char>,
    pub data_type: ShaderDataType,
    pub normalized: bool,
    pub size: int,
    pub offset: int,
}

/// One named vertex attribute, with its byte size and its offset in a layout.
pub struct BufferElement {
    name: String,
    offset: i32,
    size: i32,
    data_type: ShaderDataType,
    normalized: bool,
}

impl View for BufferElement {
    type V = ElementModel;

    closed spec fn view(&self) -> ElementModel {
        ElementModel {
            name: self.name@,
            data_type: self.data_type,
            normalized: self.normalized,
            size: self.size as int,
            offset: self.offset as int,
        }
    }
}

/// The attribute types of a sequence of elements, in order.
pub open spec fn element_types(elements: Seq<BufferElement>) -> Seq<ShaderDataType> {
    elements.map_values(|e: BufferElement| e@.data_type)
}

impl BufferElement {
    /// An attribute not yet placed in a layout: its size follows from its
    /// type and its offset is zero.
    pub fn new(name: String, data_type: ShaderDataType, normalized: bool) -> (r: BufferElement)
        ensures
            r@ == (ElementModel {
                name: name@,
                data_type,
                normalized,
                size: type_size(data_type),
                offset: 0,
            }),
    {
        BufferElement {
            name,
            data_type,
            size: get_shader_data_type_size(data_type),
            normalized,
            offset: 0,
        }
    }

    /// Number of scalar components of this attribute.
    pub fn get_component_count(&self) -> (r: i32)
        ensures
            r == component_count(self@.data_type),
    {
        match self.data_type {
            ShaderDataType::Float1 => 1,
            ShaderDataType::Float2 => 2,
            ShaderDataType::Float3 => 3,
            ShaderDataType::Float4 => 4,
            ShaderDataType::Matrix3 => 3 * 3,
            ShaderDataType::Matrix4 => 4 * 4,
            ShaderDataType::Integer1 => 1,
            ShaderDataType::Integer2 => 2,
            ShaderDataType::Integer3 => 3,
            ShaderDataType::Integer4 => 4,
            ShaderDataType::Boolean => 1,
        }
    }

    pub fn name(&self) -> (r: &str)
        ensures
            r@ == self@.name,
    {
        self.name.as_str()
    }

    pub fn offset(&self) -> (r: i32)
        ensures
            r == self@.offset,
    {
        self.offset
    }

    pub fn size(&self) -> (r: i32)
        ensures
            r == self@.size,
    {
        self.size
    }

    pub fn data_type(&self) -> (r: ShaderDataType)
        ensures
            r == self@.data_type,
    {
        self.data_type
    }

    pub fn normalized(&self) -> (r: bool)
        ensures
            r == self@.normalized,
    {
        self.normalized
    }
}

/// An ordered list of attributes with computed offsets, and the stride of one
/// vertex.
pub struct BufferLayout {
    elements: Vec<BufferElement>,
    stride: i32,
}

/// `elements` are `input` placed one after the other: same names, types and
/// flags, sizes from the types, each offset the sum of the sizes before it.
pub open spec fn placed(input: Seq<BufferElement>, elements: Seq<BufferElement>) -> bool {
    &&& elements.len() == input.len()
    &&& forall|i: int|
        0 <= i < input.len() ==> {
            let e = #[trigger] elements[i]@;
            &&& e.name == input[i]@.name
            &&& e.data_type == input[i]@.data_type
            &&& e.normalized == input[i]@.normalized
            &&& e.size == type_size(input[i]@.data_type)
            &&& e.offset == prefix_size(element_types(input), i)
        }
}

impl BufferLayout {
    /// Places `elements` one after the other and computes the stride.
    pub fn new(elements: Vec<BufferElement>) -> (r: BufferLayout)
        requires
            stride_of(element_types(elements@)) <= i32::MAX,
        ensures
            placed(elements@, r.spec_elements()),
            r.spec_stride() == stride_of(element_types(elements@)),
    {
        let ghost types = element_types(elements@);
        let mut placed_elements: Vec<BufferElement> = Vec::new();
        let mut offset: i32 = 0;
        let mut i: usize = 0;
        while i < elements.len()
            invariant
                i <= elements.len(),
                types == element_types(elements@),
                stride_of(types) <= i32::MAX,
                offset == prefix_size(types, i as int),
                placed(elements@.take(i as int), placed_elements@),
            decreases elements.len() - i,
        {
            let e = &elements[i];
            let size = get_shader_data_type_size(e.data_type);
            proof {
                lemma_prefix_size_monotonic(types, i as int + 1, types.len() as int);
                lemma_prefix_size_nonnegative(types, i as int);
                assert(types[i as int] == e.data_type);
            }
            placed_elements.push(
                BufferElement {
                    name: e.name.clone(),
                    offset,
                    size,
                    data_type: e.data_type,
                    normalized: e.normalized,
                },
            );
            offset = offset + size;
            i = i + 1;
            proof {
                let prev = elements@.take(i as int - 1);
                let cur = elements@.take(i as int);
                assert(element_types(prev) == types.take(i as int - 1));
                assert(element_types(cur) == types.take(i as int));
                lemma_prefix_size_take(types, i as int - 1, i as int - 1);
                lemma_prefix_size_take(types, i as int, i as int - 1);
                assert forall|k: int| 0 <= k < i implies {
                    let e = #[trigger] placed_elements@[k]@;
                    &&& e.name == cur[k]@.name
                    &&& e.data_type == cur[k]@.data_type
                    &&& e.normalized == cur[k]@.normalized
                    &&& e.size == type_size(cur[k]@.data_type)
                    &&& e.offset == prefix_size(element_types(cur), k)
                } by {
                    lemma_prefix_size_take(types, i as int, k);
                    if k < i - 1 {
                        lemma_prefix_size_take(types, i as int - 1, k);
                    }
                }
            }
        }
        proof {
            assert(elements@.take(i as int) == elements@);
        }
        BufferLayout { elements: placed_elements, stride: offset }
    }

    pub closed spec fn spec_elements(&self) -> Seq<BufferElement> {
        self.elements@
    }

    pub closed spec fn spec_stride(&self) -> int {
        self.stride as int
    }

    /// The placed attributes, in order.
    pub fn elements(&self) -> (r: &Vec<BufferElement>)
        ensures
            r@ == self.spec_elements(),
    {
        &self.elements
    }

    /// Byte size of one vertex.
    pub fn stride(&self) -> (r: i32)
        ensures
            r == self.spec_stride(),
    {
        self.stride
    }
}

/// Sum of the byte sizes of `elements`.
pub open spec fn sizes_sum(elements: Seq<BufferElement>) -> int
    decreases elements.len(),
{
    if elements.len() == 0 {
        0
    } else {
        sizes_sum(elements.drop_last()) + elements.last()@.size
    }
}

/// For any attribute list laid out by `BufferLayout::new`: the stride is the
/// sum of the attributes' sizes, the first offset is zero, and offsets
/// strictly increase.
pub proof fn lemma_layout_offsets_and_stride(
    input: Seq<BufferElement>,
    elements: Seq<BufferElement>,
    stride: int,
)
    requires
        placed(input, elements),
        stride == stride_of(element_types(input)),
    ensures
        stride == sizes_sum(elements),
        elements.len() > 0 ==> elements[0]@.offset == 0,
        forall|i: int, j: int|
            0 <= i < j < elements.len() ==> #[trigger] elements[i]@.offset < #[trigger] elements[j]@.offset,
{
    let types = element_types(input);
    lemma_offsets_strictly_increase(types);
    assert forall|i: int, j: int| 0 <= i < j < elements.len() implies #[trigger] elements[i]@.offset
        < #[trigger] elements[j]@.offset by {
        assert(prefix_size(types, i) < prefix_size(types, j));
    }
    lemma_sizes_sum_prefix(input, elements, elements.len() as int);
    assert(elements.take(elements.len() as int) == elements);
}

proof fn lemma_sizes_sum_prefix(input: Seq<BufferElement>, elements: Seq<BufferElement>, n: int)
    requires
        placed(input, elements),
        0 <= n <= elements.len(),
    ensures
        sizes_sum(elements.take(n)) == prefix_size(element_types(input), n),
    decreases n,
{
    if n > 0 {
        lemma_sizes_sum_prefix(input, elements, n - 1);
        assert(elements.take(n).drop_last() == elements.take(n - 1));
        assert(elements.take(n).last() == elements[n - 1]);
    }
}

/// The arguments of one GL vertex attribute pointer.
#[derive(Clone, Copy, Debug, PartialEq, Eq, Structural)]
pub struct AttributePointer {
    pub index: u32,
    pub component_count: i32,
    pub gl_type: u32,
    pub normalized: bool,
    pub stride: i32,
    pub offset: i32,
}

/// The pointer that describes attribute `index` of a layout with `stride`.
pub open spec fn pointer_for(e: ElementModel, index: int, stride: int) -> AttributePointer {
    AttributePointer {
        index: index as u32,
        component_count: component_count(e.data_type) as i32,
        gl_type: gl_type(e.data_type),
        normalized: e.normalized,
        stride: stride as i32,
        offset: e.offset as i32,
    }
}

impl BufferLayout {
    /// One attribute pointer per element, in order: location `i` reads
    /// element `i` at its offset, with the layout's stride.
    pub fn attribute_pointers(&self) -> (r: Vec<AttributePointer>)
        requires
            self.spec_elements().len() <= u32::MAX,
        ensures
            r@.len() == self.spec_elements().len(),
            forall|i: int|
                0 <= i < r@.len() ==> #[trigger] r@[i] == pointer_for(
                    self.spec_elements()[i]@,
                    i,
                    self.spec_stride(),
                ),
    {
        let mut pointers: Vec<AttributePointer> = Vec::new();
        let mut i: usize = 0;
        while i < self.elements.len()
            invariant
                i <= self.elements@.len() <= u32::MAX,
                pointers@.len() == i,
                forall|j: int|
                    0 <= j < i ==> #[trigger] pointers@[j] == pointer_for(
                        self.elements@[j]@,
                        j,
                        self.stride as int,
                    ),
            decreases self.elements@.len() - i,
        {
            let e = &self.elements[i];
            pointers.push(
                AttributePointer {
                    index: i as u32,
                    component_count: e.get_component_count(),
                    gl_type: to_opengl_type(e.data_type),
                    normalized: e.normalized,
                    stride: self.stride,
                    offset: e.offset,
                },
            );
            i = i + 1;
        }
        pointers
    }
}

/// The prefix sizes of a sequence agree with those of any longer prefix of it.
proof fn lemma_prefix_size_take(types: Seq<ShaderDataType>, n: int, k: int)
    requires
        0 <= k <= n <= types.len(),
    ensures
        prefix_size(types.take(n), k) == prefix_size(types, k),
    decreases k,
{
    if k > 0 {
        lemma_prefix_size_take(types, n, k - 1);
    }
}

} // verus!
