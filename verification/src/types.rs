//! Model of the LLVM type system, with textual rendering of each type as it
//! appears in LLVM IR.

use crate::text::{push_char, spec_decimal};
use vstd::prelude::*;

pub use crate::target::layout::AddressSpace;

verus! {

/// Represents the size of an integer type in bits; always strictly positive.
#[derive(Copy, Clone, Debug, PartialEq, Eq, Hash, PartialOrd, Ord, Structural)]
pub struct IntegerSize {
    bits: u32,
}

impl View for IntegerSize {
    type V = u32;

    closed spec fn view(&self) -> u32 {
        self.bits
    }
}

impl IntegerSize {
    #[verifier::type_invariant]
    spec fn positive(self) -> bool {
        self.bits > 0
    }

    /// The minimum size, one bit.
    pub fn min() -> (r: Self)
        ensures
            r@ == 1,
    {
        IntegerSize { bits: 1 }
    }

    /// Creates an integer size from a bit count, rejecting zero.
    pub fn new(bits: u32) -> (r: Option<Self>)
        ensures
            r is Some <==> bits > 0,
            r matches Some(s) ==> s@ == bits,
    {
        if bits > 0 {
            Some(IntegerSize { bits })
        } else {
            None
        }
    }

    /// Creates an integer size from a bit count already known to be non-zero.
    pub fn from_bits(bits: u32) -> (r: Self)
        requires
            bits > 0,
        ensures
            r@ == bits,
    {
        IntegerSize { bits }
    }

    /// Gets the size, in bits.
    pub fn bits(self) -> (r: u32)
        ensures
            r == self@,
            r > 0,
    {
        proof {
            use_type_invariant(&self);
        }
        self.bits
    }
}

/// Represents an integer type of an arbitrary bit width.
#[derive(Clone, Debug, PartialEq, Eq, Structural)]
pub enum Integer {
    /// A signed integer type.
    Signed(IntegerSize),
    /// An unsigned integer type.
    Unsigned(IntegerSize),
}

impl Integer {
    /// The size of the integer type.
    pub open spec fn spec_size(&self) -> IntegerSize {
        match self {
            Integer::Signed(size) => *size,
            Integer::Unsigned(size) => *size,
        }
    }

    /// Gets the size of the integer.
    pub fn size(&self) -> (r: IntegerSize)
        ensures
            r == self.spec_size(),
    {
        match self {
            Integer::Signed(size) => *size,
            Integer::Unsigned(size) => *size,
        }
    }
}

/// Represents a floating-point type.
#[derive(Copy, Clone, Debug, PartialEq, Eq, Structural)]
pub enum Float {
    /// 16-bit, IEEE-754 `binary16`.
    Half,
    /// 32-bit, IEEE-754 `binary32`.
    Float,
    /// 64-bit, IEEE-754 `binary64`.
    Double,
}

/// A pointer type.
#[derive(Debug, PartialEq, Eq)]
pub struct Pointer {
    pointee_type: Box<FirstClass>,
    address_space: AddressSpace,
}

impl Pointer {
    /// The type of object pointed to.
    pub closed spec fn spec_pointee(&self) -> FirstClass {
        *self.pointee_type
    }

    /// The address space of the pointer.
    pub closed spec fn spec_address_space(&self) -> AddressSpace {
        self.address_space
    }

    /// Creates a pointer type pointing to objects of a particular type in a
    /// particular address space.
    pub fn in_address_space(pointee_type: FirstClass, address_space: AddressSpace) -> (r: Self)
        ensures
            r.spec_pointee() == pointee_type,
            r.spec_address_space() == address_space,
    {
        Pointer { pointee_type: Box::new(pointee_type), address_space }
    }

    /// Creates a pointer type pointing to objects of a particular type, in
    /// the default address space.
    pub fn new(pointee_type: FirstClass) -> (r: Self)
        ensures
            r.spec_pointee() == pointee_type,
            r.spec_address_space() == AddressSpace(0),
    {
        Pointer::in_address_space(pointee_type, AddressSpace(0))
    }

    /// The type of object that is pointed to by the pointer type.
    pub fn pointee_type(&self) -> (r: &FirstClass)
        ensures
            *r == self.spec_pointee(),
    {
        &self.pointee_type
    }

    /// The address space of the pointer, indicating where the object pointed
    /// to resides.
    pub fn address_space(&self) -> (r: AddressSpace)
        ensures
            r == self.spec_address_space(),
    {
        self.address_space
    }
}

/// A vector of elements of a specified type; the element count is always
/// strictly positive.
#[derive(Debug, PartialEq, Eq)]
pub struct Vector {
    element_type: Box<FirstClass>,
    count: u32,
}

impl Vector {
    #[verifier::type_invariant]
    spec fn count_positive(self) -> bool {
        self.count > 0
    }

    /// The type of the vector's elements.
    pub closed spec fn spec_element(&self) -> FirstClass {
        *self.element_type
    }

    /// The number of elements.
    pub closed spec fn spec_count(&self) -> u32 {
        self.count
    }

    /// Creates a vector type containing a specified number of elements of a
    /// specified type.
    pub fn new(element_type: FirstClass, count: u32) -> (r: Self)
        requires
            count > 0,
        ensures
            r.spec_element() == element_type,
            r.spec_count() == count,
    {
        Vector { element_type: Box::new(element_type), count }
    }

    /// Gets the type of elements of this vector type.
    pub fn element_type(&self) -> (r: &FirstClass)
        ensures
            *r == self.spec_element(),
    {
        &self.element_type
    }

    /// Gets the number of elements, guaranteed to be greater than zero.
    pub fn count(&self) -> (r: u32)
        ensures
            r == self.spec_count(),
            r > 0,
    {
        proof {
            use_type_invariant(self);
        }
        self.count
    }
}

/// A subset of the types that are valid in registers.
#[derive(Debug, PartialEq, Eq)]
pub enum SingleValue {
    /// Fixed size integer type.
    Integer(Integer),
    /// Floating point type.
    Float(Float),
    /// A pointer type.
    Pointer(Pointer),
    /// A vector of elements of a specified size.
    Vector(Vector),
}

/// Describes the type of value returned by a function.
#[derive(Debug, PartialEq, Eq)]
pub enum ReturnType {
    /// A type representing no value.
    Void,
    /// A return type.
    FirstClass(FirstClass),
}

/// Represents a function type, which describes the return type and parameter
/// types of a function.
#[derive(Debug, PartialEq, Eq)]
pub struct Function {
    return_type: ReturnType,
    parameter_types: Vec<FirstClass>,
}

impl Function {
    /// The return type.
    pub closed spec fn spec_return_type(&self) -> ReturnType {
        self.return_type
    }

    /// The parameter types, in order.
    pub closed spec fn spec_parameter_types(&self) -> Seq<FirstClass> {
        self.parameter_types@
    }

    /// Creates a function type.
    pub fn new(return_type: ReturnType, parameter_types: Vec<FirstClass>) -> (r: Self)
        ensures
            r.spec_return_type() == return_type,
            r.spec_parameter_types() == parameter_types@,
    {
        Function { return_type, parameter_types }
    }

    /// Gets the return type.
    pub fn return_type(&self) -> (r: &ReturnType)
        ensures
            *r == self.spec_return_type(),
    {
        &self.return_type
    }

    /// Gets the types of the parameters.
    pub fn parameter_types(&self) -> (r: &Vec<FirstClass>)
        ensures
            r@ == self.spec_parameter_types(),
    {
        &self.parameter_types
    }
}

/// A type containing a fixed number of elements that are sequentially
/// arranged in memory.
#[derive(Debug, PartialEq, Eq)]
pub struct Array {
    element_type: Box<FirstClass>,
    count: u32,
}

impl Array {
    /// The type of the array's elements.
    pub closed spec fn spec_element(&self) -> FirstClass {
        *self.element_type
    }

    /// The number of elements.
    pub closed spec fn spec_count(&self) -> u32 {
        self.count
    }

    /// Creates an array type containing a specified number of elements of a
    /// specified type.
    pub fn new(element_type: FirstClass, count: u32) -> (r: Self)
        ensures
            r.spec_element() == element_type,
            r.spec_count() == count,
    {
        Array { element_type: Box::new(element_type), count }
    }

    /// Gets the type of elements of this array type.
    pub fn element_type(&self) -> (r: &FirstClass)
        ensures
            *r == self.spec_element(),
    {
        &self.element_type
    }

    /// Gets the number of elements for this array type.
    pub fn count(&self) -> (r: u32)
        ensures
            r == self.spec_count(),
    {
        self.count
    }
}

/// Structure types contain members, which each have their own types.
#[derive(Debug, PartialEq, Eq)]
pub struct Struct {
    packed: bool,
    member_types: Vec<FirstClass>,
}

impl Struct {
    /// Whether the structure is packed.
    pub closed spec fn spec_is_packed(&self) -> bool {
        self.packed
    }

    /// The member types, in order.
    pub closed spec fn spec_member_types(&self) -> Seq<FirstClass> {
        self.member_types@
    }

    /// Creates a struct with the specified members.
    pub fn new(member_types: Vec<FirstClass>, packed: bool) -> (r: Self)
        ensures
            r.spec_member_types() == member_types@,
            r.spec_is_packed() == packed,
    {
        Struct { packed, member_types }
    }

    /// Gets a value indicating if the struct type is packed.
    pub fn is_packed(&self) -> (r: bool)
        ensures
            r == self.spec_is_packed(),
    {
        self.packed
    }

    /// Gets the types of each member.
    pub fn member_types(&self) -> (r: &Vec<FirstClass>)
        ensures
            r@ == self.spec_member_types(),
    {
        &self.member_types
    }
}

/// Aggregate types represent types that contain multiple members.
///
/// Note that vector types are not aggregate types.
#[derive(Debug, PartialEq, Eq)]
pub enum Aggregate {
    /// An array type containing a specific number of elements.
    Array(Array),
    /// A structure type.
    Struct(Struct),
}

/// Values of first class types are the only ones that can be produced by
/// instructions.
#[derive(Debug, PartialEq, Eq)]
pub enum FirstClass {
    /// A type whose values fit in a register.
    Single(SingleValue),
    /// A type that contains multiple members.
    Aggregate(Aggregate),
}

/// How an integer type is written in LLVM IR: `i` or `u` and the bit width.
pub open spec fn spec_integer_str(t: Integer) -> Seq<char> {
    match t {
        Integer::Signed(size) => seq!['i'] + spec_decimal(size@ as nat),
        Integer::Unsigned(size) => seq!['u'] + spec_decimal(size@ as nat),
    }
}

/// How a floating-point type is written in LLVM IR.
pub open spec fn spec_float_str(t: Float) -> Seq<char> {
    match t {
        Float::Half => "half"@,
        Float::Float => "float"@,
        Float::Double => "double"@,
    }
}

/// How a pointer type is written: the pointee, the address space when it is
/// not the default one, and a `*`.
pub closed spec fn spec_pointer_str(t: Pointer) -> Seq<char>
    decreases t, 0int,
{
    spec_first_class_str(*t.pointee_type) + (if t.address_space.0 != 0 {
        " addrspace("@ + spec_decimal(t.address_space.0 as nat) + ")"@
    } else {
        Seq::empty()
    }) + seq!['*']
}

/// How a vector type is written: the element count and the element type.
pub closed spec fn spec_vector_str(t: Vector) -> Seq<char>
    decreases t, 0int,
{
    seq!['<'] + spec_decimal(t.count as nat) + " x "@ + spec_first_class_str(*t.element_type)
        + seq!['>']
}

/// How a single-value type is written in LLVM IR.
pub open spec fn spec_single_value_str(t: SingleValue) -> Seq<char>
    decreases t, 0int,
{
    match t {
        SingleValue::Integer(integer) => spec_integer_str(integer),
        SingleValue::Float(float) => spec_float_str(float),
        SingleValue::Pointer(pointer) => spec_pointer_str(pointer),
        SingleValue::Vector(vector) => spec_vector_str(vector),
    }
}

/// How a return type is written in LLVM IR.
pub open spec fn spec_return_type_str(t: ReturnType) -> Seq<char>
    decreases t, 0int,
{
    match t {
        ReturnType::Void => "void"@,
        ReturnType::FirstClass(inner) => spec_first_class_str(inner),
    }
}

/// How a comma-separated list of types is written, from position `i` on.
pub open spec fn spec_type_list_str(ts: Seq<FirstClass>, i: int) -> Seq<char>
    decreases ts, (ts.len() - i),
{
    if !(0 <= i < ts.len()) {
        Seq::empty()
    } else {
        (if i > 0 {
            ", "@
        } else {
            Seq::<char>::empty()
        }) + spec_first_class_str(ts[i]) + spec_type_list_str(ts, i + 1)
    }
}

/// How a function type is written: the return type and the parenthesized
/// parameter list.
pub closed spec fn spec_function_type_str(t: Function) -> Seq<char>
    decreases t, 0int,
{
    spec_return_type_str(t.return_type) + " ("@ + spec_type_list_str(t.parameter_types@, 0)
        + seq![')']
}

/// How an array type is written: the element count and the element type.
pub closed spec fn spec_array_str(t: Array) -> Seq<char>
    decreases t, 0int,
{
    seq!['['] + spec_decimal(t.count as nat) + " x "@ + spec_first_class_str(*t.element_type)
        + seq![']']
}

/// How a structure type is written: its members between braces, marked at
/// both ends when the structure is packed.
pub closed spec fn spec_struct_str(t: Struct) -> Seq<char>
    decreases t, 0int,
{
    (if t.packed {
        seq!['>']
    } else {
        Seq::<char>::empty()
    }) + "{ "@ + spec_type_list_str(t.member_types@, 0) + "} "@ + (if t.packed {
        seq!['>']
    } else {
        Seq::<char>::empty()
    })
}

/// How an aggregate type is written in LLVM IR.
pub open spec fn spec_aggregate_str(t: Aggregate) -> Seq<char>
    decreases t, 0int,
{
    match t {
        Aggregate::Array(array) => spec_array_str(array),
        Aggregate::Struct(structure) => spec_struct_str(structure),
    }
}

/// How a first-class type is written in LLVM IR.
pub open spec fn spec_first_class_str(t: FirstClass) -> Seq<char>
    decreases t, 0int,
{
    match t {
        FirstClass::Single(single) => spec_single_value_str(single),
        FirstClass::Aggregate(aggregate) => spec_aggregate_str(aggregate),
    }
}

impl Integer {
    /// Writes the type as it appears in LLVM IR.
    pub fn ir_string(&self) -> (r: String)
        ensures
            r@ == spec_integer_str(*self),
    {
        let mut r = String::new();
        match self {
            Integer::Signed(size) => {
                push_char(&mut r, 'i');
                crate::text::append_decimal(&mut r, size.bits() as u64);
            },
            Integer::Unsigned(size) => {
                push_char(&mut r, 'u');
                crate::text::append_decimal(&mut r, size.bits() as u64);
            },
        }
        assert(r@ =~= spec_integer_str(*self));
        r
    }
}

impl Float {
    /// Writes the type as it appears in LLVM IR.
    pub fn ir_string(&self) -> (r: String)
        ensures
            r@ == spec_float_str(*self),
    {
        match self {
            Float::Half => "half".to_owned(),
            Float::Float => "float".to_owned(),
            Float::Double => "double".to_owned(),
        }
    }
}

impl Pointer {
    /// Writes the type as it appears in LLVM IR.
    pub fn ir_string(&self) -> (r: String)
        ensures
            r@ == spec_pointer_str(*self),
        decreases *self, 1int,
    {
        let mut r = self.pointee_type.ir_string();
        if self.address_space.0 != 0 {
            r.append(" addrspace(");
            crate::text::append_decimal(&mut r, self.address_space.0 as u64);
            r.append(")");
        }
        push_char(&mut r, '*');
        assert(r@ =~= spec_pointer_str(*self));
        r
    }
}

impl Vector {
    /// Writes the type as it appears in LLVM IR.
    pub fn ir_string(&self) -> (r: String)
        ensures
            r@ == spec_vector_str(*self),
        decreases *self, 1int,
    {
        let mut r = String::new();
        push_char(&mut r, '<');
        crate::text::append_decimal(&mut r, self.count() as u64);
        r.append(" x ");
        let element = self.element_type.ir_string();
        r.append(element.as_str());
        push_char(&mut r, '>');
        assert(r@ =~= spec_vector_str(*self));
        r
    }
}

impl SingleValue {
    /// Writes the type as it appears in LLVM IR.
    pub fn ir_string(&self) -> (r: String)
        ensures
            r@ == spec_single_value_str(*self),
        decreases *self, 1int,
    {
        match self {
            SingleValue::Integer(integer) => integer.ir_string(),
            SingleValue::Float(float) => float.ir_string(),
            SingleValue::Pointer(pointer) => pointer.ir_string(),
            SingleValue::Vector(vector) => vector.ir_string(),
        }
    }
}

impl ReturnType {
    /// Writes the type as it appears in LLVM IR.
    pub fn ir_string(&self) -> (r: String)
        ensures
            r@ == spec_return_type_str(*self),
        decreases *self, 1int,
    {
        match self {
            ReturnType::Void => "void".to_owned(),
            ReturnType::FirstClass(inner) => inner.ir_string(),
        }
    }
}

/// Writes a comma-separated list of types as they appear in LLVM IR.
pub fn type_list_ir_string(ts: &Vec<FirstClass>) -> (r: String)
    ensures
        r@ == spec_type_list_str(ts@, 0),
    decreases ts@, 1int,
{
    let n = ts.len();
    let mut r = String::new();
    let mut i: usize = 0;
    while i < n
        invariant
            i <= n,
            n == ts@.len(),
            r@ + spec_type_list_str(ts@, i as int) == spec_type_list_str(ts@, 0),
        decreases n - i,
    {
        let ghost prev = r@;
        if i > 0 {
            r.append(", ");
        }
        let piece = ts[i].ir_string();
        r.append(piece.as_str());
        proof {
            assert(r@ + spec_type_list_str(ts@, i as int + 1) =~= prev + spec_type_list_str(
                ts@,
                i as int,
            ));
        }
        i = i + 1;
    }
    assert(r@ =~= r@ + spec_type_list_str(ts@, n as int));
    r
}

impl Function {
    /// Writes the type as it appears in LLVM IR.
    pub fn ir_string(&self) -> (r: String)
        ensures
            r@ == spec_function_type_str(*self),
        decreases *self, 2int,
    {
        let mut r = self.return_type.ir_string();
        r.append(" (");
        let list = type_list_ir_string(&self.parameter_types);
        r.append(list.as_str());
        push_char(&mut r, ')');
        assert(r@ =~= spec_function_type_str(*self));
        r
    }
}

impl Array {
    /// Writes the type as it appears in LLVM IR.
    pub fn ir_string(&self) -> (r: String)
        ensures
            r@ == spec_array_str(*self),
        decreases *self, 1int,
    {
        let mut r = String::new();
        push_char(&mut r, '[');
        crate::text::append_decimal(&mut r, self.count as u64);
        r.append(" x ");
        let element = self.element_type.ir_string();
        r.append(element.as_str());
        push_char(&mut r, ']');
        assert(r@ =~= spec_array_str(*self));
        r
    }
}

impl Struct {
    /// Writes the type as it appears in LLVM IR.
    pub fn ir_string(&self) -> (r: String)
        ensures
            r@ == spec_struct_str(*self),
        decreases *self, 2int,
    {
        let mut r = String::new();
        if self.packed {
            push_char(&mut r, '>');
        }
        r.append("{ ");
        let list = type_list_ir_string(&self.member_types);
        r.append(list.as_str());
        r.append("} ");
        if self.packed {
            push_char(&mut r, '>');
        }
        assert(r@ =~= spec_struct_str(*self));
        r
    }
}

impl Aggregate {
    /// Writes the type as it appears in LLVM IR.
    pub fn ir_string(&self) -> (r: String)
        ensures
            r@ == spec_aggregate_str(*self),
        decreases *self, 1int,
    {
        match self {
            Aggregate::Array(array) => array.ir_string(),
            Aggregate::Struct(structure) => structure.ir_string(),
        }
    }
}

impl FirstClass {
    /// Writes the type as it appears in LLVM IR.
    pub fn ir_string(&self) -> (r: String)
        ensures
            r@ == spec_first_class_str(*self),
        decreases *self, 2int,
    {
        match self {
            FirstClass::Single(single) => single.ir_string(),
            FirstClass::Aggregate(aggregate) => aggregate.ir_string(),
        }
    }
}

} // verus!
