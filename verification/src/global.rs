//! Global values of a module: function definitions, together with their
//! linkage and calling conventions.

use crate::block::{spec_block_str, BasicBlock};
use crate::identifier::{spec_valid_identifier, Id, Identifier};
use crate::text::push_char;
use crate::types;
use vstd::prelude::*;

verus! {

/// Describes how global variables or functions are linked.
#[derive(Copy, Clone, Debug, PartialEq, Eq, Structural)]
pub enum Linkage {
    /// Accessible only to the current module; symbols are renamed as needed
    /// to avoid collisions.
    Private,
    /// Similar to private, but the value shows up as a local symbol.
    Internal,
    /// The global is an external definition.
    AvailableExternally,
    /// Merged with globals of the same name.
    LinkOnce,
    /// Similar to `linkonce`, except that unreferenced globals may not be
    /// discarded.
    Weak,
    /// Similar to `weak`; functions and aliases may not have this linkage.
    Common,
    /// Only for global variables of pointer-to-array type; used to append
    /// global arrays together.
    Appending,
    /// The symbol is weak until linked; if not linked, it becomes null.
    ExternWeak,
    /// Similar to `linkonce`, except that equivalent globals are merged.
    LinkOnceODR,
    /// Similar to `weak`, except that equivalent globals are merged.
    WeakODR,
    /// The global is externally visible.
    External,
}

impl Default for Linkage {
    /// The default linkage, externally visible.
    fn default() -> (r: Self)
        ensures
            r == Linkage::External,
    {
        Linkage::External
    }
}

/// How a linkage is written in LLVM IR.
pub open spec fn spec_linkage_str(l: Linkage) -> Seq<char> {
    match l {
        Linkage::Private => "private"@,
        Linkage::Internal => "internal"@,
        Linkage::AvailableExternally => "available_externally"@,
        Linkage::LinkOnce => "linkonce"@,
        Linkage::Weak => "weak"@,
        Linkage::Common => "common"@,
        Linkage::Appending => "appending"@,
        Linkage::ExternWeak => "extern_weak"@,
        Linkage::LinkOnceODR => "linkonce_odr"@,
        Linkage::WeakODR => "weak_odr"@,
        Linkage::External => "external"@,
    }
}

impl Linkage {
    /// Writes the linkage as it appears in LLVM IR.
    pub fn ir_string(&self) -> (r: String)
        ensures
            r@ == spec_linkage_str(*self),
    {
        match self {
            Linkage::Private => "private".to_owned(),
            Linkage::Internal => "internal".to_owned(),
            Linkage::AvailableExternally => "available_externally".to_owned(),
            Linkage::LinkOnce => "linkonce".to_owned(),
            Linkage::Weak => "weak".to_owned(),
            Linkage::Common => "common".to_owned(),
            Linkage::Appending => "appending".to_owned(),
            Linkage::ExternWeak => "extern_weak".to_owned(),
            Linkage::LinkOnceODR => "linkonce_odr".to_owned(),
            Linkage::WeakODR => "weak_odr".to_owned(),
            Linkage::External => "external".to_owned(),
        }
    }
}

/// Well-known calling conventions used by functions.
#[derive(Copy, Clone, Debug, Eq)]
pub enum CallingConvention {
    /// The target platform's C calling conventions.
    C,
    /// Makes calls as fast as possible, allowing tail-call optimization.
    Fast,
    /// Makes code in the caller as efficient as possible, for calls that are
    /// not commonly executed.
    Cold,
    /// Used by the Glasgow Haskell Compiler: everything is passed in
    /// registers.
    GHC,
    /// Used by the High-Performance Erlang compiler.
    HiPE,
    /// Used by the WebKit FTL JIT compiler for JavaScript.
    WebKitJS,
    /// Supports patching an arbitrary code sequence in place of the call.
    AnyReg,
    /// Makes code in the caller as unintrusive as possible.
    PreserveMost,
    /// A more powerful version of `preserve_most`.
    PreserveAll,
    /// Used by the Clang compiler for access functions to C++-style TLS.
    CxxFastTLS,
    /// The calling convention of the Swift programming language.
    Swift,
    /// A custom calling convention; target-specific conventions start at 64.
    Custom(u32),
}

impl Default for CallingConvention {
    /// The default calling convention, the C convention.
    fn default() -> (r: Self)
        ensures
            r == CallingConvention::C,
    {
        CallingConvention::C
    }
}

/// The integer value that identifies a calling convention.
pub open spec fn spec_calling_convention_value(c: CallingConvention) -> u32 {
    match c {
        CallingConvention::C => 0,
        CallingConvention::Fast => 8,
        CallingConvention::Cold => 9,
        CallingConvention::GHC => 10,
        CallingConvention::HiPE => 11,
        CallingConvention::WebKitJS => 12,
        CallingConvention::AnyReg => 13,
        CallingConvention::PreserveMost => 14,
        CallingConvention::PreserveAll => 15,
        CallingConvention::Swift => 16,
        CallingConvention::CxxFastTLS => 17,
        CallingConvention::Custom(value) => value,
    }
}

impl CallingConvention {
    /// Gets an integer value indicating the calling convention.
    pub fn value(self) -> (r: u32)
        ensures
            r == spec_calling_convention_value(self),
    {
        match self {
            CallingConvention::C => 0,
            CallingConvention::Fast => 8,
            CallingConvention::Cold => 9,
            CallingConvention::GHC => 10,
            CallingConvention::HiPE => 11,
            CallingConvention::WebKitJS => 12,
            CallingConvention::AnyReg => 13,
            CallingConvention::PreserveMost => 14,
            CallingConvention::PreserveAll => 15,
            CallingConvention::Swift => 16,
            CallingConvention::CxxFastTLS => 17,
            CallingConvention::Custom(value) => value,
        }
    }
}

impl PartialEq for CallingConvention {
    /// Two calling conventions are the same exactly when their identifying
    /// integer values are the same.
    fn eq(&self, other: &Self) -> (r: bool) {
        self.value() == other.value()
    }
}

impl vstd::std_specs::cmp::PartialEqSpecImpl for CallingConvention {
    open spec fn obeys_eq_spec() -> bool {
        true
    }

    open spec fn eq_spec(&self, other: &Self) -> bool {
        spec_calling_convention_value(*self) == spec_calling_convention_value(*other)
    }
}

/// How a calling convention is written in LLVM IR: conventions without a
/// dedicated keyword are written `cc` and their integer value.
pub open spec fn spec_calling_convention_str(c: CallingConvention) -> Seq<char> {
    match c {
        CallingConvention::C => "ccc"@,
        CallingConvention::Fast => "fastcc"@,
        CallingConvention::Cold => "coldcc"@,
        CallingConvention::WebKitJS => "webkit_jscc"@,
        CallingConvention::AnyReg => "anyregcc"@,
        CallingConvention::PreserveMost => "preserve_mostcc"@,
        CallingConvention::PreserveAll => "preserve_allcc"@,
        CallingConvention::CxxFastTLS => "cxx_fast_tlscc"@,
        CallingConvention::Swift => "swiftcc"@,
        _ => "cc "@ + crate::text::spec_decimal(spec_calling_convention_value(c) as nat),
    }
}

impl CallingConvention {
    /// Writes the calling convention as it appears in LLVM IR.
    pub fn ir_string(&self) -> (r: String)
        ensures
            r@ == spec_calling_convention_str(*self),
    {
        match self {
            CallingConvention::C => "ccc".to_owned(),
            CallingConvention::Fast => "fastcc".to_owned(),
            CallingConvention::Cold => "coldcc".to_owned(),
            CallingConvention::WebKitJS => "webkit_jscc".to_owned(),
            CallingConvention::AnyReg => "anyregcc".to_owned(),
            CallingConvention::PreserveMost => "preserve_mostcc".to_owned(),
            CallingConvention::PreserveAll => "preserve_allcc".to_owned(),
            CallingConvention::CxxFastTLS => "cxx_fast_tlscc".to_owned(),
            CallingConvention::Swift => "swiftcc".to_owned(),
            _ => {
                let mut r = "cc ".to_owned();
                crate::text::append_decimal(&mut r, self.value() as u64);
                assert(r@ =~= spec_calling_convention_str(*self));
                r
            },
        }
    }
}

/// A function definition or declaration.
#[derive(Debug)]
pub struct Function {
    name: Identifier,
    signature: types::Function,
    linkage: Linkage,
    calling_convention: CallingConvention,
    basic_blocks: Vec<BasicBlock>,
}

impl Function {
    /// The name of the function.
    pub closed spec fn spec_name(&self) -> Seq<char> {
        self.name@
    }

    /// The signature of the function.
    pub closed spec fn spec_signature(&self) -> types::Function {
        self.signature
    }

    /// The linkage of the function.
    pub closed spec fn spec_linkage(&self) -> Linkage {
        self.linkage
    }

    /// The calling convention of the function.
    pub closed spec fn spec_calling_convention(&self) -> CallingConvention {
        self.calling_convention
    }

    /// The basic blocks of the function, in order.
    pub closed spec fn spec_basic_blocks(&self) -> Seq<BasicBlock> {
        self.basic_blocks@
    }

    /// Valid: the name is a valid identifier.
    pub open spec fn wf(&self) -> bool {
        spec_valid_identifier(self.spec_name())
    }

    /// Creates a new function with the default linkage and calling
    /// convention and no basic blocks.
    pub fn new(name: Identifier, signature: types::Function) -> (r: Self)
        requires
            name.wf(),
        ensures
            r.spec_name() == name@,
            r.spec_signature() == signature,
            r.spec_linkage() == Linkage::External,
            r.spec_calling_convention() == CallingConvention::C,
            r.spec_basic_blocks() == Seq::<BasicBlock>::empty(),
            r.wf(),
    {
        let r = Function {
            name,
            signature,
            linkage: Linkage::External,
            calling_convention: CallingConvention::C,
            basic_blocks: Vec::new(),
        };
        assert(r.spec_basic_blocks() =~= Seq::<BasicBlock>::empty());
        r
    }

    /// Gets the name of this function.
    pub fn name(&self) -> (r: Id<'_>)
        requires
            self.wf(),
        ensures
            r@ == self.spec_name(),
    {
        self.name.as_id()
    }

    /// Gets the signature of this function.
    pub fn signature(&self) -> (r: &types::Function)
        ensures
            *r == self.spec_signature(),
    {
        &self.signature
    }

    /// Gets the linkage type for this function.
    pub fn get_linkage(&self) -> (r: Linkage)
        ensures
            r == self.spec_linkage(),
    {
        self.linkage
    }

    /// Sets the linkage type for this function.
    pub fn set_linkage(&mut self, linkage: Linkage)
        ensures
            final(self).spec_linkage() == linkage,
            final(self).spec_name() == old(self).spec_name(),
            final(self).spec_signature() == old(self).spec_signature(),
            final(self).spec_calling_convention() == old(self).spec_calling_convention(),
            final(self).spec_basic_blocks() == old(self).spec_basic_blocks(),
    {
        self.linkage = linkage;
    }

    /// Gets the calling convention of this function.
    pub fn get_calling_convention(&self) -> (r: CallingConvention)
        ensures
            r == self.spec_calling_convention(),
    {
        self.calling_convention
    }

    /// Sets the calling convention used by this function.
    pub fn set_calling_convention(&mut self, calling_convention: CallingConvention)
        ensures
            final(self).spec_calling_convention() == calling_convention,
            final(self).spec_name() == old(self).spec_name(),
            final(self).spec_signature() == old(self).spec_signature(),
            final(self).spec_linkage() == old(self).spec_linkage(),
            final(self).spec_basic_blocks() == old(self).spec_basic_blocks(),
    {
        self.calling_convention = calling_convention;
    }

    /// Appends a basic block.
    pub fn append_basic_block(&mut self, basic_block: BasicBlock)
        ensures
            final(self).spec_basic_blocks() == old(self).spec_basic_blocks().push(basic_block),
            final(self).spec_name() == old(self).spec_name(),
            final(self).spec_signature() == old(self).spec_signature(),
            final(self).spec_linkage() == old(self).spec_linkage(),
            final(self).spec_calling_convention() == old(self).spec_calling_convention(),
    {
        self.basic_blocks.push(basic_block);
    }

    /// The basic blocks of the function, in order.
    pub fn basic_blocks(&self) -> (r: &Vec<BasicBlock>)
        ensures
            r@ == self.spec_basic_blocks(),
    {
        &self.basic_blocks
    }
}

/// How the blocks of a function are written, from position `i` on: each
/// block under its label, one blank line after each.
pub open spec fn spec_block_list_str(bs: Seq<BasicBlock>, i: int) -> Seq<char>
    decreases bs.len() - i,
{
    if !(0 <= i < bs.len()) {
        Seq::empty()
    } else {
        spec_block_str(bs[i], i as nat) + "\n"@ + spec_block_list_str(bs, i + 1)
    }
}

/// How a function is written in LLVM IR: its linkage, calling convention,
/// return type, name and parameter types, and — when it has any — its basic
/// blocks between braces, each labelled with its position.
pub closed spec fn spec_function_str(f: Function) -> Seq<char> {
    "define "@ + spec_linkage_str(f.linkage) + seq![' '] + spec_calling_convention_str(
        f.calling_convention,
    ) + seq![' '] + types::spec_return_type_str(f.signature.spec_return_type()) + " @"@ + f.name@
        + " ("@ + types::spec_type_list_str(f.signature.spec_parameter_types(), 0) + seq![')'] + (
    if f.basic_blocks@.len() > 0 {
        " {\n"@ + spec_block_list_str(f.basic_blocks@, 0) + "}\n"@
    } else {
        Seq::<char>::empty()
    })
}

impl Function {
    /// Writes the function as it appears in LLVM IR.
    pub fn ir_string(&self) -> (r: String)
        ensures
            r@ == spec_function_str(*self),
    {
        let mut r = "define ".to_owned();
        let linkage = self.linkage.ir_string();
        r.append(linkage.as_str());
        push_char(&mut r, ' ');
        let convention = self.calling_convention.ir_string();
        r.append(convention.as_str());
        push_char(&mut r, ' ');
        let return_type = self.signature.return_type().ir_string();
        r.append(return_type.as_str());
        r.append(" @");
        r.append(self.name.as_str());
        r.append(" (");
        let parameters = types::type_list_ir_string(self.signature.parameter_types());
        r.append(parameters.as_str());
        push_char(&mut r, ')');
        if self.basic_blocks.len() > 0 {
            r.append(" {\n");
            let n = self.basic_blocks.len();
            let mut i: usize = 0;
            let ghost head = r@;
            while i < n
                invariant
                    i <= n,
                    n == self.basic_blocks@.len(),
                    n <= u64::MAX,
                    head + spec_block_list_str(self.basic_blocks@, 0) == r@ + spec_block_list_str(
                        self.basic_blocks@,
                        i as int,
                    ),
                decreases n - i,
            {
                let ghost prev = r@;
                let text = self.basic_blocks[i].ir_string(i as u64);
                r.append(text.as_str());
                r.append("\n");
                proof {
                    assert(r@ + spec_block_list_str(self.basic_blocks@, i as int + 1) =~= prev
                        + spec_block_list_str(self.basic_blocks@, i as int));
                }
                i = i + 1;
            }
            proof {
                assert(r@ + spec_block_list_str(self.basic_blocks@, n as int) =~= r@);
            }
            r.append("}\n");
        }
        assert(r@ =~= spec_function_str(*self));
        r
    }
}

/// A global value in a module, either a global variable or a function
/// definition.
#[derive(Debug)]
pub enum Value {
    /// A function definition.
    Function(Function),
}

/// How a global value is written in LLVM IR.
pub open spec fn spec_global_value_str(v: Value) -> Seq<char> {
    match v {
        Value::Function(f) => spec_function_str(f),
    }
}

impl Value {
    /// Valid: the value's identifiers are valid.
    pub open spec fn wf(&self) -> bool {
        match self {
            Value::Function(f) => f.wf(),
        }
    }

    /// Writes the global value as it appears in LLVM IR.
    pub fn ir_string(&self) -> (r: String)
        ensures
            r@ == spec_global_value_str(*self),
    {
        match self {
            Value::Function(function) => function.ir_string(),
        }
    }
}

impl From<Function> for Value {
    /// Wraps a function definition.
    fn from(value: Function) -> (r: Self) {
        Value::Function(value)
    }
}

impl vstd::std_specs::convert::FromSpecImpl<Function> for Value {
    open spec fn obeys_from_spec() -> bool {
        true
    }

    open spec fn from_spec(value: Function) -> Self {
        Value::Function(value)
    }
}

} // verus!
