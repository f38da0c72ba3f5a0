//! Tests for identifiers, the type system model, triples, and the textual
//! rendering of functions and modules.

use llvm_model::block::{BasicBlock, Instruction};
use llvm_model::global;
use llvm_model::identifier::Identifier;
use llvm_model::target::{
    Architecture, CodeModel, Environment, KnownTriple, Layout, Machine, OperatingSystem, Target,
    Triple, Vendor,
};
use llvm_model::types;
use llvm_model::types::{AddressSpace, IntegerSize};
use llvm_model::value;
use llvm_model::Module;

fn identifier(text: &str) -> Identifier {
    Identifier::try_from(text.to_string()).unwrap()
}

#[test]
fn identifiers_reject_null_bytes() {
    assert!(Identifier::try_from("main".to_string()).is_ok());
    let error = Identifier::try_from("ma\0in".to_string()).unwrap_err();
    assert_eq!(error.message(), "identifiers must not contain null bytes");
    assert!(llvm_model::Id::try_from("a\0b").is_err());
    let id = llvm_model::Id::try_from("hello").unwrap();
    assert_eq!(id.as_str(), "hello");
    assert_eq!(id.to_identifier().as_str(), "hello");
}

#[test]
fn integer_types_render() {
    let signed = types::Integer::Signed(IntegerSize::from_bits(32));
    assert_eq!(signed.ir_string(), "i32");
    assert_eq!(signed.size().bits(), 32);
    let unsigned = types::Integer::Unsigned(IntegerSize::from_bits(8));
    assert_eq!(unsigned.ir_string(), "u8");
    assert!(IntegerSize::new(0).is_none());
    assert_eq!(IntegerSize::min().bits(), 1);
}

#[test]
fn float_types_render() {
    assert_eq!(types::Float::Half.ir_string(), "half");
    assert_eq!(types::Float::Float.ir_string(), "float");
    assert_eq!(types::Float::Double.ir_string(), "double");
}

fn int_type(bits: u32) -> types::FirstClass {
    types::FirstClass::Single(types::SingleValue::Integer(types::Integer::Signed(
        IntegerSize::from_bits(bits),
    )))
}

#[test]
fn pointer_types_render() {
    let pointer = types::Pointer::new(int_type(8));
    assert_eq!(pointer.address_space().0, 0);
    assert_eq!(
        types::FirstClass::Single(types::SingleValue::Pointer(pointer)).ir_string(),
        "i8*"
    );
    let far = types::Pointer::in_address_space(int_type(8), AddressSpace(270));
    assert_eq!(far.ir_string(), "i8 addrspace(270)*");
    assert_eq!(far.pointee_type().ir_string(), "i8");
}

#[test]
fn vector_and_array_types_render() {
    let vector = types::Vector::new(int_type(32), 4);
    assert_eq!(vector.count(), 4);
    assert_eq!(vector.element_type().ir_string(), "i32");
    assert_eq!(vector.ir_string(), "<4 x i32>");
    let array = types::Array::new(int_type(8), 16);
    assert_eq!(array.count(), 16);
    assert_eq!(array.ir_string(), "[16 x i8]");
}

#[test]
fn struct_types_render() {
    let members = vec![int_type(32), int_type(8)];
    let unpacked = types::Struct::new(members, false);
    assert!(!unpacked.is_packed());
    assert_eq!(unpacked.member_types().len(), 2);
    assert_eq!(unpacked.ir_string(), "{ i32, i8} ");
    let packed = types::Struct::new(vec![int_type(16)], true);
    assert_eq!(packed.ir_string(), ">{ i16} >");
}

#[test]
fn function_types_render() {
    let signature = types::Function::new(
        types::ReturnType::FirstClass(int_type(32)),
        vec![int_type(32), int_type(8)],
    );
    assert_eq!(signature.ir_string(), "i32 (i32, i8)");
    assert_eq!(signature.return_type().ir_string(), "i32");
    assert_eq!(signature.parameter_types().len(), 2);
    let no_parameters = types::Function::new(types::ReturnType::Void, vec![]);
    assert_eq!(no_parameters.ir_string(), "void ()");
}

#[test]
fn integer_values_render() {
    let zero = value::Integer::zero(IntegerSize::from_bits(32));
    assert_eq!(zero.integer_type().bits(), 32);
    assert_eq!(zero.ir_string(), "i32 0");
    let wrapped = value::Value::from(zero);
    assert_eq!(wrapped.ir_string(), "i32 0");
}

#[test]
fn basic_blocks_record_instructions() {
    let mut block = BasicBlock::new();
    assert!(!block.is_terminated());
    block.ret(None);
    assert!(block.is_terminated());
    assert_eq!(block.instructions().len(), 1);
    assert!(matches!(block.instructions()[0], Instruction::Ret(None)));
    assert_eq!(block.ir_string(0), "B0:\n  ret void\n");
    let mut other = BasicBlock::new();
    other.ret(Some(value::Value::Integer(value::Integer::zero(
        IntegerSize::from_bits(32),
    ))));
    assert_eq!(other.ir_string(3), "B3:\n  ret i32 0\n");
    let taken = other.take_instructions();
    assert_eq!(taken.len(), 1);
    assert_eq!(other.instructions().len(), 0);
}

#[test]
fn functions_render_with_linkage_and_convention() {
    let signature = types::Function::new(types::ReturnType::Void, vec![]);
    let mut function = global::Function::new(identifier("main"), signature);
    assert_eq!(function.name().as_str(), "main");
    assert_eq!(function.get_linkage(), global::Linkage::External);
    assert_eq!(function.get_calling_convention(), global::CallingConvention::C);
    assert_eq!(function.ir_string(), "define external ccc void @main ()");

    function.set_linkage(global::Linkage::Private);
    function.set_calling_convention(global::CallingConvention::Fast);
    let mut block = BasicBlock::new();
    block.ret(None);
    function.append_basic_block(block);
    assert_eq!(
        function.ir_string(),
        "define private fastcc void @main () {\nB0:\n  ret void\n\n}\n"
    );
}

#[test]
fn calling_conventions_compare_by_value() {
    assert_eq!(global::CallingConvention::C.value(), 0);
    assert_eq!(global::CallingConvention::Swift.value(), 16);
    assert_eq!(global::CallingConvention::Custom(64).value(), 64);
    assert_eq!(
        global::CallingConvention::C,
        global::CallingConvention::Custom(0)
    );
    assert_ne!(
        global::CallingConvention::Fast,
        global::CallingConvention::Cold
    );
    assert_eq!(global::CallingConvention::GHC.ir_string(), "cc 10");
    assert_eq!(global::CallingConvention::Custom(75).ir_string(), "cc 75");
    assert_eq!(global::CallingConvention::Swift.ir_string(), "swiftcc");
}

#[test]
fn linkage_renders_its_keyword() {
    assert_eq!(global::Linkage::Private.ir_string(), "private");
    assert_eq!(global::Linkage::LinkOnceODR.ir_string(), "linkonce_odr");
    assert_eq!(global::Linkage::External.ir_string(), "external");
}

#[test]
fn known_triples_render() {
    let triple = KnownTriple::with_operating_system(
        Architecture::X86_64,
        Vendor::PC,
        OperatingSystem::Linux,
    );
    assert_eq!(triple.triple_string(), "x86_64-pc-linux");
    let with_env = KnownTriple::with_environment(
        Architecture::X86_64,
        Vendor::PC,
        OperatingSystem::Linux,
        Environment::GNU,
    );
    assert_eq!(with_env.triple_string(), "x86_64-pc-linux-gnu");
    assert!(matches!(with_env.architecture(), Architecture::X86_64));
    assert!(matches!(with_env.vendor(), Vendor::PC));
    assert!(matches!(with_env.operating_system(), OperatingSystem::Linux));
    assert!(matches!(with_env.environment(), Environment::GNU));
}

#[test]
fn triples_parse_from_text() {
    let known = Triple::from_text("x86_64-pc-linux-gnu");
    assert!(matches!(
        known,
        Triple::Known(t) if t.architecture == Architecture::X86_64
            && t.vendor == Vendor::PC
            && t.operating_system == OperatingSystem::Linux
            && t.environment == Environment::GNU
    ));
    let three = Triple::from_text("wasm32-unknown-wasi");
    assert!(matches!(
        three,
        Triple::Known(t) if t.architecture == Architecture::Wasm32
            && t.operating_system == OperatingSystem::WASI
    ));
    let custom = Triple::from_text("riscv64gc-unknown-linux-gnu");
    assert!(matches!(&custom, Triple::Custom(id) if id.as_str() == "riscv64gc-unknown-linux-gnu"));
    assert_eq!(custom.triple_string(), "riscv64gc-unknown-linux-gnu");
    let wrong_count = Triple::from_text("x86_64-pc");
    assert!(matches!(&wrong_count, Triple::Custom(_)));
}

#[test]
fn modules_render_their_header_and_globals() {
    let machine = Machine::with_defaults(
        Triple::Known(KnownTriple::with_operating_system(
            Architecture::X86_64,
            Vendor::PC,
            OperatingSystem::Linux,
        )),
        identifier("generic"),
        identifier(""),
    );
    assert_eq!(machine.cpu_name().as_str(), "generic");
    assert_eq!(machine.features().as_str(), "");
    assert!(matches!(machine.code_model(), CodeModel::Standard));
    let target = Target::new(machine, Layout::default());
    let mut module = Module::new(identifier("hello"), &target);
    assert_eq!(module.name().as_str(), "hello");
    assert_eq!(module.target_triple().triple_string(), "x86_64-pc-linux");

    let signature = types::Function::new(types::ReturnType::Void, vec![]);
    let mut function = global::Function::new(identifier("main"), signature);
    let mut block = BasicBlock::new();
    block.ret(None);
    function.append_basic_block(block);
    module.add_global_value(global::Value::from(function));
    assert_eq!(module.global_values().len(), 1);

    let expected = "; ModuleID = 'hello'\n\
                    target triple = \"x86_64-pc-linux\"\n\
                    target datalayout = \"e-i1:8-i8:8-i16:16-i32:32-i64:64-v64:64-v128:128-f16:16-f32:32-f64:64-f128:128-a:0:64\"\n\
                    define external ccc void @main () {\nB0:\n  ret void\n\n}\n\n";
    assert_eq!(module.ir_string(), expected);

    let drained = module.drain_global_values();
    assert_eq!(drained.len(), 1);
    assert_eq!(module.global_values().len(), 0);
}

#[test]
fn modules_expose_their_target() {
    let machine = Machine::new(
        Triple::default(),
        identifier("generic"),
        identifier("+sse"),
        llvm_model::target::CodeGenerationOptimization::Aggressive,
        llvm_model::target::RelocationMode::PIC,
        CodeModel::Small,
    );
    assert!(matches!(
        machine.code_generation_optimization_level(),
        llvm_model::target::CodeGenerationOptimization::Aggressive
    ));
    assert!(matches!(
        machine.relocation_mode(),
        llvm_model::target::RelocationMode::PIC
    ));
    assert!(matches!(machine.code_model(), CodeModel::Small));
    let target = Target::new(machine, Layout::default());
    assert_eq!(
        target.triple().triple_string(),
        "unknown-unknown-unknown"
    );
    let module = Module::new(Identifier::default(), &target);
    assert_eq!(module.name().as_str(), "");
    assert_eq!(
        module.target_triple().triple_string(),
        "unknown-unknown-unknown"
    );
    assert_eq!(
        module.target_machine().cpu_name().as_str(),
        "generic"
    );
    assert_eq!(
        module.target().machine().features().as_str(),
        "+sse"
    );
    assert!(module.target_layout().stack_alignment().is_none());
}
