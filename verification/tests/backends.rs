//! Tests of the generators: naming, decimal rendering, declarations,
//! pattern blocks and whole-file determinism.

use interoptopus::backend_c::Functions;
use interoptopus::backend_c::InteropBuilder;
use interoptopus::backend_c::i64_text;
use interoptopus::backend_c::primitive_value_text;
use interoptopus::backend_c::u64_text;
use interoptopus::backend_c::write_type_definition;
use interoptopus::backend_cpython::write_callback_helpers;
use interoptopus::backend_csharp::CSharpConfig;
use interoptopus::backend_csharp::Generator;
use interoptopus::backend_csharp::write_function_overload;
use interoptopus::backend_csharp::write_pattern_option;
use interoptopus::backend_csharp::write_type_definition_named_callback;
use interoptopus::inventory::InventoryBuilder;
use interoptopus::lang::CType;
use interoptopus::lang::CompositeType;
use interoptopus::lang::Constant;
use interoptopus::lang::Field;
use interoptopus::lang::FnPointerType;
use interoptopus::lang::Function;
use interoptopus::lang::FunctionSignature;
use interoptopus::lang::NamedCallback;
use interoptopus::lang::Parameter;
use interoptopus::lang::PrimitiveValue;
use interoptopus::lang::TypePattern;
use interoptopus::lang::TYPE_U32;
use interoptopus::lang::TYPE_U64;
use interoptopus::lang::TYPE_U8;
use interoptopus::naming::NameCase;
use interoptopus::naming::ToNamingStyle;

#[test]
fn naming_styles_transform_their_input() {
    assert_eq!("MyTypeName".to_naming_style(&NameCase::Snake), "my_type_name");
    assert_eq!("MyTypeName".to_naming_style(&NameCase::ShoutySnake), "MY_TYPE_NAME");
    assert_eq!("my_type_name".to_naming_style(&NameCase::LowerCamel), "myTypeName");
    assert_eq!("my_type_name".to_naming_style(&NameCase::UpperCamel), "MyTypeName");
    assert_eq!("MyTypeName".to_naming_style(&NameCase::Lower), "mytypename");
    assert_eq!("MyTypeName".to_naming_style(&NameCase::Upper), "MYTYPENAME");
}

#[test]
fn decimal_rendering() {
    assert_eq!(u64_text(0), "0");
    assert_eq!(u64_text(1234567890123), "1234567890123");
    assert_eq!(i64_text(-5), "-5");
    assert_eq!(i64_text(i64::MIN), "-9223372036854775808");
    assert_eq!(primitive_value_text(PrimitiveValue::Bool(true)), "true");
    assert_eq!(primitive_value_text(PrimitiveValue::I32(-42)), "-42");
}

fn demo_library() -> interoptopus::inventory::Library {
    let mut builder = InventoryBuilder::new();
    let fields = vec![
        Field::new(String::from("ptr"), builder.intern(CType::ReadPointer(TYPE_U8))),
        Field::new(String::from("len"), TYPE_U64),
    ];
    let slice = builder.intern(CType::Pattern(TypePattern::Slice(CompositeType::new(
        String::from("SliceU8"),
        fields,
    ))));
    let params = vec![
        Parameter::new(String::from("data"), slice),
        Parameter::new(String::from("count"), TYPE_U32),
    ];
    builder.register_function(Function::new(
        String::from("process"),
        FunctionSignature::new(params, TYPE_U32),
    ));
    builder.register_constant(Constant::new(
        String::from("max_items"),
        PrimitiveValue::U32(64),
    ));
    builder.build(NameCase::UpperCamel).unwrap()
}

#[test]
fn c_header_is_deterministic_and_complete() {
    let library = demo_library();
    let cfg = InteropBuilder::new()
        .ifndef(String::from("demo_bindings"))
        .build();
    let first = cfg.to_string(&library);
    let second = cfg.to_string(&library);
    assert_eq!(first, second);

    assert!(first.contains("#ifndef demo_bindings"));
    assert!(first.contains("#define MAX_ITEMS 64"));
    assert!(first.contains("typedef struct SliceU8"));
    assert!(first.contains("uint32_t process(SliceU8 data, uint32_t count);"));
    assert!(first.contains("#endif"));
}

#[test]
fn c_function_typedef_style() {
    let library = demo_library();
    let cfg = InteropBuilder::new().function_style(Functions::Typedefs).build();
    let header = cfg.to_string(&library);
    assert!(header.contains("typedef uint32_t (*process)(SliceU8 data, uint32_t count);"));
}

#[test]
fn csharp_overload_pins_slices() {
    let library = demo_library();
    let cfg = CSharpConfig::new(String::from("demo"));
    let overload = write_function_overload(library.graph(), &library.functions()[0], &cfg);
    assert!(overload.contains("public static unsafe uint process(byte[] data, uint count)"));
    assert!(overload.contains("fixed (void* ptr_data = data)"));
    assert!(overload.contains("var data_slice = new SliceU8(new IntPtr(ptr_data), (ulong) data.Length);"));
    assert!(overload.contains("return process(data_slice, count);"));
    assert!(overload.contains("finally"));
}

#[test]
fn csharp_generator_emits_class_and_import() {
    let library = demo_library();
    let cfg = CSharpConfig::new(String::from("demo"));
    let generator = Generator::new(cfg, library);
    let file = generator.to_string();
    assert!(file.contains("public static partial class Interop"));
    assert!(file.contains("public const string NativeLib = \"demo\";"));
    assert!(file.contains("[LibraryImport(NativeLib, EntryPoint = \"process\")]"));
    assert!(file.contains("public static partial uint process(SliceU8 data, uint count);"));
}

#[test]
fn csharp_named_callback_block() {
    let mut builder = InventoryBuilder::new();
    let params = vec![Parameter::new(String::from("value"), TYPE_U32)];
    let nc = NamedCallback::new(
        String::from("MyCallback"),
        FnPointerType::new(FunctionSignature::new(params, TYPE_U32)),
    );
    let id = builder.intern(CType::Pattern(TypePattern::NamedCallback(nc)));
    builder.register_extra_type(id);
    let library = builder.build(NameCase::UpperCamel).unwrap();
    let cfg = CSharpConfig::new(String::from("demo"));

    let node = library.graph().get(id);
    let block = match node {
        CType::Pattern(TypePattern::NamedCallback(nc)) => {
            write_type_definition_named_callback(library.graph(), nc, &cfg)
        }
        _ => unreachable!(),
    };
    assert!(block.contains("public delegate uint MyCallbackDelegate(uint value);"));
    assert!(block.contains("private uint CallTrampoline(uint value)"));
    assert!(block.contains("catch (Exception e)"));
    assert!(block.contains("_exception = e;"));
    assert!(block.contains("if (_exception != null) throw _exception;"));
}

#[test]
fn csharp_option_block() {
    let mut builder = InventoryBuilder::new();
    let fields = vec![
        Field::new(String::from("t"), TYPE_U32),
        Field::new(String::from("is_some"), TYPE_U8),
    ];
    let composite = CompositeType::new(String::from("OptionU32"), fields);
    let id = builder.intern(CType::Pattern(TypePattern::Optional(composite)));
    builder.register_extra_type(id);
    let library = builder.build(NameCase::UpperCamel).unwrap();
    let cfg = CSharpConfig::new(String::from("demo"));

    let node = library.graph().get(id);
    let block = match node {
        CType::Pattern(TypePattern::Optional(c)) => {
            write_pattern_option(library.graph(), c, &cfg)
        }
        _ => unreachable!(),
    };
    assert!(block.contains("public static OptionU32 FromNullable(uint? nullable)"));
    assert!(block.contains("return this.is_some == 1 ? this.t : (uint?)null;"));
}

#[test]
fn c_type_definition_for_composite() {
    let library = demo_library();
    let cfg = InteropBuilder::new().build();
    let closure = library.closure();
    let mut all = String::new();
    for k in 0..closure.len() {
        all.push_str(&write_type_definition(library.graph(), closure[k], &cfg));
    }
    assert!(all.contains("typedef struct SliceU8"));
    assert!(all.contains("const uint8_t* ptr;"));
    assert!(all.contains("uint64_t len;"));
}

#[test]
fn python_callback_helpers() {
    let mut builder = InventoryBuilder::new();
    let params = vec![Parameter::new(String::from("value"), TYPE_U32)];
    let nc = NamedCallback::new(
        String::from("MyCallback"),
        FnPointerType::new(FunctionSignature::new(params, TYPE_U32)),
    );
    let id = builder.intern(CType::Pattern(TypePattern::NamedCallback(nc)));
    builder.register_extra_type(id);
    let library = builder.build(NameCase::UpperCamel).unwrap();

    let helpers = write_callback_helpers(library.graph(), library.closure());
    assert!(helpers.contains("class callbacks:"));
    assert!(helpers.contains("MyCallback = ctypes.CFUNCTYPE(ctypes.c_uint32, ctypes.c_uint32)"));
}

#[test]
fn c_enum_definition() {
    let mut builder = InventoryBuilder::new();
    let variants = vec![
        interoptopus::lang::Variant::new(String::from("Success"), 0),
        interoptopus::lang::Variant::new(String::from("Null"), 100),
        interoptopus::lang::Variant::new(String::from("Panic"), 200),
    ];
    let id = builder.intern(CType::Enum(interoptopus::lang::EnumType::new(
        String::from("ServiceError"),
        variants,
    )));
    builder.register_extra_type(id);
    let library = builder.build(NameCase::UpperCamel).unwrap();
    let cfg = InteropBuilder::new().build();

    let text = write_type_definition(library.graph(), id, &cfg);
    assert!(text.contains("typedef enum ServiceError"));
    assert!(text.contains("ServiceError_SUCCESS = 0,"));
    assert!(text.contains("ServiceError_NULL = 100,"));
    assert!(text.contains("ServiceError_PANIC = 200,"));
}

#[test]
fn c_documentation_emitted_inline() {
    let mut builder = InventoryBuilder::new();
    let mut f = Function::new(
        String::from("noop"),
        FunctionSignature::new(vec![], interoptopus::lang::TYPE_VOID),
    );
    f.docs = String::from("Does nothing at all.");
    builder.register_function(f);
    let library = builder.build(NameCase::UpperCamel).unwrap();

    let cfg = InteropBuilder::new().build();
    let header = cfg.to_string(&library);
    assert!(header.contains("// Does nothing at all.\nvoid noop();"));
}
