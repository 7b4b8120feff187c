//! Tests of registration, validation and the reachability closure.

use interoptopus::inventory::InventoryBuilder;
use interoptopus::inventory::ValidationIssue;
use interoptopus::lang::CType;
use interoptopus::lang::CompositeType;
use interoptopus::lang::EnumType;
use interoptopus::lang::Field;
use interoptopus::lang::Function;
use interoptopus::lang::FunctionSignature;
use interoptopus::lang::OpaqueType;
use interoptopus::lang::Parameter;
use interoptopus::lang::SuccessEnum;
use interoptopus::lang::TypePattern;
use interoptopus::lang::Variant;
use interoptopus::lang::TYPE_I32;
use interoptopus::lang::TYPE_U8;
use interoptopus::lang::TYPE_U32;
use interoptopus::lang::TYPE_U64;
use interoptopus::naming::NameCase;
use interoptopus::pattern::Service;

fn add_function() -> Function {
    let params = vec![
        Parameter::new(String::from("x"), TYPE_I32),
        Parameter::new(String::from("y"), TYPE_I32),
    ];
    Function::new(String::from("add"), FunctionSignature::new(params, TYPE_I32))
}

fn add(x: i32, y: i32) -> i32 {
    x + y
}

/// The shape of the convenience wrapper the generator emits for `add`: it
/// delegates to the raw declaration unchanged.
fn add_wrapper(x: i32, y: i32) -> i32 {
    add(x, y)
}

#[test]
fn end_to_end_add() {
    let mut builder = InventoryBuilder::new();
    builder.register_function(add_function());
    let library = builder.build(NameCase::UpperCamel).unwrap();

    let cfg = interoptopus::backend_c::InteropBuilder::new().build();
    let decl = interoptopus::backend_c::write_function_declaration(
        library.graph(),
        &library.functions()[0],
        &cfg,
    );
    assert_eq!(decl, "int32_t add(int32_t x, int32_t y);\n");

    assert_eq!(add(2, 3), 5);
    assert_eq!(add_wrapper(2, 3), 5);
}

#[test]
fn closure_holds_reachable_types_exactly_once() {
    let mut builder = InventoryBuilder::new();
    let fields = vec![
        Field::new(String::from("a"), TYPE_U32),
        Field::new(String::from("b"), TYPE_U8),
    ];
    let composite = builder.intern(CType::Composite(CompositeType::new(
        String::from("Pair"),
        fields,
    )));
    let params = vec![Parameter::new(String::from("p"), composite)];
    builder.register_function(Function::new(
        String::from("use_pair"),
        FunctionSignature::new(params, TYPE_U32),
    ));
    let library = builder.build(NameCase::UpperCamel).unwrap();

    let closure = library.closure();
    assert!(closure.contains(&composite));
    assert!(closure.contains(&TYPE_U32));
    assert!(closure.contains(&TYPE_U8));
    for i in 0..closure.len() {
        for j in 0..closure.len() {
            if i != j {
                assert_ne!(closure[i], closure[j]);
            }
        }
    }
}

#[test]
fn name_collision_fails_validation() {
    let mut builder = InventoryBuilder::new();
    let first = builder.intern(CType::Opaque(OpaqueType::new(String::from("Engine"))));
    let second = builder.intern(CType::Opaque(OpaqueType::new(String::from("ENGINE"))));
    builder.register_extra_type(first);
    builder.register_extra_type(second);

    // Under lowercase rendering the two names collide.
    let issues = builder.validate(&NameCase::Lower);
    assert!(issues.len() > 0);
    assert!(matches!(issues[0], ValidationIssue::AmbiguousName { .. }));
    assert!(builder.build(NameCase::Lower).is_err());

    // Under a style that keeps them apart, validation passes.
    let mut ok_builder = InventoryBuilder::new();
    let a = ok_builder.intern(CType::Opaque(OpaqueType::new(String::from("Engine"))));
    let b = ok_builder.intern(CType::Opaque(OpaqueType::new(String::from("Wheel"))));
    ok_builder.register_extra_type(a);
    ok_builder.register_extra_type(b);
    assert!(ok_builder.validate(&NameCase::Lower).is_empty());
}

#[test]
fn malformed_option_fails_validation() {
    let mut builder = InventoryBuilder::new();
    // The payload field is missing: only a discriminant.
    let fields = vec![Field::new(String::from("is_some"), TYPE_U8)];
    let option = builder.intern(CType::Pattern(TypePattern::Optional(CompositeType::new(
        String::from("OptionU32"),
        fields,
    ))));
    builder.register_extra_type(option);

    let issues = builder.validate(&NameCase::UpperCamel);
    assert_eq!(issues.len(), 1);
    assert!(matches!(issues[0], ValidationIssue::MalformedPattern { .. }));
}

#[test]
fn well_formed_option_passes_validation() {
    let mut builder = InventoryBuilder::new();
    let fields = vec![
        Field::new(String::from("t"), TYPE_U32),
        Field::new(String::from("is_some"), TYPE_U8),
    ];
    let option = builder.intern(CType::Pattern(TypePattern::Optional(CompositeType::new(
        String::from("OptionU32"),
        fields,
    ))));
    builder.register_extra_type(option);

    assert!(builder.validate(&NameCase::UpperCamel).is_empty());
}

fn success_enum_node() -> CType {
    let variants = vec![
        Variant::new(String::from("Success"), 0),
        Variant::new(String::from("Null"), 100),
        Variant::new(String::from("Panic"), 200),
    ];
    CType::Pattern(TypePattern::SuccessEnum(SuccessEnum::new(
        EnumType::new(String::from("ServiceError"), variants),
        Variant::new(String::from("Success"), 0),
    )))
}

#[test]
fn service_validation_accepts_well_formed_service() {
    let mut builder = InventoryBuilder::new();
    let receiver = builder.intern(CType::Opaque(OpaqueType::new(String::from("Engine"))));
    let receiver_ptr = builder.intern(CType::ReadWritePointer(receiver));
    let handle_ptr = builder.intern(CType::ReadWritePointer(receiver_ptr));
    let error = builder.intern(success_enum_node());

    let ctor = Function::new(
        String::from("engine_create"),
        FunctionSignature::new(vec![Parameter::new(String::from("context"), handle_ptr)], error),
    );
    let dtor = Function::new(
        String::from("engine_destroy"),
        FunctionSignature::new(vec![Parameter::new(String::from("context"), handle_ptr)], error),
    );
    let method = Function::new(
        String::from("engine_run"),
        FunctionSignature::new(
            vec![Parameter::new(String::from("context"), receiver_ptr)],
            TYPE_U64,
        ),
    );

    let service = Service::new(builder.graph(), vec![ctor], dtor, vec![method]).unwrap();
    assert_eq!(service.the_type(), receiver);
    assert!(service.assert_valid(builder.graph()).is_empty());
}

#[test]
fn service_validation_names_offending_function() {
    let mut builder = InventoryBuilder::new();
    let receiver = builder.intern(CType::Opaque(OpaqueType::new(String::from("Engine"))));
    let handle_ptr = builder.intern(CType::ReadWritePointer(receiver));
    let error = builder.intern(success_enum_node());

    let ctor = Function::new(
        String::from("engine_create"),
        FunctionSignature::new(vec![Parameter::new(String::from("context"), handle_ptr)], error),
    );
    // The destructor forgets the error channel.
    let dtor = Function::new(
        String::from("engine_destroy"),
        FunctionSignature::new(
            vec![Parameter::new(String::from("context"), handle_ptr)],
            TYPE_U64,
        ),
    );

    let service = Service::new(builder.graph(), vec![ctor], dtor, vec![]).unwrap();
    let issues = service.assert_valid(builder.graph());
    assert_eq!(issues.len(), 1);

    builder.register_pattern(interoptopus::pattern::LibraryPattern::Service(service));
    let issues = builder.validate(&NameCase::UpperCamel);
    assert_eq!(issues.len(), 1);
    assert!(matches!(issues[0], ValidationIssue::Service(_)));
    assert!(builder.build(NameCase::UpperCamel).is_err());
}

#[test]
fn fallback_shapes() {
    let pattern = TypePattern::CStrPointer;
    assert!(matches!(pattern.fallback_type(), CType::ReadPointer(TYPE_U8)));

    let fields = vec![
        Field::new(String::from("t"), TYPE_U32),
        Field::new(String::from("is_some"), TYPE_U8),
    ];
    let option = TypePattern::Optional(CompositeType::new(String::from("OptionU32"), fields));
    assert!(matches!(option.fallback_type(), CType::Composite(_)));
}

#[test]
fn built_in_pattern_descriptors_pass_validation() {
    let mut builder = InventoryBuilder::new();
    let option = interoptopus::option::option_type_info(&mut builder, TYPE_U32);
    let string = interoptopus::strings::utf8_string_type_info(&mut builder);
    let slice = interoptopus::slice::slice_type_info(&mut builder, TYPE_U8);
    builder.register_extra_type(option);
    builder.register_extra_type(string);
    builder.register_extra_type(slice);
    assert!(builder.validate(&NameCase::UpperCamel).is_empty());
}
