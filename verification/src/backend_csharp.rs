//! The C# backend: lowers a validated [`Library`] into C# interop
//! declarations — raw declarations plus idiomatic overloads that pin,
//! wrap and dispose at the boundary. All output is a pure function of the
//! library and the configuration.

use vstd::prelude::*;
use crate::inventory::Library;
use crate::lang::CType;
use crate::lang::CTypeV;
use crate::lang::Function;
use crate::lang::FunctionV;
use crate::lang::NamedCallback;
use crate::lang::ParameterV;
use crate::lang::Primitive;
use crate::lang::TypeGraph;
use crate::lang::TypeId;
use crate::lang::TypePattern;
use crate::lang::TypePatternV;
use crate::naming::NameCase;
use crate::naming::ToNamingStyle;

verus! {

/// The C# generator configuration.
pub struct CSharpConfig {
    /// The static class holding the raw declarations.
    pub class: String,
    /// The native library name used in the import annotations.
    pub dll_name: String,
    /// How to convert type names.
    pub type_naming: NameCase,
    /// Symbol prefix applied to every public type name.
    pub prefix: String,
}

impl CSharpConfig {
    /// A configuration with common defaults: class `Interop`, UpperCamel
    /// type names, no prefix.
    pub fn new(dll_name: String) -> (r: CSharpConfig)
        ensures
            r.dll_name == dll_name,
            r.type_naming == NameCase::UpperCamel,
            r.prefix@ == Seq::<char>::empty(),
    {
        CSharpConfig {
            class: String::from_str("Interop"),
            dll_name,
            type_naming: NameCase::UpperCamel,
            prefix: String::new(),
        }
    }
}

/// The C# spelling of a primitive.
pub open spec fn cs_primitive_text(p: Primitive) -> Seq<char> {
    match p {
        Primitive::Void => "void"@,
        Primitive::Bool => "bool"@,
        Primitive::U8 => "byte"@,
        Primitive::U16 => "ushort"@,
        Primitive::U32 => "uint"@,
        Primitive::U64 => "ulong"@,
        Primitive::I8 => "sbyte"@,
        Primitive::I16 => "short"@,
        Primitive::I32 => "int"@,
        Primitive::I64 => "long"@,
    }
}

/// How a type is spelled where C# refers to it: primitives by keyword,
/// pointers and anonymous function pointers as `IntPtr`, C strings as
/// `string`, named types by their styled public name.
pub open spec fn cs_type_text_v(ts: Seq<CTypeV>, id: TypeId, cfg: CSharpConfig) -> Seq<char> {
    if id < ts.len() {
        match ts[id as int] {
            CTypeV::Primitive(p) => cs_primitive_text(p),
            CTypeV::FnPointer(_) => "IntPtr"@,
            CTypeV::ReadPointer(_) => "IntPtr"@,
            CTypeV::ReadWritePointer(_) => "IntPtr"@,
            CTypeV::Pattern(p) => if p is CStrPointer {
                "string"@
            } else {
                crate::backend_c::styled_name_v(
                    crate::lang::ctype_name_v(ts[id as int]),
                    cfg.prefix@,
                    cfg.type_naming,
                )
            },
            _ => crate::backend_c::styled_name_v(
                crate::lang::ctype_name_v(ts[id as int]),
                cfg.prefix@,
                cfg.type_naming,
            ),
        }
    } else {
        Seq::empty()
    }
}

/// Renders the C# spelling of a type reference.
pub fn cs_type_text(g: &TypeGraph, id: TypeId, cfg: &CSharpConfig) -> (r: String)
    requires
        g.wf(),
        id < g@.len(),
    ensures
        r@ == cs_type_text_v(g@, id, *cfg),
{
    let node = g.get(id);
    match node {
        CType::Primitive(p) => match p {
            Primitive::Void => String::from_str("void"),
            Primitive::Bool => String::from_str("bool"),
            Primitive::U8 => String::from_str("byte"),
            Primitive::U16 => String::from_str("ushort"),
            Primitive::U32 => String::from_str("uint"),
            Primitive::U64 => String::from_str("ulong"),
            Primitive::I8 => String::from_str("sbyte"),
            Primitive::I16 => String::from_str("short"),
            Primitive::I32 => String::from_str("int"),
            Primitive::I64 => String::from_str("long"),
        },
        CType::FnPointer(_) => String::from_str("IntPtr"),
        CType::ReadPointer(_) => String::from_str("IntPtr"),
        CType::ReadWritePointer(_) => String::from_str("IntPtr"),
        CType::Pattern(p) => {
            if matches!(p, TypePattern::CStrPointer) {
                String::from_str("string")
            } else {
                let nm = node.name_within_lib();
                crate::backend_c::styled_name(nm.as_str(), cfg.prefix.as_str(), &cfg.type_naming)
            }
        },
        _ => {
            let nm = node.name_within_lib();
            crate::backend_c::styled_name(nm.as_str(), cfg.prefix.as_str(), &cfg.type_naming)
        },
    }
}

// ---------------------------------------------------------------------------
// Raw function declarations.
// ---------------------------------------------------------------------------

/// The comma-separated C# parameter list of a raw declaration.
pub open spec fn cs_params_text(
    ts: Seq<CTypeV>,
    params: Seq<ParameterV>,
    cfg: CSharpConfig,
) -> Seq<char>
    decreases params.len(),
{
    if params.len() == 0 {
        Seq::empty()
    } else {
        let sep: Seq<char> = if params.len() == 1 {
            Seq::empty()
        } else {
            ", "@
        };
        cs_params_text(ts, params.drop_last(), cfg) + sep + cs_type_text_v(
            ts,
            params.last().ty,
            cfg,
        ) + " "@ + params.last().name
    }
}

/// The import annotation above a raw declaration; a `bool` return
/// additionally gets its unmanaged marshalling note.
pub open spec fn function_annotation_text(
    ts: Seq<CTypeV>,
    f: FunctionV,
    cfg: CSharpConfig,
) -> Seq<char> {
    let import = "[LibraryImport(NativeLib, EntryPoint = \""@ + f.name + "\")]\n"@;
    if f.signature.rval < ts.len() && ts[f.signature.rval as int] == CTypeV::Primitive(
        Primitive::Bool,
    ) {
        import + "[return: MarshalAs(UnmanagedType.U1)]\n"@
    } else {
        import
    }
}

/// The raw partial declaration of one function.
pub open spec fn cs_function_declaration_text(
    ts: Seq<CTypeV>,
    f: FunctionV,
    cfg: CSharpConfig,
) -> Seq<char> {
    "public static partial "@ + cs_type_text_v(ts, f.signature.rval, cfg) + " "@ + f.name + "("@
        + cs_params_text(ts, f.signature.params, cfg) + ");\n"@
}

/// Writes the import annotation of one function.
pub fn write_function_annotation(g: &TypeGraph, f: &Function, cfg: &CSharpConfig) -> (r: String)
    requires
        g.wf(),
    ensures
        r@ == function_annotation_text(g@, f@, *cfg),
{
    let mut out = String::from_str("[LibraryImport(NativeLib, EntryPoint = \"");
    out.append(f.name().as_str());
    out.append("\")]\n");
    let rv: TypeId = f.signature().rval();
    if rv < g.len() {
        if matches!(g.get(rv), CType::Primitive(Primitive::Bool)) {
            out.append("[return: MarshalAs(UnmanagedType.U1)]\n");
        }
    }
    out
}

/// Writes the comma-separated C# parameter list.
fn write_cs_params(g: &TypeGraph, params: &Vec<crate::lang::Parameter>, cfg: &CSharpConfig) -> (r:
    String)
    requires
        g.wf(),
        forall|k: int|
            0 <= k < params@.len() ==> (#[trigger] crate::lang::params_view(params@)[k]).ty
                < g@.len(),
    ensures
        r@ == cs_params_text(g@, crate::lang::params_view(params@), *cfg),
{
    let mut out = String::new();
    let n: usize = params.len();
    let mut i: usize = 0;
    while i < n
        invariant
            g.wf(),
            n == params@.len(),
            forall|k: int|
                0 <= k < params@.len() ==> (#[trigger] crate::lang::params_view(params@)[k]).ty
                    < g@.len(),
            i <= n,
            out@ == cs_params_text(g@, crate::lang::params_view(params@).take(i as int), *cfg),
        decreases n - i,
    {
        proof {
            assert(crate::lang::params_view(params@)[i as int] == params@[i as int]@);
        }
        if i > 0 {
            out.append(", ");
        }
        let t = cs_type_text(g, params[i].ty, cfg);
        out.append(t.as_str());
        out.append(" ");
        out.append(params[i].name.as_str());
        proof {
            let pv = crate::lang::params_view(params@);
            assert(pv.take(i as int + 1).drop_last() =~= pv.take(i as int));
            assert(pv.take(i as int + 1).last() == pv[i as int]);
        }
        i = i + 1;
    }
    proof {
        let pv = crate::lang::params_view(params@);
        assert(pv.take(n as int) =~= pv);
    }
    out
}

/// Writes the raw partial declaration of one function.
pub fn write_function_declaration(g: &TypeGraph, f: &Function, cfg: &CSharpConfig) -> (r: String)
    requires
        g.wf(),
        crate::backend_c::signature_ids_in(g@, f@.signature),
    ensures
        r@ == cs_function_declaration_text(g@, f@, *cfg),
{
    let mut out = String::from_str("public static partial ");
    let rval = cs_type_text(g, f.signature().rval(), cfg);
    out.append(rval.as_str());
    out.append(" ");
    out.append(f.name().as_str());
    out.append("(");
    let params = write_cs_params(g, f.signature().params(), cfg);
    out.append(params.as_str());
    out.append(");\n");
    out
}

} // verus!

verus! {

// ---------------------------------------------------------------------------
// The idiomatic overload: pins slices, wraps callbacks and strings,
// disposes on every exit path.
// ---------------------------------------------------------------------------

/// How one parameter crosses the boundary in the overload.
pub ghost enum OverloadKind {
    /// A borrowed slice: pinned for the duration of the call.
    Pin,
    /// A callback or owned string: wrapped, and disposed on every exit.
    Wrap,
    /// Passed through unchanged.
    Plain,
}

/// Classifies a parameter type.
pub open spec fn overload_kind(ts: Seq<CTypeV>, ty: TypeId) -> OverloadKind {
    if ty < ts.len() {
        match ts[ty as int] {
            CTypeV::Pattern(p) => match p {
                TypePatternV::Slice(_) => OverloadKind::Pin,
                TypePatternV::SliceMut(_) => OverloadKind::Pin,
                TypePatternV::NamedCallback(_) => OverloadKind::Wrap,
                TypePatternV::Utf8String(_) => OverloadKind::Wrap,
                _ => OverloadKind::Plain,
            },
            _ => OverloadKind::Plain,
        }
    } else {
        OverloadKind::Plain
    }
}

/// The element type behind a slice pattern's pointer field.
pub open spec fn slice_elem_v(ts: Seq<CTypeV>, ty: TypeId) -> Option<TypeId> {
    if ty < ts.len() {
        match ts[ty as int] {
            CTypeV::Pattern(p) => match p {
                TypePatternV::Slice(c) => slice_field_elem(ts, c),
                TypePatternV::SliceMut(c) => slice_field_elem(ts, c),
                _ => None,
            },
            _ => None,
        }
    } else {
        None
    }
}

/// The pointee of a slice composite's first field.
pub open spec fn slice_field_elem(ts: Seq<CTypeV>, c: crate::lang::CompositeV) -> Option<TypeId> {
    if c.fields.len() >= 1 && c.fields[0].ty < ts.len() {
        match ts[c.fields[0].ty as int] {
            CTypeV::ReadPointer(t) => if t < ts.len() {
                Some(t)
            } else {
                None
            },
            CTypeV::ReadWritePointer(t) => if t < ts.len() {
                Some(t)
            } else {
                None
            },
            _ => None,
        }
    } else {
        None
    }
}

/// Looks up the element type behind a slice pattern.
pub fn slice_elem(g: &TypeGraph, ty: TypeId) -> (r: Option<TypeId>)
    requires
        g.wf(),
        ty < g@.len(),
    ensures
        r == slice_elem_v(g@, ty),
{
    match g.get(ty) {
        CType::Pattern(p) => {
            let c = match p {
                TypePattern::Slice(c) => c,
                TypePattern::SliceMut(c) => c,
                _ => {
                    return None;
                },
            };
            if c.fields.len() >= 1 {
                let f0: TypeId = c.fields[0].ty;
                proof {
                    assert(c@.fields[0] == c.fields@[0]@);
                }
                if f0 < g.len() {
                    match g.get(f0) {
                        CType::ReadPointer(t) => if *t < g.len() {
                            Some(*t)
                        } else {
                            None
                        },
                        CType::ReadWritePointer(t) => if *t < g.len() {
                            Some(*t)
                        } else {
                            None
                        },
                        _ => None,
                    }
                } else {
                    None
                }
            } else {
                None
            }
        },
        _ => None,
    }
}

/// The type a parameter takes in the overload's signature: arrays for
/// slices, the wrapper class for callbacks, `string` for owned strings,
/// the raw spelling otherwise.
pub open spec fn overload_param_type_text(ts: Seq<CTypeV>, ty: TypeId, cfg: CSharpConfig) -> Seq<
    char,
> {
    match overload_kind(ts, ty) {
        OverloadKind::Pin => match slice_elem_v(ts, ty) {
            Some(e) => cs_type_text_v(ts, e, cfg) + "[]"@,
            None => "IntPtr"@,
        },
        OverloadKind::Wrap => cs_type_text_v(ts, ty, cfg),
        OverloadKind::Plain => cs_type_text_v(ts, ty, cfg),
    }
}

/// Renders one overload parameter type.
pub fn write_overload_param_type(g: &TypeGraph, ty: TypeId, cfg: &CSharpConfig) -> (r: String)
    requires
        g.wf(),
        ty < g@.len(),
    ensures
        r@ == overload_param_type_text(g@, ty, *cfg),
{
    let kind_pin = match g.get(ty) {
        CType::Pattern(p) => matches!(p, TypePattern::Slice(_) | TypePattern::SliceMut(_)),
        _ => false,
    };
    if kind_pin {
        match slice_elem(g, ty) {
            Some(e) => {
                let mut out = cs_type_text(g, e, cfg);
                out.append("[]");
                out
            },
            None => String::from_str("IntPtr"),
        }
    } else {
        cs_type_text(g, ty, cfg)
    }
}

/// The overload's signature parameter list.
pub open spec fn overload_sig_params_text(
    ts: Seq<CTypeV>,
    params: Seq<ParameterV>,
    cfg: CSharpConfig,
) -> Seq<char>
    decreases params.len(),
{
    if params.len() == 0 {
        Seq::empty()
    } else {
        let sep: Seq<char> = if params.len() == 1 {
            Seq::empty()
        } else {
            ", "@
        };
        overload_sig_params_text(ts, params.drop_last(), cfg) + sep + overload_param_type_text(
            ts,
            params.last().ty,
            cfg,
        ) + " "@ + params.last().name
    }
}

/// How one argument is passed to the raw declaration.
pub open spec fn invoke_arg_text(ts: Seq<CTypeV>, p: ParameterV) -> Seq<char> {
    match overload_kind(ts, p.ty) {
        OverloadKind::Pin => p.name + "_slice"@,
        OverloadKind::Wrap => p.name + "_wrapped"@,
        OverloadKind::Plain => p.name,
    }
}

/// The comma-separated arguments of the delegated call.
pub open spec fn invoke_args_text(ts: Seq<CTypeV>, params: Seq<ParameterV>) -> Seq<char>
    decreases params.len(),
{
    if params.len() == 0 {
        Seq::empty()
    } else {
        let sep: Seq<char> = if params.len() == 1 {
            Seq::empty()
        } else {
            ", "@
        };
        invoke_args_text(ts, params.drop_last()) + sep + invoke_arg_text(ts, params.last())
    }
}

/// The pinning block one parameter contributes.
pub open spec fn pin_block_text(ts: Seq<CTypeV>, p: ParameterV, cfg: CSharpConfig) -> Seq<char> {
    if overload_kind(ts, p.ty) is Pin {
        "    fixed (void* ptr_"@ + p.name + " = "@ + p.name + ")\n    {\n        var "@ + p.name
            + "_slice = new "@ + cs_type_text_v(ts, p.ty, cfg) + "(new IntPtr(ptr_"@ + p.name
            + "), (ulong) "@ + p.name + ".Length);\n"@
    } else {
        Seq::empty()
    }
}

/// All pinning blocks, in parameter order.
pub open spec fn pin_blocks_text(
    ts: Seq<CTypeV>,
    params: Seq<ParameterV>,
    cfg: CSharpConfig,
) -> Seq<char>
    decreases params.len(),
{
    if params.len() == 0 {
        Seq::empty()
    } else {
        pin_blocks_text(ts, params.drop_last(), cfg) + pin_block_text(ts, params.last(), cfg)
    }
}

/// The wrapper construction one parameter contributes.
pub open spec fn wrap_line_text(ts: Seq<CTypeV>, p: ParameterV, cfg: CSharpConfig) -> Seq<char> {
    if overload_kind(ts, p.ty) is Wrap {
        "    var "@ + p.name + "_wrapped = new "@ + cs_type_text_v(ts, p.ty, cfg) + "("@ + p.name
            + ");\n"@
    } else {
        Seq::empty()
    }
}

/// All wrapper constructions, in parameter order.
pub open spec fn wrap_lines_text(
    ts: Seq<CTypeV>,
    params: Seq<ParameterV>,
    cfg: CSharpConfig,
) -> Seq<char>
    decreases params.len(),
{
    if params.len() == 0 {
        Seq::empty()
    } else {
        wrap_lines_text(ts, params.drop_last(), cfg) + wrap_line_text(ts, params.last(), cfg)
    }
}

/// The disposal one wrapped parameter contributes on every exit path.
pub open spec fn dispose_line_text(ts: Seq<CTypeV>, p: ParameterV) -> Seq<char> {
    if overload_kind(ts, p.ty) is Wrap {
        "        "@ + p.name + "_wrapped.Dispose();\n"@
    } else {
        Seq::empty()
    }
}

/// All disposals, in parameter order.
pub open spec fn dispose_lines_text(ts: Seq<CTypeV>, params: Seq<ParameterV>) -> Seq<char>
    decreases params.len(),
{
    if params.len() == 0 {
        Seq::empty()
    } else {
        dispose_lines_text(ts, params.drop_last()) + dispose_line_text(ts, params.last())
    }
}

/// One closing brace per pinned parameter.
pub open spec fn close_braces_text(ts: Seq<CTypeV>, params: Seq<ParameterV>) -> Seq<char>
    decreases params.len(),
{
    if params.len() == 0 {
        Seq::empty()
    } else {
        close_braces_text(ts, params.drop_last()) + (
        if overload_kind(ts, params.last().ty) is Pin {
            "    }\n"@
        } else {
            Seq::empty()
        })
    }
}

/// Whether the function benefits from an overload at all: some parameter
/// needs pinning or wrapping, or the return value is a C string.
pub open spec fn has_overloadable(ts: Seq<CTypeV>, f: FunctionV) -> bool {
    ||| exists|k: int|
        0 <= k < f.signature.params.len() && !(overload_kind(
            ts,
            (#[trigger] f.signature.params[k]).ty,
        ) is Plain)
    ||| rval_is_cstr(ts, f.signature.rval)
}

/// Whether a return type is the C string pattern.
pub open spec fn rval_is_cstr(ts: Seq<CTypeV>, rv: TypeId) -> bool {
    rv < ts.len() && ts[rv as int] matches CTypeV::Pattern(TypePatternV::CStrPointer)
}

/// The statement performing the delegated call and shaping its result.
pub open spec fn call_stmt_text(ts: Seq<CTypeV>, f: FunctionV) -> Seq<char> {
    if rval_is_cstr(ts, f.signature.rval) {
        "        var s = "@ + f.name + "("@ + invoke_args_text(ts, f.signature.params)
            + ");\n        return Marshal.PtrToStringAnsi(s);\n"@
    } else if ts[f.signature.rval as int] == CTypeV::Primitive(Primitive::Void) {
        "        "@ + f.name + "("@ + invoke_args_text(ts, f.signature.params) + ");\n"@
    } else {
        "        return "@ + f.name + "("@ + invoke_args_text(ts, f.signature.params) + ");\n"@
    }
}

/// The idiomatic overload of one function: the same name, managed
/// parameter types, pinning and wrapping around a delegated call, and
/// disposal of every wrapper on every exit path. Empty when the function
/// has nothing to overload.
pub open spec fn function_overload_text(ts: Seq<CTypeV>, f: FunctionV, cfg: CSharpConfig) -> Seq<
    char,
> {
    if has_overloadable(ts, f) {
        "public static unsafe "@ + cs_type_text_v(ts, f.signature.rval, cfg) + " "@ + f.name
            + "("@ + overload_sig_params_text(ts, f.signature.params, cfg) + ")\n{\n"@
            + pin_blocks_text(ts, f.signature.params, cfg) + wrap_lines_text(
            ts,
            f.signature.params,
            cfg,
        ) + "    try\n    {\n"@ + call_stmt_text(ts, f) + "    }\n    finally\n    {\n"@
            + dispose_lines_text(ts, f.signature.params) + "    }\n"@ + close_braces_text(
            ts,
            f.signature.params,
        ) + "}\n"@
    } else {
        Seq::empty()
    }
}

} // verus!

verus! {

/// Writes the idiomatic overload of one function; writes nothing when the
/// function has nothing to overload.
#[verifier::rlimit(100)]
pub fn write_function_overload(g: &TypeGraph, f: &Function, cfg: &CSharpConfig) -> (r: String)
    requires
        g.wf(),
        crate::backend_c::signature_ids_in(g@, f@.signature),
    ensures
        r@ == function_overload_text(g@, f@, *cfg),
{
    let params = f.signature().params();
    let n: usize = params.len();
    let mut sig_params = String::new();
    let mut pin_blocks = String::new();
    let mut wrap_lines = String::new();
    let mut invoke_args = String::new();
    let mut dispose_lines = String::new();
    let mut close_braces = String::new();
    let mut any_special = false;
    let mut i: usize = 0;
    while i < n
        invariant
            g.wf(),
            n == params@.len(),
            crate::lang::params_view(params@) == f@.signature.params,
            forall|k: int|
                0 <= k < params@.len() ==> (#[trigger] crate::lang::params_view(params@)[k]).ty
                    < g@.len(),
            i <= n,
            sig_params@ == overload_sig_params_text(
                g@,
                f@.signature.params.take(i as int),
                *cfg,
            ),
            pin_blocks@ == pin_blocks_text(g@, f@.signature.params.take(i as int), *cfg),
            wrap_lines@ == wrap_lines_text(g@, f@.signature.params.take(i as int), *cfg),
            invoke_args@ == invoke_args_text(g@, f@.signature.params.take(i as int)),
            dispose_lines@ == dispose_lines_text(g@, f@.signature.params.take(i as int)),
            close_braces@ == close_braces_text(g@, f@.signature.params.take(i as int)),
            any_special == exists|k: int|
                0 <= k < i && !(overload_kind(g@, (#[trigger] f@.signature.params[k]).ty)
                    is Plain),
        decreases n - i,
    {
        proof {
            assert(crate::lang::params_view(params@)[i as int] == params@[i as int]@);
        }
        let p = &params[i];
        let ty: TypeId = p.ty;
        let node = g.get(ty);
        let is_pin = match node {
            CType::Pattern(pp) => matches!(
                pp,
                TypePattern::Slice(_) | TypePattern::SliceMut(_),
            ),
            _ => false,
        };
        let is_wrap = match node {
            CType::Pattern(pp) => matches!(
                pp,
                TypePattern::NamedCallback(_) | TypePattern::Utf8String(_),
            ),
            _ => false,
        };
        if i > 0 {
            sig_params.append(", ");
        }
        let pt = write_overload_param_type(g, ty, cfg);
        sig_params.append(pt.as_str());
        sig_params.append(" ");
        sig_params.append(p.name.as_str());
        if i > 0 {
            invoke_args.append(", ");
        }
        if is_pin {
            invoke_args.append(p.name.as_str());
            invoke_args.append("_slice");
            pin_blocks.append("    fixed (void* ptr_");
            pin_blocks.append(p.name.as_str());
            pin_blocks.append(" = ");
            pin_blocks.append(p.name.as_str());
            pin_blocks.append(")\n    {\n        var ");
            pin_blocks.append(p.name.as_str());
            pin_blocks.append("_slice = new ");
            let st = cs_type_text(g, ty, cfg);
            pin_blocks.append(st.as_str());
            pin_blocks.append("(new IntPtr(ptr_");
            pin_blocks.append(p.name.as_str());
            pin_blocks.append("), (ulong) ");
            pin_blocks.append(p.name.as_str());
            pin_blocks.append(".Length);\n");
            close_braces.append("    }\n");
            any_special = true;
        } else if is_wrap {
            invoke_args.append(p.name.as_str());
            invoke_args.append("_wrapped");
            wrap_lines.append("    var ");
            wrap_lines.append(p.name.as_str());
            wrap_lines.append("_wrapped = new ");
            let wt = cs_type_text(g, ty, cfg);
            wrap_lines.append(wt.as_str());
            wrap_lines.append("(");
            wrap_lines.append(p.name.as_str());
            wrap_lines.append(");\n");
            dispose_lines.append("        ");
            dispose_lines.append(p.name.as_str());
            dispose_lines.append("_wrapped.Dispose();\n");
            any_special = true;
        } else {
            invoke_args.append(p.name.as_str());
        }
        proof {
            let pv = f@.signature.params;
            assert(pv.take(i as int + 1).drop_last() =~= pv.take(i as int));
            assert(pv.take(i as int + 1).last() == pv[i as int]);
        }
        i = i + 1;
    }
    proof {
        assert(f@.signature.params.take(n as int) =~= f@.signature.params);
    }
    let rv: TypeId = f.signature().rval();
    let rv_is_cstr = matches!(g.get(rv), CType::Pattern(TypePattern::CStrPointer));
    let rv_is_void = matches!(g.get(rv), CType::Primitive(Primitive::Void));
    if !(any_special || rv_is_cstr) {
        proof {
            assert(!has_overloadable(g@, f@));
        }
        return String::new();
    }
    let mut call_stmt = String::new();
    if rv_is_cstr {
        call_stmt.append("        var s = ");
    } else if rv_is_void {
        call_stmt.append("        ");
    } else {
        call_stmt.append("        return ");
    }
    call_stmt.append(f.name().as_str());
    call_stmt.append("(");
    call_stmt.append(invoke_args.as_str());
    if rv_is_cstr {
        call_stmt.append(");\n        return Marshal.PtrToStringAnsi(s);\n");
    } else {
        call_stmt.append(");\n");
    }
    proof {
        assert(call_stmt@ == call_stmt_text(g@, f@));
    }
    let mut out = String::from_str("public static unsafe ");
    let rvt = cs_type_text(g, rv, cfg);
    out.append(rvt.as_str());
    out.append(" ");
    out.append(f.name().as_str());
    out.append("(");
    out.append(sig_params.as_str());
    out.append(")\n{\n");
    out.append(pin_blocks.as_str());
    out.append(wrap_lines.as_str());
    out.append("    try\n    {\n");
    out.append(call_stmt.as_str());
    out.append("    }\n    finally\n    {\n");
    out.append(dispose_lines.as_str());
    out.append("    }\n");
    out.append(close_braces.as_str());
    out.append("}\n");
    out
}

/// One function's whole lowering: import annotation, raw declaration, a
/// blank line, and the idiomatic overload.
pub open spec fn function_text(ts: Seq<CTypeV>, f: FunctionV, cfg: CSharpConfig) -> Seq<char> {
    function_annotation_text(ts, f, cfg) + cs_function_declaration_text(ts, f, cfg) + "\n"@
        + function_overload_text(ts, f, cfg)
}

/// Writes one function's whole lowering.
pub fn write_function(g: &TypeGraph, f: &Function, cfg: &CSharpConfig) -> (r: String)
    requires
        g.wf(),
        crate::backend_c::signature_ids_in(g@, f@.signature),
    ensures
        r@ == function_text(g@, f@, *cfg),
{
    let mut out = write_function_annotation(g, f, cfg);
    let decl = write_function_declaration(g, f, cfg);
    out.append(decl.as_str());
    out.append("\n");
    let overload = write_function_overload(g, f, cfg);
    out.append(overload.as_str());
    out
}

/// All function lowerings, in registration order.
pub open spec fn cs_functions_text(ts: Seq<CTypeV>, fs: Seq<FunctionV>, cfg: CSharpConfig) -> Seq<
    char,
>
    decreases fs.len(),
{
    if fs.len() == 0 {
        Seq::empty()
    } else {
        cs_functions_text(ts, fs.drop_last(), cfg) + function_text(ts, fs.last(), cfg) + "\n"@
    }
}

/// Writes every function's lowering, in registration order.
pub fn write_functions(g: &TypeGraph, fs: &Vec<Function>, cfg: &CSharpConfig) -> (r: String)
    requires
        g.wf(),
        forall|k: int|
            0 <= k < fs@.len() ==> crate::backend_c::signature_ids_in(
                g@,
                (#[trigger] crate::pattern::functions_view(fs@)[k]).signature,
            ),
    ensures
        r@ == cs_functions_text(g@, crate::pattern::functions_view(fs@), *cfg),
{
    let mut out = String::new();
    let n: usize = fs.len();
    let mut i: usize = 0;
    while i < n
        invariant
            g.wf(),
            n == fs@.len(),
            forall|k: int|
                0 <= k < fs@.len() ==> crate::backend_c::signature_ids_in(
                    g@,
                    (#[trigger] crate::pattern::functions_view(fs@)[k]).signature,
                ),
            i <= n,
            out@ == cs_functions_text(
                g@,
                crate::pattern::functions_view(fs@).take(i as int),
                *cfg,
            ),
        decreases n - i,
    {
        proof {
            assert(crate::pattern::functions_view(fs@)[i as int] == fs@[i as int]@);
        }
        let text = write_function(g, &fs[i], cfg);
        out.append(text.as_str());
        out.append("\n");
        proof {
            let fv = crate::pattern::functions_view(fs@);
            assert(fv.take(i as int + 1).drop_last() =~= fv.take(i as int));
            assert(fv.take(i as int + 1).last() == fv[i as int]);
        }
        i = i + 1;
    }
    proof {
        let fv = crate::pattern::functions_view(fs@);
        assert(fv.take(n as int) =~= fv);
    }
    out
}

} // verus!

verus! {

// ---------------------------------------------------------------------------
// Named callback classes: delegate, trampoline, deferred rethrow.
// ---------------------------------------------------------------------------

/// The comma-separated bare parameter names.
pub open spec fn param_names_text(params: Seq<ParameterV>) -> Seq<char>
    decreases params.len(),
{
    if params.len() == 0 {
        Seq::empty()
    } else {
        let sep: Seq<char> = if params.len() == 1 {
            Seq::empty()
        } else {
            ", "@
        };
        param_names_text(params.drop_last()) + sep + params.last().name
    }
}

/// Writes the comma-separated bare parameter names.
fn write_param_names(params: &Vec<crate::lang::Parameter>) -> (r: String)
    ensures
        r@ == param_names_text(crate::lang::params_view(params@)),
{
    let mut out = String::new();
    let n: usize = params.len();
    let mut i: usize = 0;
    while i < n
        invariant
            n == params@.len(),
            i <= n,
            out@ == param_names_text(crate::lang::params_view(params@).take(i as int)),
        decreases n - i,
    {
        proof {
            assert(crate::lang::params_view(params@)[i as int] == params@[i as int]@);
        }
        if i > 0 {
            out.append(", ");
        }
        out.append(params[i].name.as_str());
        proof {
            let pv = crate::lang::params_view(params@);
            assert(pv.take(i as int + 1).drop_last() =~= pv.take(i as int));
            assert(pv.take(i as int + 1).last() == pv[i as int]);
        }
        i = i + 1;
    }
    proof {
        let pv = crate::lang::params_view(params@);
        assert(pv.take(n as int) =~= pv);
    }
    out
}

/// The name of the first variant carrying the given value; empty when none
/// does.
pub open spec fn first_variant_with(vs: Seq<crate::lang::VariantV>, value: u64) -> Seq<char>
    decreases vs.len(),
{
    if vs.len() == 0 {
        Seq::empty()
    } else if vs.first().value == value {
        vs.first().name
    } else {
        first_variant_with(vs.drop_first(), value)
    }
}

/// Finds the name of the first variant carrying the given value.
fn find_variant_with(vs: &Vec<crate::lang::Variant>, value: u64) -> (r: String)
    ensures
        r@ == first_variant_with(crate::lang::variants_view(vs@), value),
    decreases vs@.len(),
{
    let n: usize = vs.len();
    let mut i: usize = 0;
    proof {
        assert(crate::lang::variants_view(vs@).skip(0) =~= crate::lang::variants_view(vs@));
    }
    while i < n
        invariant
            n == vs@.len(),
            i <= n,
            first_variant_with(crate::lang::variants_view(vs@), value) == first_variant_with(
                crate::lang::variants_view(vs@).skip(i as int),
                value,
            ),
        decreases n - i,
    {
        proof {
            let vv = crate::lang::variants_view(vs@);
            assert(vv.skip(i as int).first() == vv[i as int]);
            assert(vv.skip(i as int).drop_first() =~= vv.skip(i as int + 1));
        }
        if vs[i].value == value {
            return vs[i].name.clone();
        }
        i = i + 1;
    }
    proof {
        assert(crate::lang::variants_view(vs@).skip(n as int) =~= Seq::<
            crate::lang::VariantV,
        >::empty());
    }
    String::new()
}

/// What the trampoline returns from its catch block: nothing for a void
/// callback, the enum's reserved panic variant for an error-enum callback,
/// and the declared default otherwise.
pub open spec fn catch_return_text(ts: Seq<CTypeV>, rv: TypeId, cfg: CSharpConfig) -> Seq<char> {
    if rv < ts.len() {
        match ts[rv as int] {
            CTypeV::Primitive(p) => if p is Void {
                "return;"@
            } else {
                "return default;"@
            },
            CTypeV::Pattern(p) => match p {
                TypePatternV::SuccessEnum(e) => "return "@ + crate::backend_c::styled_name_v(
                    e.the_enum.name,
                    cfg.prefix@,
                    cfg.type_naming,
                ) + "."@ + first_variant_with(e.the_enum.variants, crate::inventory::PANIC_CODE)
                    + ";"@,
                _ => "return default;"@,
            },
            _ => "return default;"@,
        }
    } else {
        "return default;"@
    }
}

/// Writes the catch-block return.
fn write_catch_return(g: &TypeGraph, rv: TypeId, cfg: &CSharpConfig) -> (r: String)
    requires
        g.wf(),
        rv < g@.len(),
    ensures
        r@ == catch_return_text(g@, rv, *cfg),
{
    match g.get(rv) {
        CType::Primitive(p) => {
            if matches!(p, Primitive::Void) {
                String::from_str("return;")
            } else {
                String::from_str("return default;")
            }
        },
        CType::Pattern(TypePattern::SuccessEnum(e)) => {
            let mut out = String::from_str("return ");
            let ename = crate::backend_c::styled_name(
                e.the_enum.name().as_str(),
                cfg.prefix.as_str(),
                &cfg.type_naming,
            );
            out.append(ename.as_str());
            out.append(".");
            let vname = find_variant_with(e.the_enum.variants(), crate::inventory::PANIC_CODE);
            out.append(vname.as_str());
            out.append(";");
            out
        },
        _ => String::from_str("return default;"),
    }
}

/// The statement the trampoline uses to re-enter managed code.
pub open spec fn trampoline_invoke_text(ts: Seq<CTypeV>, nc: crate::lang::NamedCallbackV) -> Seq<
    char,
> {
    let rv = nc.fnpointer.signature.rval;
    if rv < ts.len() && ts[rv as int] == CTypeV::Primitive(Primitive::Void) {
        "_managed("@ + param_names_text(nc.fnpointer.signature.params) + ");"@
    } else {
        "return _managed("@ + param_names_text(nc.fnpointer.signature.params) + ");"@
    }
}

/// The whole class generated for a named callback: the delegate type, the
/// wrapper class holding the managed delegate and its function pointer,
/// the trampoline that catches a managed failure instead of letting it
/// unwind across the native frame and signals it through the declared
/// error channel, and the `Dispose` that re-raises a caught failure
/// exactly once.
pub open spec fn named_callback_text(
    ts: Seq<CTypeV>,
    nc: crate::lang::NamedCallbackV,
    cfg: CSharpConfig,
) -> Seq<char> {
    let rval = cs_type_text_v(ts, nc.fnpointer.signature.rval, cfg);
    let params = cs_params_text(ts, nc.fnpointer.signature.params, cfg);
    "public delegate "@ + rval + " "@ + nc.name + "Delegate("@ + params
        + ");\n\npublic partial class "@ + nc.name + " : IDisposable\n{\n    private "@ + nc.name
        + "Delegate _managed;\n    private IntPtr _ptr;\n    private Exception _exception;\n\n    public "@
        + nc.name + "("@ + nc.name
        + "Delegate managed)\n    {\n        _managed = managed;\n        _ptr = Marshal.GetFunctionPointerForDelegate(_managed);\n    }\n\n    private "@
        + rval + " CallTrampoline("@ + params
        + ")\n    {\n        try\n        {\n            "@ + trampoline_invoke_text(ts, nc)
        + "\n        }\n        catch (Exception e)\n        {\n            _exception = e;\n            "@
        + catch_return_text(ts, nc.fnpointer.signature.rval, cfg)
        + "\n        }\n    }\n\n    public void Dispose()\n    {\n        if (_exception != null) throw _exception;\n    }\n}\n"@
}

/// Writes the class generated for a named callback.
pub fn write_type_definition_named_callback(
    g: &TypeGraph,
    nc: &NamedCallback,
    cfg: &CSharpConfig,
) -> (r: String)
    requires
        g.wf(),
        crate::backend_c::signature_ids_in(g@, nc@.fnpointer.signature),
    ensures
        r@ == named_callback_text(g@, nc@, *cfg),
{
    let rval = cs_type_text(g, nc.fnpointer().signature().rval(), cfg);
    let params = write_cs_params(g, nc.fnpointer().signature().params(), cfg);
    let rv: TypeId = nc.fnpointer().signature().rval();
    let mut invoke = String::new();
    if matches!(g.get(rv), CType::Primitive(Primitive::Void)) {
        invoke.append("_managed(");
    } else {
        invoke.append("return _managed(");
    }
    let names = write_param_names(nc.fnpointer().signature().params());
    invoke.append(names.as_str());
    invoke.append(");");
    proof {
        assert(invoke@ == trampoline_invoke_text(g@, nc@));
    }
    let catch_ret = write_catch_return(g, rv, cfg);
    let mut out = String::from_str("public delegate ");
    out.append(rval.as_str());
    out.append(" ");
    out.append(nc.name().as_str());
    out.append("Delegate(");
    out.append(params.as_str());
    out.append(");\n\npublic partial class ");
    out.append(nc.name().as_str());
    out.append(" : IDisposable\n{\n    private ");
    out.append(nc.name().as_str());
    out.append("Delegate _managed;\n    private IntPtr _ptr;\n    private Exception _exception;\n\n    public ");
    out.append(nc.name().as_str());
    out.append("(");
    out.append(nc.name().as_str());
    out.append(
        "Delegate managed)\n    {\n        _managed = managed;\n        _ptr = Marshal.GetFunctionPointerForDelegate(_managed);\n    }\n\n    private ",
    );
    out.append(rval.as_str());
    out.append(" CallTrampoline(");
    out.append(params.as_str());
    out.append(")\n    {\n        try\n        {\n            ");
    out.append(invoke.as_str());
    out.append("\n        }\n        catch (Exception e)\n        {\n            _exception = e;\n            ");
    out.append(catch_ret.as_str());
    out.append(
        "\n        }\n    }\n\n    public void Dispose()\n    {\n        if (_exception != null) throw _exception;\n    }\n}\n",
    );
    out
}

} // verus!

verus! {

// ---------------------------------------------------------------------------
// Option, async trampoline and service patterns.
// ---------------------------------------------------------------------------

/// The conversion block generated for an inline option: construction from
/// a nullable and projection back to one.
pub open spec fn pattern_option_text(
    ts: Seq<CTypeV>,
    c: crate::lang::CompositeV,
    cfg: CSharpConfig,
) -> Seq<char> {
    if c.fields.len() >= 1 && c.fields[0].ty < ts.len() {
        let name = crate::backend_c::styled_name_v(c.name, cfg.prefix@, cfg.type_naming);
        let payload = cs_type_text_v(ts, c.fields[0].ty, cfg);
        "public partial struct "@ + name + "\n{\n    public static "@ + name + " FromNullable("@
            + payload + "? nullable)\n    {\n        var result = new "@ + name
            + "();\n        if (nullable.HasValue)\n        {\n            result.is_some = 1;\n            result.t = nullable.Value;\n        }\n\n        return result;\n    }\n\n    public "@
            + payload + "? ToNullable()\n    {\n        return this.is_some == 1 ? this.t : ("@
            + payload + "?)null;\n    }\n}\n"@
    } else {
        Seq::empty()
    }
}

/// Writes the conversion block generated for an inline option.
pub fn write_pattern_option(g: &TypeGraph, c: &crate::lang::CompositeType, cfg: &CSharpConfig) -> (r: String)
    requires
        g.wf(),
    ensures
        r@ == pattern_option_text(g@, c@, *cfg),
{
    if c.fields.len() >= 1 {
        let f0: TypeId = c.fields[0].ty;
        proof {
            assert(c@.fields[0] == c.fields@[0]@);
        }
        if f0 < g.len() {
            let name = crate::backend_c::styled_name(
                c.name().as_str(),
                cfg.prefix.as_str(),
                &cfg.type_naming,
            );
            let payload = cs_type_text(g, f0, cfg);
            let mut out = String::from_str("public partial struct ");
            out.append(name.as_str());
            out.append("\n{\n    public static ");
            out.append(name.as_str());
            out.append(" FromNullable(");
            out.append(payload.as_str());
            out.append(
                "? nullable)\n    {\n        var result = new ",
            );
            out.append(name.as_str());
            out.append(
                "();\n        if (nullable.HasValue)\n        {\n            result.is_some = 1;\n            result.t = nullable.Value;\n        }\n\n        return result;\n    }\n\n    public ",
            );
            out.append(payload.as_str());
            out.append("? ToNullable()\n    {\n        return this.is_some == 1 ? this.t : (");
            out.append(payload.as_str());
            out.append("?)null;\n    }\n}\n");
            return out;
        }
        return String::new();
    }
    String::new()
}

/// The async trampoline generated for one async callback: the static token
/// map, the completion entry that removes the token under the lock and
/// settles the matching continuation, and the issue entry that registers a
/// fresh token under the lock before the native call can run.
pub open spec fn pattern_async_trampoline_text(
    ts: Seq<CTypeV>,
    ac: crate::lang::AsyncCallbackV,
    cfg: CSharpConfig,
) -> Seq<char> {
    let inner = cs_type_text_v(ts, ac.target, cfg);
    "public struct AsyncTrampoline"@ + inner
        + "\n{\n    private static ulong Id = 0;\n    private static Dictionary<ulong, TaskCompletionSource<"@
        + inner
        + ">> InFlight = new();\n    private IntPtr _callback_ptr;\n\n    void Call(IntPtr data, IntPtr csPtr)\n    {\n        TaskCompletionSource<"@
        + inner
        + "> tcs;\n        lock (InFlight) { InFlight.Remove((ulong) csPtr, out tcs); }\n        var managed = Marshal.PtrToStructure<"@
        + inner + ">(data);\n        tcs.SetResult(managed);\n    }\n\n    public (IntPtr, ulong, Task<"@
        + inner + ">) NewCall()\n    {\n        var tcs = new TaskCompletionSource<"@ + inner
        + ">();\n        var id = Id++;\n        lock (InFlight) { InFlight.TryAdd(id, tcs); }\n        return (_callback_ptr, id, tcs.Task);\n    }\n}\n"@
}

/// Writes the async trampoline generated for one async callback.
pub fn write_pattern_async_trampoline(
    g: &TypeGraph,
    ac: &crate::lang::AsyncCallbackType,
    cfg: &CSharpConfig,
) -> (r: String)
    requires
        g.wf(),
        ac@.target < g@.len(),
    ensures
        r@ == pattern_async_trampoline_text(g@, ac@, *cfg),
{
    let inner = cs_type_text(g, ac.target, cfg);
    let mut out = String::from_str("public struct AsyncTrampoline");
    out.append(inner.as_str());
    out.append(
        "\n{\n    private static ulong Id = 0;\n    private static Dictionary<ulong, TaskCompletionSource<",
    );
    out.append(inner.as_str());
    out.append(
        ">> InFlight = new();\n    private IntPtr _callback_ptr;\n\n    void Call(IntPtr data, IntPtr csPtr)\n    {\n        TaskCompletionSource<",
    );
    out.append(inner.as_str());
    out.append(
        "> tcs;\n        lock (InFlight) { InFlight.Remove((ulong) csPtr, out tcs); }\n        var managed = Marshal.PtrToStructure<",
    );
    out.append(inner.as_str());
    out.append(">(data);\n        tcs.SetResult(managed);\n    }\n\n    public (IntPtr, ulong, Task<");
    out.append(inner.as_str());
    out.append(">) NewCall()\n    {\n        var tcs = new TaskCompletionSource<");
    out.append(inner.as_str());
    out.append(
        ">();\n        var id = Id++;\n        lock (InFlight) { InFlight.TryAdd(id, tcs); }\n        return (_callback_ptr, id, tcs.Task);\n    }\n}\n",
    );
    out
}

/// The initializer line of one async trampoline.
pub open spec fn trampoline_initializer_text(
    ts: Seq<CTypeV>,
    ac: crate::lang::AsyncCallbackV,
    cfg: CSharpConfig,
) -> Seq<char> {
    let inner = cs_type_text_v(ts, ac.target, cfg);
    "public static AsyncTrampoline"@ + inner + " _trampoline"@ + inner + " = new();\n"@
}

/// Writes the initializer line of one async trampoline.
pub fn write_pattern_async_trampoline_initializer(
    g: &TypeGraph,
    ac: &crate::lang::AsyncCallbackType,
    cfg: &CSharpConfig,
) -> (r: String)
    requires
        g.wf(),
        ac@.target < g@.len(),
    ensures
        r@ == trampoline_initializer_text(g@, ac@, *cfg),
{
    let inner = cs_type_text(g, ac.target, cfg);
    let mut out = String::from_str("public static AsyncTrampoline");
    out.append(inner.as_str());
    out.append(" _trampoline");
    out.append(inner.as_str());
    out.append(" = new();\n");
    out
}

/// What one closure member contributes to the trampoline initializers.
pub open spec fn trampoline_initializer_of(ts: Seq<CTypeV>, id: TypeId, cfg: CSharpConfig) -> Seq<
    char,
> {
    match ts[id as int] {
        CTypeV::Pattern(TypePatternV::AsyncCallback(ac)) => if ac.target < ts.len() {
            trampoline_initializer_text(ts, ac, cfg)
        } else {
            Seq::empty()
        },
        _ => Seq::empty(),
    }
}

/// All trampoline initializer lines of the reachable async callbacks.
pub open spec fn trampoline_initializers_text(
    ts: Seq<CTypeV>,
    closure: Seq<TypeId>,
    cfg: CSharpConfig,
) -> Seq<char>
    decreases closure.len(),
{
    if closure.len() == 0 {
        Seq::empty()
    } else {
        trampoline_initializers_text(ts, closure.drop_last(), cfg) + trampoline_initializer_of(
            ts,
            closure.last(),
            cfg,
        )
    }
}

/// Writes every trampoline initializer line.
pub fn write_pattern_async_trampoline_initializers(
    g: &TypeGraph,
    closure: &Vec<TypeId>,
    cfg: &CSharpConfig,
) -> (r: String)
    requires
        g.wf(),
        forall|k: int| 0 <= k < closure@.len() ==> #[trigger] closure@[k] < g@.len(),
    ensures
        r@ == trampoline_initializers_text(g@, closure@, *cfg),
{
    let mut out = String::new();
    let n: usize = closure.len();
    let mut i: usize = 0;
    while i < n
        invariant
            g.wf(),
            n == closure@.len(),
            forall|k: int| 0 <= k < closure@.len() ==> #[trigger] closure@[k] < g@.len(),
            i <= n,
            out@ == trampoline_initializers_text(g@, closure@.take(i as int), *cfg),
        decreases n - i,
    {
        let id: TypeId = closure[i];
        match g.get(id) {
            CType::Pattern(TypePattern::AsyncCallback(ac)) => {
                if ac.target < g.len() {
                    let line = write_pattern_async_trampoline_initializer(g, ac, cfg);
                    out.append(line.as_str());
                }
            },
            _ => {},
        }
        proof {
            assert(closure@.take(i as int + 1).drop_last() =~= closure@.take(i as int));
            assert(closure@.take(i as int + 1).last() == closure@[i as int]);
        }
        i = i + 1;
    }
    proof {
        assert(closure@.take(n as int) =~= closure@);
    }
    out
}

} // verus!

verus! {

// ---------------------------------------------------------------------------
// Service classes and the whole generated file.
// ---------------------------------------------------------------------------

/// The parameters after the receiver.
fn params_rest(params: &Vec<crate::lang::Parameter>) -> (r: Vec<crate::lang::Parameter>)
    ensures
        crate::lang::params_view(r@) == crate::lang::params_view(params@).skip(
            if params@.len() == 0 {
                0
            } else {
                1
            },
        ),
{
    let mut out: Vec<crate::lang::Parameter> = Vec::new();
    let n: usize = params.len();
    if n == 0 {
        proof {
            assert(crate::lang::params_view(out@) =~= crate::lang::params_view(params@).skip(0));
        }
        return out;
    }
    let mut i: usize = 1;
    while i < n
        invariant
            n == params@.len(),
            1 <= i <= n,
            out@.len() == i - 1,
            forall|k: int| 0 <= k < i - 1 ==> #[trigger] out@[k]@ == params@[k + 1]@,
        decreases n - i,
    {
        out.push(params[i].clone());
        i = i + 1;
    }
    proof {
        assert(crate::lang::params_view(out@) =~= crate::lang::params_view(params@).skip(1));
    }
    out
}

/// The `, name` arguments appended after the context handle.
pub open spec fn rest_args_text(params: Seq<ParameterV>) -> Seq<char>
    decreases params.len(),
{
    if params.len() == 0 {
        Seq::empty()
    } else {
        rest_args_text(params.drop_last()) + ", "@ + params.last().name
    }
}

/// Writes the `, name` arguments appended after the context handle.
fn write_rest_args(params: &Vec<crate::lang::Parameter>) -> (r: String)
    ensures
        r@ == rest_args_text(crate::lang::params_view(params@)),
{
    let mut out = String::new();
    let n: usize = params.len();
    let mut i: usize = 0;
    while i < n
        invariant
            n == params@.len(),
            i <= n,
            out@ == rest_args_text(crate::lang::params_view(params@).take(i as int)),
        decreases n - i,
    {
        proof {
            assert(crate::lang::params_view(params@)[i as int] == params@[i as int]@);
        }
        out.append(", ");
        out.append(params[i].name.as_str());
        proof {
            let pv = crate::lang::params_view(params@);
            assert(pv.take(i as int + 1).drop_last() =~= pv.take(i as int));
            assert(pv.take(i as int + 1).last() == pv[i as int]);
        }
        i = i + 1;
    }
    proof {
        let pv = crate::lang::params_view(params@);
        assert(pv.take(n as int) =~= pv);
    }
    out
}

/// One method of a service class: delegates to the raw declaration with
/// the stored context handle.
pub open spec fn service_method_text(ts: Seq<CTypeV>, m: FunctionV, cfg: CSharpConfig) -> Seq<
    char,
> {
    let rest = if m.signature.params.len() == 0 {
        m.signature.params.skip(0)
    } else {
        m.signature.params.skip(1)
    };
    let ret: Seq<char> = if m.signature.rval < ts.len() && ts[m.signature.rval as int]
        == CTypeV::Primitive(Primitive::Void) {
        "        "@
    } else {
        "        return "@
    };
    "    public "@ + cs_type_text_v(ts, m.signature.rval, cfg) + " "@ + m.name + "("@
        + cs_params_text(ts, rest, cfg) + ")\n    {\n"@ + ret + m.name + "(_context"@
        + rest_args_text(rest) + ");\n    }\n\n"@
}

/// All methods of a service class.
pub open spec fn service_methods_text(ts: Seq<CTypeV>, ms: Seq<FunctionV>, cfg: CSharpConfig) -> Seq<char>
    decreases ms.len(),
{
    if ms.len() == 0 {
        Seq::empty()
    } else {
        service_methods_text(ts, ms.drop_last(), cfg) + service_method_text(ts, ms.last(), cfg)
    }
}

/// The class generated for a service: construction writes the context
/// handle through the raw constructor and fails loudly on a non-success
/// code; `Dispose` destroys through the raw destructor; every method
/// delegates with the stored handle.
pub open spec fn pattern_service_text(
    ts: Seq<CTypeV>,
    s: crate::pattern::ServiceV,
    cfg: CSharpConfig,
) -> Seq<char> {
    if s.the_type < ts.len() && s.constructors.len() >= 1 {
        let name = crate::backend_c::styled_name_v(
            crate::lang::ctype_name_v(ts[s.the_type as int]),
            cfg.prefix@,
            cfg.type_naming,
        );
        let ctor = s.constructors.first();
        let ctor_rest = if ctor.signature.params.len() == 0 {
            ctor.signature.params.skip(0)
        } else {
            ctor.signature.params.skip(1)
        };
        "public partial class "@ + name
            + " : IDisposable\n{\n    private ulong _context;\n\n    public "@ + name + "("@
            + cs_params_text(ts, ctor_rest, cfg) + ")\n    {\n        var rval = "@ + ctor.name
            + "(out _context"@ + rest_args_text(ctor_rest)
            + ");\n        if (rval != 0) throw new InteropException();\n    }\n\n    public void Dispose()\n    {\n        var rval = "@
            + s.destructor.name
            + "(out _context);\n        if (rval != 0) throw new InteropException();\n    }\n\n"@
            + service_methods_text(ts, s.methods, cfg) + "}\n"@
    } else {
        Seq::empty()
    }
}

/// Writes one service method.
fn write_service_method(g: &TypeGraph, m: &Function, cfg: &CSharpConfig) -> (r: String)
    requires
        g.wf(),
        crate::backend_c::signature_ids_in(g@, m@.signature),
    ensures
        r@ == service_method_text(g@, m@, *cfg),
{
    let sig_params = m.signature().params();
    let rest = params_rest(sig_params);
    proof {
        let pv = crate::lang::params_view(sig_params@);
        assert(pv == m@.signature.params);
        assert forall|k: int|
            0 <= k < rest@.len() implies (#[trigger] crate::lang::params_view(rest@)[k]).ty
            < g@.len() by {
            if pv.len() > 0 {
                assert(crate::lang::params_view(rest@) == pv.skip(1));
                assert(crate::lang::params_view(rest@).len() == pv.len() - 1);
                assert(0 <= k + 1 < pv.len());
                assert(pv.subrange(1, pv.len() as int)[k] == pv[k + 1]);
                assert(crate::lang::params_view(rest@)[k] == pv[k + 1]);
                assert(pv[k + 1].ty < g@.len());
            } else {
                assert(crate::lang::params_view(rest@) == pv.skip(0));
                assert(pv.subrange(0, pv.len() as int).len() == 0);
                assert(rest@.len() == 0);
            }
        }
    }
    let mut out = String::from_str("    public ");
    let rvt = cs_type_text(g, m.signature().rval(), cfg);
    out.append(rvt.as_str());
    out.append(" ");
    out.append(m.name().as_str());
    out.append("(");
    let ps = write_cs_params(g, &rest, cfg);
    out.append(ps.as_str());
    out.append(")\n    {\n");
    if matches!(g.get(m.signature().rval()), CType::Primitive(Primitive::Void)) {
        out.append("        ");
    } else {
        out.append("        return ");
    }
    out.append(m.name().as_str());
    out.append("(_context");
    let args = write_rest_args(&rest);
    out.append(args.as_str());
    out.append(");\n    }\n\n");
    out
}

/// Writes the class generated for a service; nothing when the service has
/// no constructor or its receiver is unknown.
pub fn write_pattern_service(g: &TypeGraph, s: &crate::pattern::Service, cfg: &CSharpConfig) -> (r: String)
    requires
        g.wf(),
        s@.the_type < g@.len(),
        crate::backend_c::signature_ids_in(g@, s@.destructor.signature),
        forall|k: int|
            0 <= k < s@.constructors.len() ==> crate::backend_c::signature_ids_in(
                g@,
                (#[trigger] s@.constructors[k]).signature,
            ),
        forall|k: int|
            0 <= k < s@.methods.len() ==> crate::backend_c::signature_ids_in(
                g@,
                (#[trigger] s@.methods[k]).signature,
            ),
    ensures
        r@ == pattern_service_text(g@, s@, *cfg),
{
    let ctors = s.constructors();
    if ctors.len() == 0 {
        return String::new();
    }
    proof {
        assert(crate::pattern::functions_view(ctors@)[0] == ctors@[0]@);
        assert(s@.constructors.first() == ctors@[0]@);
    }
    let ctor = &ctors[0];
    let node = g.get(s.the_type());
    let name = crate::backend_c::styled_name(
        node.name_within_lib().as_str(),
        cfg.prefix.as_str(),
        &cfg.type_naming,
    );
    let ctor_params = ctor.signature().params();
    let ctor_rest = params_rest(ctor_params);
    proof {
        let pv = crate::lang::params_view(ctor_params@);
        assert(pv == ctor@.signature.params);
        assert forall|k: int|
            0 <= k < ctor_rest@.len() implies (#[trigger] crate::lang::params_view(
            ctor_rest@,
        )[k]).ty < g@.len() by {
            if pv.len() > 0 {
                assert(crate::lang::params_view(ctor_rest@) == pv.skip(1));
                assert(crate::lang::params_view(ctor_rest@).len() == pv.len() - 1);
                assert(0 <= k + 1 < pv.len());
                assert(pv.subrange(1, pv.len() as int)[k] == pv[k + 1]);
                assert(crate::lang::params_view(ctor_rest@)[k] == pv[k + 1]);
                assert(pv[k + 1].ty < g@.len());
            } else {
                assert(crate::lang::params_view(ctor_rest@) == pv.skip(0));
                assert(pv.subrange(0, pv.len() as int).len() == 0);
                assert(ctor_rest@.len() == 0);
            }
        }
    }
    let mut out = String::from_str("public partial class ");
    out.append(name.as_str());
    out.append(" : IDisposable\n{\n    private ulong _context;\n\n    public ");
    out.append(name.as_str());
    out.append("(");
    let cps = write_cs_params(g, &ctor_rest, cfg);
    out.append(cps.as_str());
    out.append(")\n    {\n        var rval = ");
    out.append(ctor.name().as_str());
    out.append("(out _context");
    let cargs = write_rest_args(&ctor_rest);
    out.append(cargs.as_str());
    out.append(
        ");\n        if (rval != 0) throw new InteropException();\n    }\n\n    public void Dispose()\n    {\n        var rval = ",
    );
    out.append(s.destructor().name().as_str());
    out.append(
        "(out _context);\n        if (rval != 0) throw new InteropException();\n    }\n\n",
    );
    let methods = s.methods();
    let n: usize = methods.len();
    let ghost head = out@;
    let mut i: usize = 0;
    while i < n
        invariant
            g.wf(),
            n == methods@.len(),
            crate::pattern::functions_view(methods@) == s@.methods,
            forall|k: int|
                0 <= k < s@.methods.len() ==> crate::backend_c::signature_ids_in(
                    g@,
                    (#[trigger] s@.methods[k]).signature,
                ),
            i <= n,
            out@ == head + service_methods_text(g@, s@.methods.take(i as int), *cfg),
        decreases n - i,
    {
        proof {
            assert(s@.methods[i as int] == methods@[i as int]@);
        }
        let mt = write_service_method(g, &methods[i], cfg);
        out.append(mt.as_str());
        proof {
            let mv = s@.methods;
            assert(mv.take(i as int + 1).drop_last() =~= mv.take(i as int));
            assert(mv.take(i as int + 1).last() == mv[i as int]);
        }
        i = i + 1;
    }
    proof {
        assert(s@.methods.take(n as int) =~= s@.methods);
    }
    out.append("}\n");
    out
}

/// What one library pattern contributes to the output.
pub open spec fn pattern_text(ts: Seq<CTypeV>, p: crate::pattern::LibraryPatternV, cfg: CSharpConfig) -> Seq<char> {
    match p {
        crate::pattern::LibraryPatternV::Service(s) => pattern_service_text(ts, s, cfg),
        crate::pattern::LibraryPatternV::Builtins(_) => Seq::empty(),
    }
}

/// All library pattern contributions, in registration order.
pub open spec fn patterns_text(
    ts: Seq<CTypeV>,
    ps: Seq<crate::pattern::LibraryPatternV>,
    cfg: CSharpConfig,
) -> Seq<char>
    decreases ps.len(),
{
    if ps.len() == 0 {
        Seq::empty()
    } else {
        patterns_text(ts, ps.drop_last(), cfg) + pattern_text(ts, ps.last(), cfg)
    }
}

/// Writes every library pattern's contribution.
pub fn write_patterns(g: &TypeGraph, ps: &Vec<crate::pattern::LibraryPattern>, cfg: &CSharpConfig) -> (r: String)
    requires
        g.wf(),
        forall|k: int|
            0 <= k < ps@.len() ==> pattern_ids_ok(
                g@,
                #[trigger] crate::pattern::patterns_view(ps@)[k],
            ),
    ensures
        r@ == patterns_text(g@, crate::pattern::patterns_view(ps@), *cfg),
{
    let mut out = String::new();
    let n: usize = ps.len();
    let mut i: usize = 0;
    while i < n
        invariant
            g.wf(),
            n == ps@.len(),
            forall|k: int|
                0 <= k < ps@.len() ==> pattern_ids_ok(
                    g@,
                    #[trigger] crate::pattern::patterns_view(ps@)[k],
                ),
            i <= n,
            out@ == patterns_text(g@, crate::pattern::patterns_view(ps@).take(i as int), *cfg),
        decreases n - i,
    {
        proof {
            assert(crate::pattern::patterns_view(ps@)[i as int] == ps@[i as int]@);
        }
        match &ps[i] {
            crate::pattern::LibraryPattern::Service(s) => {
                let text = write_pattern_service(g, s, cfg);
                out.append(text.as_str());
            },
            crate::pattern::LibraryPattern::Builtins(_) => {},
        }
        proof {
            let pv = crate::pattern::patterns_view(ps@);
            assert(pv.take(i as int + 1).drop_last() =~= pv.take(i as int));
            assert(pv.take(i as int + 1).last() == pv[i as int]);
        }
        i = i + 1;
    }
    proof {
        let pv = crate::pattern::patterns_view(ps@);
        assert(pv.take(n as int) =~= pv);
    }
    out
}

/// Every id a pattern's functions and receiver mention lies inside the
/// graph.
pub open spec fn pattern_ids_ok(ts: Seq<CTypeV>, p: crate::pattern::LibraryPatternV) -> bool {
    match p {
        crate::pattern::LibraryPatternV::Service(s) => {
            &&& s.the_type < ts.len()
            &&& crate::backend_c::signature_ids_in(ts, s.destructor.signature)
            &&& forall|k: int|
                0 <= k < s.constructors.len() ==> crate::backend_c::signature_ids_in(
                    ts,
                    (#[trigger] s.constructors[k]).signature,
                )
            &&& forall|k: int|
                0 <= k < s.methods.len() ==> crate::backend_c::signature_ids_in(
                    ts,
                    (#[trigger] s.methods[k]).signature,
                )
        },
        crate::pattern::LibraryPatternV::Builtins(_) => true,
    }
}

} // verus!

verus! {

/// What one reachable type contributes beyond its raw declaration: the
/// option conversions, the named-callback class, or the async trampoline.
pub open spec fn type_block_of(ts: Seq<CTypeV>, id: TypeId, cfg: CSharpConfig) -> Seq<char> {
    match ts[id as int] {
        CTypeV::Pattern(p) => match p {
            TypePatternV::Optional(c) => pattern_option_text(ts, c, cfg),
            TypePatternV::NamedCallback(nc) => named_callback_text(ts, nc, cfg),
            TypePatternV::AsyncCallback(ac) => if ac.target < ts.len() {
                pattern_async_trampoline_text(ts, ac, cfg)
            } else {
                Seq::empty()
            },
            _ => Seq::empty(),
        },
        _ => Seq::empty(),
    }
}

/// All type blocks of the reachable types, ascending by id.
pub open spec fn type_blocks_text(ts: Seq<CTypeV>, closure: Seq<TypeId>, cfg: CSharpConfig) -> Seq<char>
    decreases closure.len(),
{
    if closure.len() == 0 {
        Seq::empty()
    } else {
        type_blocks_text(ts, closure.drop_last(), cfg) + type_block_of(ts, closure.last(), cfg)
    }
}

/// Writes the type blocks of every reachable type.
pub fn write_type_blocks(g: &TypeGraph, closure: &Vec<TypeId>, cfg: &CSharpConfig) -> (r: String)
    requires
        g.wf(),
        forall|k: int| 0 <= k < closure@.len() ==> #[trigger] closure@[k] < g@.len(),
    ensures
        r@ == type_blocks_text(g@, closure@, *cfg),
{
    let mut out = String::new();
    let n: usize = closure.len();
    let mut i: usize = 0;
    while i < n
        invariant
            g.wf(),
            n == closure@.len(),
            forall|k: int| 0 <= k < closure@.len() ==> #[trigger] closure@[k] < g@.len(),
            i <= n,
            out@ == type_blocks_text(g@, closure@.take(i as int), *cfg),
        decreases n - i,
    {
        let id: TypeId = closure[i];
        proof {
            let ch = crate::lang::node_children(g@[id as int]);
            assert forall|k: int| 0 <= k < ch.len() implies #[trigger] ch[k] < g@.len() by {
                assert(ch[k] < id);
            }
        }
        match g.get(id) {
            CType::Pattern(TypePattern::Optional(c)) => {
                let block = write_pattern_option(g, c, cfg);
                out.append(block.as_str());
            },
            CType::Pattern(TypePattern::NamedCallback(nc)) => {
                proof {
                    let ch = crate::lang::node_children(g@[id as int]);
                    let s = nc@.fnpointer.signature;
                    assert(ch[ch.len() - 1] == s.rval);
                    assert forall|k: int|
                        0 <= k < s.params.len() implies (#[trigger] s.params[k]).ty
                        < g@.len() by {
                        assert(ch[k] == s.params.map_values(|p: ParameterV| p.ty)[k]);
                    }
                }
                let block = write_type_definition_named_callback(g, nc, cfg);
                out.append(block.as_str());
            },
            CType::Pattern(TypePattern::AsyncCallback(ac)) => {
                if ac.target < g.len() {
                    let block = write_pattern_async_trampoline(g, ac, cfg);
                    out.append(block.as_str());
                }
            },
            _ => {},
        }
        proof {
            assert(closure@.take(i as int + 1).drop_last() =~= closure@.take(i as int));
            assert(closure@.take(i as int + 1).last() == closure@[i as int]);
        }
        i = i + 1;
    }
    proof {
        assert(closure@.take(n as int) =~= closure@);
    }
    out
}

/// In a well-formed library every pattern's receiver and function
/// signatures lie inside the graph.
pub proof fn lemma_library_pattern_ids(lib: &Library)
    requires
        lib.wf(),
    ensures
        forall|k: int|
            0 <= k < lib.inv().patterns.len() ==> pattern_ids_ok(
                lib.types(),
                #[trigger] lib.inv().patterns[k],
            ),
{
    let ts = lib.types();
    let inv = lib.inv();
    assert forall|k: int|
        0 <= k < inv.patterns.len() implies pattern_ids_ok(ts, #[trigger] inv.patterns[k]) by {
        match inv.patterns[k] {
            crate::pattern::LibraryPatternV::Service(s) => {
                assert(crate::inventory::pattern_root(inv.patterns[k], s.the_type));
                assert(crate::inventory::is_root(inv, s.the_type));
                assert(crate::backend_c::signature_ids_in(ts, s.destructor.signature)) by {
                    lemma_sig_root_ids(ts, inv, k, s.destructor.signature);
                }
                assert forall|j: int|
                    0 <= j < s.constructors.len() implies crate::backend_c::signature_ids_in(
                    ts,
                    (#[trigger] s.constructors[j]).signature,
                ) by {
                    lemma_sig_root_ids(ts, inv, k, s.constructors[j].signature);
                }
                assert forall|j: int|
                    0 <= j < s.methods.len() implies crate::backend_c::signature_ids_in(
                    ts,
                    (#[trigger] s.methods[j]).signature,
                ) by {
                    lemma_sig_root_ids(ts, inv, k, s.methods[j].signature);
                }
            },
            crate::pattern::LibraryPatternV::Builtins(_) => {},
        }
    }
}

/// Every id of a signature that contributes pattern roots lies inside the
/// graph.
proof fn lemma_sig_root_ids(
    ts: Seq<CTypeV>,
    inv: crate::inventory::InventoryV,
    k: int,
    s: crate::lang::SignatureV,
)
    requires
        crate::inventory::inventory_ids_ok(ts, inv),
        0 <= k < inv.patterns.len(),
        forall|id: crate::lang::TypeId|
            crate::lang::signature_children(s).contains(id) ==> #[trigger] crate::inventory::pattern_root(
                inv.patterns[k],
                id,
            ),
    ensures
        crate::backend_c::signature_ids_in(ts, s),
{
    let ch = crate::lang::signature_children(s);
    assert(ch[ch.len() - 1] == s.rval);
    assert(ch.contains(s.rval));
    assert(crate::inventory::pattern_root(inv.patterns[k], s.rval));
    assert(crate::inventory::is_root(inv, s.rval));
    assert forall|j: int| 0 <= j < s.params.len() implies (#[trigger] s.params[j]).ty
        < ts.len() by {
        assert(ch[j] == s.params.map_values(|p: ParameterV| p.ty)[j]);
        assert(ch.contains(s.params[j].ty));
        assert(crate::inventory::pattern_root(inv.patterns[k], s.params[j].ty));
        assert(crate::inventory::is_root(inv, s.params[j].ty));
    }
}

/// The complete generated file.
pub open spec fn generated_file_text(
    ts: Seq<CTypeV>,
    inv: crate::inventory::InventoryV,
    closure: Seq<TypeId>,
    cfg: CSharpConfig,
) -> Seq<char> {
    "public static partial class "@ + cfg.class@ + "\n{\n    public const string NativeLib = \""@
        + cfg.dll_name@ + "\";\n\n"@ + cs_functions_text(ts, inv.functions, cfg)
        + trampoline_initializers_text(ts, closure, cfg) + "}\n\n"@ + type_blocks_text(
        ts,
        closure,
        cfg,
    ) + patterns_text(ts, inv.patterns, cfg)
}

/// Converts a validated library into C# interop definitions.
pub struct Generator {
    /// The configuration.
    pub config: CSharpConfig,
    /// The validated library.
    pub library: Library,
}

impl Generator {
    /// Pairs a configuration with a validated library.
    pub fn new(config: CSharpConfig, library: Library) -> (r: Generator)
        requires
            library.wf(),
        ensures
            r.config == config,
            r.library == library,
            r.library.wf(),
    {
        Generator { config, library }
    }

    /// Generates the whole file; identical library and configuration
    /// reproduce byte-identical output.
    pub fn to_string(&self) -> (r: String)
        requires
            self.library.wf(),
        ensures
            r@ == generated_file_text(
                self.library.types(),
                self.library.inv(),
                self.library.closure_ids(),
                self.config,
            ),
    {
        let g = self.library.graph();
        proof {
            crate::backend_c::lemma_library_function_ids(&self.library);
            lemma_library_pattern_ids(&self.library);
        }
        let mut out = String::from_str("public static partial class ");
        out.append(self.config.class.as_str());
        out.append("\n{\n    public const string NativeLib = \"");
        out.append(self.config.dll_name.as_str());
        out.append("\";\n\n");
        let functions = write_functions(g, self.library.functions(), &self.config);
        out.append(functions.as_str());
        let initializers = write_pattern_async_trampoline_initializers(
            g,
            self.library.closure(),
            &self.config,
        );
        out.append(initializers.as_str());
        out.append("}\n\n");
        let blocks = write_type_blocks(g, self.library.closure(), &self.config);
        out.append(blocks.as_str());
        let patterns = write_patterns(g, self.library.patterns(), &self.config);
        out.append(patterns.as_str());
        out
    }
}

} // verus!
