//! The C backend: lowers a validated [`Library`] into one C header. The
//! output is a pure function of the library and the configuration —
//! identical inputs reproduce byte-identical text.

use vstd::prelude::*;
use vstd::string::StrSliceExecFns;
use crate::inventory::Library;
use crate::lang::CType;
use crate::lang::CTypeV;
use crate::lang::Primitive;
use crate::lang::PrimitiveValue;
use crate::lang::TypeGraph;
use crate::lang::TypeId;
use crate::naming::NameCase;
use crate::naming::ToNamingStyle;

verus! {

/// How to lay out functions.
#[derive(Clone, Copy, PartialEq, Eq, Structural, Debug)]
pub enum Functions {
    /// Emit function typedefs.
    Typedefs,
    /// Emit plain forward declarations.
    ForwardDeclarations,
}

impl Default for Functions {
    fn default() -> (r: Self)
        ensures
            r == Functions::ForwardDeclarations,
    {
        Functions::ForwardDeclarations
    }
}

/// How to name enum variants.
#[derive(Clone, Copy, PartialEq, Eq, Structural, Debug)]
pub enum EnumVariants {
    /// Prefix each variant with the enum's name.
    WithEnumName,
    /// Emit the bare variant name.
    VariantName,
}

impl Default for EnumVariants {
    fn default() -> (r: Self)
        ensures
            r == EnumVariants::WithEnumName,
    {
        EnumVariants::WithEnumName
    }
}

/// How to indent (Allman, K&R, ...).
#[derive(Clone, Copy, PartialEq, Eq, Structural, Debug)]
pub enum Indentation {
    /// Braces on their own lines, not indented.
    Allman,
    /// Opening brace on the declaration's line, closing brace on its own
    /// line, not indented.
    KAndR,
    /// Braces on their own lines, indented by two spaces.
    GNU,
    /// Braces on their own lines, indented level with members.
    Whitesmiths,
}

impl Default for Indentation {
    fn default() -> (r: Self)
        ensures
            r == Indentation::Whitesmiths,
    {
        Indentation::Whitesmiths
    }
}

/// Documentation style used in the generated header.
#[derive(Clone, Copy, PartialEq, Eq, Structural, Debug)]
pub enum DocStyle {
    /// No documentation comments are added.
    Omitted,
    /// Documentation is added inline above the relevant declaration.
    Inline,
}

impl Default for DocStyle {
    fn default() -> (r: Self)
        ensures
            r == DocStyle::Inline,
    {
        DocStyle::Inline
    }
}

// ---------------------------------------------------------------------------
// Decimal rendering of constant values.
// ---------------------------------------------------------------------------

/// The decimal digits of `n`.
pub open spec fn dec_str(n: nat) -> Seq<char>
    decreases n,
{
    if n < 10 {
        seq![(48 + n) as char]
    } else {
        dec_str(n / 10) + seq![(48 + n % 10) as char]
    }
}

/// The rendered text of a constant's value: the decimal digits, with a
/// leading minus for negative values, and `true`/`false` for booleans.
pub open spec fn value_text(v: PrimitiveValue) -> Seq<char> {
    match v {
        PrimitiveValue::Bool(b) => if b {
            "true"@
        } else {
            "false"@
        },
        PrimitiveValue::U8(x) => dec_str(x as nat),
        PrimitiveValue::U16(x) => dec_str(x as nat),
        PrimitiveValue::U32(x) => dec_str(x as nat),
        PrimitiveValue::U64(x) => dec_str(x as nat),
        PrimitiveValue::I8(x) => signed_text(x as int),
        PrimitiveValue::I16(x) => signed_text(x as int),
        PrimitiveValue::I32(x) => signed_text(x as int),
        PrimitiveValue::I64(x) => signed_text(x as int),
    }
}

/// The rendered text of a signed value.
pub open spec fn signed_text(x: int) -> Seq<char> {
    if x < 0 {
        seq!['-'] + dec_str((-x) as nat)
    } else {
        dec_str(x as nat)
    }
}

/// The decimal digits of `n`, as characters.
fn dec_chars(n: u64) -> (r: Vec<char>)
    ensures
        r@ == dec_str(n as nat),
    decreases n,
{
    if n < 10 {
        let mut out: Vec<char> = Vec::new();
        let d: u8 = 48 + (n as u8);
        out.push(d as char);
        proof {
            assert(out@ =~= seq![(48 + n) as char]);
        }
        out
    } else {
        proof {
            assert(n / 10 < n) by (nonlinear_arith)
                requires
                    n >= 10,
            ;
        }
        let mut out = dec_chars(n / 10);
        let d: u8 = 48 + ((n % 10) as u8);
        out.push(d as char);
        proof {
            assert(out@ =~= dec_str((n / 10) as nat) + seq![(48 + (n as nat) % 10) as char]);
        }
        out
    }
}

/// Renders an unsigned value in decimal.
pub fn u64_text(n: u64) -> (r: String)
    ensures
        r@ == dec_str(n as nat),
{
    crate::strings::chars_to_string(dec_chars(n))
}

/// Renders a signed value in decimal.
pub fn i64_text(x: i64) -> (r: String)
    ensures
        r@ == signed_text(x as int),
{
    if x < 0 {
        let magnitude: u64 = (-(x as i128)) as u64;
        let mut chars: Vec<char> = Vec::new();
        chars.push('-');
        let mut digits = dec_chars(magnitude);
        let n: usize = digits.len();
        let mut i: usize = 0;
        while i < n
            invariant
                n == digits@.len(),
                i <= n,
                chars@ == seq!['-'] + digits@.take(i as int),
                digits@ == dec_str((-(x as int)) as nat),
            decreases n - i,
        {
            chars.push(digits[i]);
            proof {
                assert(chars@ =~= seq!['-'] + digits@.take(i as int + 1));
            }
            i = i + 1;
        }
        proof {
            assert(chars@ =~= seq!['-'] + digits@);
        }
        crate::strings::chars_to_string(chars)
    } else {
        u64_text(x as u64)
    }
}

/// Renders a constant's value.
pub fn primitive_value_text(v: PrimitiveValue) -> (r: String)
    ensures
        r@ == value_text(v),
{
    match v {
        PrimitiveValue::Bool(b) => if b {
            String::from_str("true")
        } else {
            String::from_str("false")
        },
        PrimitiveValue::U8(x) => u64_text(x as u64),
        PrimitiveValue::U16(x) => u64_text(x as u64),
        PrimitiveValue::U32(x) => u64_text(x as u64),
        PrimitiveValue::U64(x) => u64_text(x),
        PrimitiveValue::I8(x) => i64_text(x as i64),
        PrimitiveValue::I16(x) => i64_text(x as i64),
        PrimitiveValue::I32(x) => i64_text(x as i64),
        PrimitiveValue::I64(x) => i64_text(x),
    }
}

} // verus!

verus! {

// ---------------------------------------------------------------------------
// Rendering C type references.
// ---------------------------------------------------------------------------

/// The C spelling of a primitive.
pub open spec fn c_primitive_text(p: Primitive) -> Seq<char> {
    match p {
        Primitive::Void => "void"@,
        Primitive::Bool => "bool"@,
        Primitive::U8 => "uint8_t"@,
        Primitive::U16 => "uint16_t"@,
        Primitive::U32 => "uint32_t"@,
        Primitive::U64 => "uint64_t"@,
        Primitive::I8 => "int8_t"@,
        Primitive::I16 => "int16_t"@,
        Primitive::I32 => "int32_t"@,
        Primitive::I64 => "int64_t"@,
    }
}

/// The styled, prefixed public name of a named type.
pub open spec fn styled_type_name(
    ts: Seq<CTypeV>,
    id: TypeId,
    prefix: Seq<char>,
    naming: NameCase,
) -> Seq<char> {
    prefix + crate::naming::naming_style_of(crate::lang::ctype_name_v(ts[id as int]), naming)
}

/// How a type is spelled where it is referred to (a field, parameter or
/// return position) in C.
pub open spec fn c_type_text_v(
    ts: Seq<CTypeV>,
    id: TypeId,
    prefix: Seq<char>,
    naming: NameCase,
) -> Seq<char>
    decreases id, 1int, 0int,
{
    if id < ts.len() {
        match ts[id as int] {
            CTypeV::Primitive(p) => c_primitive_text(p),
            CTypeV::Composite(_) => styled_type_name(ts, id, prefix, naming),
            CTypeV::Opaque(_) => styled_type_name(ts, id, prefix, naming),
            CTypeV::Enum(_) => styled_type_name(ts, id, prefix, naming),
            CTypeV::FnPointer(f) => {
                if f.signature.rval < id {
                    c_type_text_v(ts, f.signature.rval, prefix, naming) + " (*)("@
                        + c_params_types_text_v(ts, f.signature.params, id, prefix, naming)
                        + ")"@
                } else {
                    Seq::empty()
                }
            },
            CTypeV::ReadPointer(t) => if t < id {
                "const "@ + c_type_text_v(ts, t, prefix, naming) + "*"@
            } else {
                Seq::empty()
            },
            CTypeV::ReadWritePointer(t) => if t < id {
                c_type_text_v(ts, t, prefix, naming) + "*"@
            } else {
                Seq::empty()
            },
            CTypeV::Pattern(p) => if p is CStrPointer {
                "const uint8_t*"@
            } else {
                styled_type_name(ts, id, prefix, naming)
            },
        }
    } else {
        Seq::empty()
    }
}

/// The comma-separated C spellings of parameter types, as they appear in a
/// function-pointer shape.
pub open spec fn c_params_types_text_v(
    ts: Seq<CTypeV>,
    params: Seq<crate::lang::ParameterV>,
    bound: TypeId,
    prefix: Seq<char>,
    naming: NameCase,
) -> Seq<char>
    decreases bound, 0int, params.len(),
{
    if params.len() == 0 {
        Seq::empty()
    } else {
        let last = params.last();
        let head = c_params_types_text_v(ts, params.drop_last(), bound, prefix, naming);
        let sep: Seq<char> = if params.len() == 1 {
            Seq::empty()
        } else {
            ", "@
        };
        if last.ty < bound {
            head + sep + c_type_text_v(ts, last.ty, prefix, naming)
        } else {
            head + sep
        }
    }
}

/// Renders the C spelling of a type reference.
pub fn c_type_text(g: &TypeGraph, id: TypeId, prefix: &str, naming: &NameCase) -> (r: String)
    requires
        g.wf(),
        id < g@.len(),
    ensures
        r@ == c_type_text_v(g@, id, prefix@, *naming),
    decreases id,
{
    match g.get(id) {
        CType::Primitive(p) => match p {
            Primitive::Void => String::from_str("void"),
            Primitive::Bool => String::from_str("bool"),
            Primitive::U8 => String::from_str("uint8_t"),
            Primitive::U16 => String::from_str("uint16_t"),
            Primitive::U32 => String::from_str("uint32_t"),
            Primitive::U64 => String::from_str("uint64_t"),
            Primitive::I8 => String::from_str("int8_t"),
            Primitive::I16 => String::from_str("int16_t"),
            Primitive::I32 => String::from_str("int32_t"),
            Primitive::I64 => String::from_str("int64_t"),
        },
        CType::FnPointer(f) => {
            let rv: TypeId = f.signature.rval;
            proof {
                let ch = crate::lang::node_children(g@[id as int]);
                assert(ch[ch.len() - 1] == rv);
                assert(ch[ch.len() - 1] < id);
                let pv = crate::lang::params_view(f.signature.params@);
                assert forall|k: int| 0 <= k < pv.len() implies (#[trigger] pv[k]).ty < id by {
                    assert(ch[k] == pv.map_values(|p: crate::lang::ParameterV| p.ty)[k]);
                    assert(ch[k] < id);
                }
            }
            let mut out = c_type_text(g, rv, prefix, naming);
            out.append(" (*)(");
            let params_text = c_params_types_text(g, &f.signature.params, id, prefix, naming);
            out.append(params_text.as_str());
            out.append(")");
            out
        },
        CType::ReadPointer(t) => {
            let t = *t;
            proof {
                assert(crate::lang::node_children(g@[id as int])[0] < id);
            }
            let mut out = String::from_str("const ");
            let inner = c_type_text(g, t, prefix, naming);
            out.append(inner.as_str());
            out.append("*");
            out
        },
        CType::ReadWritePointer(t) => {
            let t = *t;
            proof {
                assert(crate::lang::node_children(g@[id as int])[0] < id);
            }
            let mut out = c_type_text(g, t, prefix, naming);
            out.append("*");
            out
        },
        CType::Pattern(p) => {
            if matches!(p, crate::lang::TypePattern::CStrPointer) {
                String::from_str("const uint8_t*")
            } else {
                let node = g.get(id);
                let mut out = String::from_str(prefix);
                let styled = node.name_within_lib().as_str().to_naming_style(naming);
                out.append(styled.as_str());
                out
            }
        },
        _ => {
            let node = g.get(id);
            let mut out = String::from_str(prefix);
            let styled = node.name_within_lib().as_str().to_naming_style(naming);
            out.append(styled.as_str());
            out
        },
    }
}

/// Renders the comma-separated C spellings of parameter types.
fn c_params_types_text(
    g: &TypeGraph,
    params: &Vec<crate::lang::Parameter>,
    bound: TypeId,
    prefix: &str,
    naming: &NameCase,
) -> (r: String)
    requires
        g.wf(),
        bound <= g@.len(),
        forall|k: int|
            0 <= k < params@.len() ==> (#[trigger] crate::lang::params_view(params@)[k]).ty
                < bound,
    ensures
        r@ == c_params_types_text_v(g@, crate::lang::params_view(params@), bound, prefix@, *naming),
    decreases bound, params@.len(),
{
    let mut out = String::new();
    let n: usize = params.len();
    let mut i: usize = 0;
    while i < n
        invariant
            g.wf(),
            bound <= g@.len(),
            n == params@.len(),
            forall|k: int|
                0 <= k < params@.len() ==> (#[trigger] crate::lang::params_view(params@)[k]).ty
                    < bound,
            i <= n,
            out@ == c_params_types_text_v(
                g@,
                crate::lang::params_view(params@).take(i as int),
                bound,
                prefix@,
                *naming,
            ),
        decreases n - i,
    {
        if i > 0 {
            out.append(", ");
        }
        let ty: TypeId = params[i].ty;
        proof {
            assert(crate::lang::params_view(params@)[i as int].ty == ty);
        }
        let t = c_type_text(g, ty, prefix, naming);
        out.append(t.as_str());
        proof {
            let pv = crate::lang::params_view(params@);
            assert(pv.take(i as int + 1).drop_last() =~= pv.take(i as int));
            assert(pv.take(i as int + 1).last() == pv[i as int]);
        }
        i = i + 1;
    }
    proof {
        let pv = crate::lang::params_view(params@);
        assert(pv.take(n as int) =~= pv);
    }
    out
}

} // verus!

verus! {

// ---------------------------------------------------------------------------
// The C generator configuration.
// ---------------------------------------------------------------------------

/// Generates C headers; configure and create it with [`InteropBuilder`].
pub struct Interop {
    /// Whether to write guard directives around the header.
    pub directives: bool,
    /// Whether to write the import lines.
    pub imports: bool,
    /// Import lines, written verbatim.
    pub includes: Vec<String>,
    /// The guard symbol.
    pub ifndef: String,
    /// Custom definition lines, written verbatim.
    pub defines: Vec<String>,
    /// Prefix applied to every function declaration.
    pub function_attribute: String,
    /// Comment at the very beginning of the file.
    pub file_header_comment: String,
    /// Symbol prefix applied to every public name.
    pub prefix: String,
    /// How to indent braces.
    pub indentation: Indentation,
    /// How to add code documentation.
    pub documentation: DocStyle,
    /// How to convert type names.
    pub type_naming: NameCase,
    /// How to convert enum variant names.
    pub enum_variant_naming: NameCase,
    /// How to convert constant names.
    pub const_naming: NameCase,
    /// How to convert function parameter names.
    pub function_parameter_naming: NameCase,
    /// How to emit enum variants.
    pub enum_variant_style: EnumVariants,
    /// How to emit functions.
    pub function_style: Functions,
    /// Text placed right after the guard, e.g. a C++ compatibility
    /// preamble; written verbatim.
    pub compat_header: String,
    /// Text placed right before the guard's end; written verbatim.
    pub compat_footer: String,
}

/// Builds an [`Interop`], starting from the default configuration.
pub struct InteropBuilder {
    /// The configuration being built.
    pub cfg: Interop,
}

impl InteropBuilder {
    /// A builder holding the default configuration.
    pub fn new() -> (r: InteropBuilder)
        ensures
            r.cfg.prefix@ == Seq::<char>::empty(),
            r.cfg.type_naming == NameCase::UpperCamel,
            r.cfg.const_naming == NameCase::ShoutySnake,
            r.cfg.enum_variant_naming == NameCase::ShoutySnake,
            r.cfg.function_parameter_naming == NameCase::Snake,
            r.cfg.enum_variant_style == EnumVariants::WithEnumName,
            r.cfg.function_style == Functions::ForwardDeclarations,
    {
        InteropBuilder {
            cfg: Interop {
                directives: true,
                imports: true,
                includes: Vec::new(),
                ifndef: String::from_str("interoptopus_generated"),
                defines: Vec::new(),
                function_attribute: String::new(),
                file_header_comment: String::new(),
                prefix: String::new(),
                indentation: Indentation::Whitesmiths,
                documentation: DocStyle::Inline,
                type_naming: NameCase::UpperCamel,
                enum_variant_naming: NameCase::ShoutySnake,
                const_naming: NameCase::ShoutySnake,
                function_parameter_naming: NameCase::Snake,
                enum_variant_style: EnumVariants::WithEnumName,
                function_style: Functions::ForwardDeclarations,
                compat_header: String::new(),
                compat_footer: String::new(),
            },
        }
    }

    /// Sets the symbol prefix.
    pub fn prefix(self, prefix: String) -> (r: InteropBuilder)
        ensures
            r.cfg.prefix == prefix,
    {
        let mut b = self;
        b.cfg.prefix = prefix;
        b
    }

    /// Sets the guard symbol.
    pub fn ifndef(self, ifndef: String) -> (r: InteropBuilder)
        ensures
            r.cfg.ifndef == ifndef,
    {
        let mut b = self;
        b.cfg.ifndef = ifndef;
        b
    }

    /// Sets the file header comment.
    pub fn file_header_comment(self, comment: String) -> (r: InteropBuilder)
        ensures
            r.cfg.file_header_comment == comment,
    {
        let mut b = self;
        b.cfg.file_header_comment = comment;
        b
    }

    /// Sets the import lines.
    pub fn includes(self, includes: Vec<String>) -> (r: InteropBuilder)
        ensures
            r.cfg.includes == includes,
    {
        let mut b = self;
        b.cfg.includes = includes;
        b
    }

    /// Sets the custom definition lines.
    pub fn defines(self, defines: Vec<String>) -> (r: InteropBuilder)
        ensures
            r.cfg.defines == defines,
    {
        let mut b = self;
        b.cfg.defines = defines;
        b
    }

    /// Sets the type naming case.
    pub fn type_naming(self, naming: NameCase) -> (r: InteropBuilder)
        ensures
            r.cfg.type_naming == naming,
    {
        let mut b = self;
        b.cfg.type_naming = naming;
        b
    }

    /// Sets how functions are emitted.
    pub fn function_style(self, style: Functions) -> (r: InteropBuilder)
        ensures
            r.cfg.function_style == style,
    {
        let mut b = self;
        b.cfg.function_style = style;
        b
    }

    /// Sets how braces are laid out.
    pub fn indentation(self, indentation: Indentation) -> (r: InteropBuilder)
        ensures
            r.cfg.indentation == indentation,
    {
        let mut b = self;
        b.cfg.indentation = indentation;
        b
    }

    /// The finished configuration.
    pub fn build(self) -> (r: Interop)
        ensures
            r == self.cfg,
    {
        self.cfg
    }
}

// ---------------------------------------------------------------------------
// Header text, piece by piece.
// ---------------------------------------------------------------------------

/// The prefixed, styled spelling of one public name.
pub open spec fn styled_name_v(name: Seq<char>, prefix: Seq<char>, naming: NameCase) -> Seq<char> {
    prefix + crate::naming::naming_style_of(name, naming)
}

/// Renders one prefixed, styled public name.
pub fn styled_name(name: &str, prefix: &str, naming: &NameCase) -> (r: String)
    ensures
        r@ == styled_name_v(name@, prefix@, *naming),
{
    let mut out = String::from_str(prefix);
    let styled = name.to_naming_style(naming);
    out.append(styled.as_str());
    out
}

/// One constant definition line.
pub open spec fn constant_text(c: crate::lang::ConstantV, cfg: Interop) -> Seq<char> {
    "#define "@ + styled_name_v(c.name, cfg.prefix@, cfg.const_naming) + " "@ + value_text(c.value)
        + "\n"@
}

/// All constant definition lines, in registration order.
pub open spec fn constants_text(cs: Seq<crate::lang::ConstantV>, cfg: Interop) -> Seq<char>
    decreases cs.len(),
{
    if cs.len() == 0 {
        Seq::empty()
    } else {
        constants_text(cs.drop_last(), cfg) + constant_text(cs.last(), cfg)
    }
}

/// Writes one constant definition line.
pub fn write_constant(c: &crate::lang::Constant, cfg: &Interop) -> (r: String)
    ensures
        r@ == constant_text(c@, *cfg),
{
    let mut out = String::from_str("#define ");
    let name = styled_name(c.name().as_str(), cfg.prefix.as_str(), &cfg.const_naming);
    out.append(name.as_str());
    out.append(" ");
    let value = primitive_value_text(c.value());
    out.append(value.as_str());
    out.append("\n");
    out
}

/// Writes all constant definition lines.
pub fn write_constants(cs: &Vec<crate::lang::Constant>, cfg: &Interop) -> (r: String)
    ensures
        r@ == constants_text(crate::inventory::constants_view(cs@), *cfg),
{
    let mut out = String::new();
    let n: usize = cs.len();
    let mut i: usize = 0;
    while i < n
        invariant
            n == cs@.len(),
            i <= n,
            out@ == constants_text(
                crate::inventory::constants_view(cs@).take(i as int),
                *cfg,
            ),
        decreases n - i,
    {
        let line = write_constant(&cs[i], cfg);
        out.append(line.as_str());
        proof {
            let cv = crate::inventory::constants_view(cs@);
            assert(cv.take(i as int + 1).drop_last() =~= cv.take(i as int));
            assert(cv.take(i as int + 1).last() == cv[i as int]);
        }
        i = i + 1;
    }
    proof {
        let cv = crate::inventory::constants_view(cs@);
        assert(cv.take(n as int) =~= cv);
    }
    out
}

/// Lines written verbatim, each followed by a newline.
pub open spec fn verbatim_lines_text(lines: Seq<String>) -> Seq<char>
    decreases lines.len(),
{
    if lines.len() == 0 {
        Seq::empty()
    } else {
        verbatim_lines_text(lines.drop_last()) + lines.last()@ + "\n"@
    }
}

/// Writes lines verbatim, each followed by a newline.
pub fn write_verbatim_lines(lines: &Vec<String>) -> (r: String)
    ensures
        r@ == verbatim_lines_text(lines@),
{
    let mut out = String::new();
    let n: usize = lines.len();
    let mut i: usize = 0;
    while i < n
        invariant
            n == lines@.len(),
            i <= n,
            out@ == verbatim_lines_text(lines@.take(i as int)),
        decreases n - i,
    {
        out.append(lines[i].as_str());
        out.append("\n");
        proof {
            assert(lines@.take(i as int + 1).drop_last() =~= lines@.take(i as int));
            assert(lines@.take(i as int + 1).last() == lines@[i as int]);
        }
        i = i + 1;
    }
    proof {
        assert(lines@.take(n as int) =~= lines@);
    }
    out
}

/// How an opening brace is laid out under an indentation style.
pub open spec fn brace_open_text(ind: Indentation) -> Seq<char> {
    match ind {
        Indentation::Allman => "\n{\n"@,
        Indentation::KAndR => " {\n"@,
        Indentation::GNU => "\n  {\n"@,
        Indentation::Whitesmiths => "\n    {\n"@,
    }
}

/// Writes an opening brace under the indentation style.
pub fn write_brace_open(ind: &Indentation) -> (r: String)
    ensures
        r@ == brace_open_text(*ind),
{
    match ind {
        Indentation::Allman => String::from_str("\n{\n"),
        Indentation::KAndR => String::from_str(" {\n"),
        Indentation::GNU => String::from_str("\n  {\n"),
        Indentation::Whitesmiths => String::from_str("\n    {\n"),
    }
}

} // verus!

verus! {

// ---------------------------------------------------------------------------
// Type definitions.
// ---------------------------------------------------------------------------

/// One field line of a struct definition.
pub open spec fn field_line_text(ts: Seq<CTypeV>, f: crate::lang::FieldV, cfg: Interop) -> Seq<
    char,
> {
    "    "@ + c_type_text_v(ts, f.ty, cfg.prefix@, cfg.type_naming) + " "@ + f.name + ";\n"@
}

/// All field lines of a struct definition, in layout order.
pub open spec fn field_lines_text(
    ts: Seq<CTypeV>,
    fields: Seq<crate::lang::FieldV>,
    cfg: Interop,
) -> Seq<char>
    decreases fields.len(),
{
    if fields.len() == 0 {
        Seq::empty()
    } else {
        field_lines_text(ts, fields.drop_last(), cfg) + field_line_text(ts, fields.last(), cfg)
    }
}

/// A struct definition.
pub open spec fn composite_def_text(ts: Seq<CTypeV>, c: crate::lang::CompositeV, cfg: Interop) -> Seq<char> {
    let styled = styled_name_v(c.name, cfg.prefix@, cfg.type_naming);
    "typedef struct "@ + styled + brace_open_text(cfg.indentation) + field_lines_text(
        ts,
        c.fields,
        cfg,
    ) + "    } "@ + styled + ";\n"@
}

/// One variant line of an enum definition.
pub open spec fn variant_line_text(
    ename: Seq<char>,
    v: crate::lang::VariantV,
    cfg: Interop,
) -> Seq<char> {
    let label = match cfg.enum_variant_style {
        EnumVariants::WithEnumName => styled_name_v(ename, cfg.prefix@, cfg.type_naming) + "_"@
            + crate::naming::naming_style_of(v.name, cfg.enum_variant_naming),
        EnumVariants::VariantName => crate::naming::naming_style_of(
            v.name,
            cfg.enum_variant_naming,
        ),
    };
    "    "@ + label + " = "@ + dec_str(v.value as nat) + ",\n"@
}

/// All variant lines of an enum definition, in declaration order.
pub open spec fn variant_lines_text(
    ename: Seq<char>,
    variants: Seq<crate::lang::VariantV>,
    cfg: Interop,
) -> Seq<char>
    decreases variants.len(),
{
    if variants.len() == 0 {
        Seq::empty()
    } else {
        variant_lines_text(ename, variants.drop_last(), cfg) + variant_line_text(
            ename,
            variants.last(),
            cfg,
        )
    }
}

/// An enum definition.
pub open spec fn enum_def_text(e: crate::lang::EnumV, cfg: Interop) -> Seq<char> {
    let styled = styled_name_v(e.name, cfg.prefix@, cfg.type_naming);
    "typedef enum "@ + styled + brace_open_text(cfg.indentation) + variant_lines_text(
        e.name,
        e.variants,
        cfg,
    ) + "    } "@ + styled + ";\n"@
}

/// An opaque handle definition.
pub open spec fn opaque_def_text(o: crate::lang::OpaqueV, cfg: Interop) -> Seq<char> {
    let styled = styled_name_v(o.name, cfg.prefix@, cfg.type_naming);
    "typedef struct "@ + styled + " "@ + styled + ";\n"@
}

/// The definition a node contributes to the header: structs, enums and
/// opaques are defined; patterns are defined through their raw fallback
/// shape; primitives, pointers and anonymous function pointers contribute
/// nothing.
pub open spec fn type_definition_text(ts: Seq<CTypeV>, id: TypeId, cfg: Interop) -> Seq<char> {
    match ts[id as int] {
        CTypeV::Composite(c) => composite_def_text(ts, c, cfg),
        CTypeV::Enum(e) => enum_def_text(e, cfg),
        CTypeV::Opaque(o) => opaque_def_text(o, cfg),
        CTypeV::Pattern(p) => match crate::lang::fallback_type_v(p) {
            CTypeV::Composite(c) => composite_def_text(ts, c, cfg),
            CTypeV::Enum(e) => enum_def_text(e, cfg),
            _ => Seq::empty(),
        },
        _ => Seq::empty(),
    }
}

/// All definitions of the reachable types, ascending by id.
pub open spec fn type_definitions_text(ts: Seq<CTypeV>, closure: Seq<TypeId>, cfg: Interop) -> Seq<
    char,
>
    decreases closure.len(),
{
    if closure.len() == 0 {
        Seq::empty()
    } else {
        type_definitions_text(ts, closure.drop_last(), cfg) + type_definition_text(
            ts,
            closure.last(),
            cfg,
        )
    }
}

/// Writes the field lines of a struct definition.
fn write_field_lines(g: &TypeGraph, fields: &Vec<crate::lang::Field>, cfg: &Interop) -> (r: String)
    requires
        g.wf(),
        forall|k: int|
            0 <= k < fields@.len() ==> (#[trigger] crate::lang::fields_view(fields@)[k]).ty
                < g@.len(),
    ensures
        r@ == field_lines_text(g@, crate::lang::fields_view(fields@), *cfg),
{
    let mut out = String::new();
    let n: usize = fields.len();
    let mut i: usize = 0;
    while i < n
        invariant
            g.wf(),
            n == fields@.len(),
            forall|k: int|
                0 <= k < fields@.len() ==> (#[trigger] crate::lang::fields_view(fields@)[k]).ty
                    < g@.len(),
            i <= n,
            out@ == field_lines_text(g@, crate::lang::fields_view(fields@).take(i as int), *cfg),
        decreases n - i,
    {
        proof {
            assert(crate::lang::fields_view(fields@)[i as int] == fields@[i as int]@);
        }
        out.append("    ");
        let ty_text = c_type_text(g, fields[i].ty, cfg.prefix.as_str(), &cfg.type_naming);
        out.append(ty_text.as_str());
        out.append(" ");
        out.append(fields[i].name.as_str());
        out.append(";\n");
        proof {
            let fv = crate::lang::fields_view(fields@);
            assert(fv.take(i as int + 1).drop_last() =~= fv.take(i as int));
            assert(fv.take(i as int + 1).last() == fv[i as int]);
        }
        i = i + 1;
    }
    proof {
        let fv = crate::lang::fields_view(fields@);
        assert(fv.take(n as int) =~= fv);
    }
    out
}

/// Writes a struct definition.
fn write_composite_def(g: &TypeGraph, c: &crate::lang::CompositeType, cfg: &Interop) -> (r: String)
    requires
        g.wf(),
        forall|k: int| 0 <= k < c@.fields.len() ==> (#[trigger] c@.fields[k]).ty < g@.len(),
    ensures
        r@ == composite_def_text(g@, c@, *cfg),
{
    let styled = styled_name(c.name().as_str(), cfg.prefix.as_str(), &cfg.type_naming);
    let mut out = String::from_str("typedef struct ");
    out.append(styled.as_str());
    let brace = write_brace_open(&cfg.indentation);
    out.append(brace.as_str());
    let fields = write_field_lines(g, c.fields(), cfg);
    out.append(fields.as_str());
    out.append("    } ");
    out.append(styled.as_str());
    out.append(";\n");
    out
}

/// Writes an enum definition.
fn write_enum_def(e: &crate::lang::EnumType, cfg: &Interop) -> (r: String)
    ensures
        r@ == enum_def_text(e@, *cfg),
{
    let styled = styled_name(e.name().as_str(), cfg.prefix.as_str(), &cfg.type_naming);
    let mut out = String::from_str("typedef enum ");
    out.append(styled.as_str());
    let brace = write_brace_open(&cfg.indentation);
    out.append(brace.as_str());
    let variants = e.variants();
    let n: usize = variants.len();
    let mut i: usize = 0;
    let ghost prefix_so_far = out@;
    while i < n
        invariant
            n == variants@.len(),
            crate::lang::variants_view(variants@) == e@.variants,
            i <= n,
            out@ == prefix_so_far + variant_lines_text(
                e@.name,
                e@.variants.take(i as int),
                *cfg,
            ),
        decreases n - i,
    {
        proof {
            assert(e@.variants[i as int] == variants@[i as int]@);
        }
        out.append("    ");
        let label = match cfg.enum_variant_style {
            EnumVariants::WithEnumName => {
                let mut l = styled_name(e.name().as_str(), cfg.prefix.as_str(), &cfg.type_naming);
                l.append("_");
                let v = variants[i].name.as_str().to_naming_style(&cfg.enum_variant_naming);
                l.append(v.as_str());
                l
            },
            EnumVariants::VariantName => {
                variants[i].name.as_str().to_naming_style(&cfg.enum_variant_naming)
            },
        };
        out.append(label.as_str());
        out.append(" = ");
        let value = u64_text(variants[i].value);
        out.append(value.as_str());
        out.append(",\n");
        proof {
            let vv = e@.variants;
            assert(vv.take(i as int + 1).drop_last() =~= vv.take(i as int));
            assert(vv.take(i as int + 1).last() == vv[i as int]);
        }
        i = i + 1;
    }
    proof {
        assert(e@.variants.take(n as int) =~= e@.variants);
    }
    out.append("    } ");
    out.append(styled.as_str());
    out.append(";\n");
    out
}

/// Writes an opaque handle definition.
fn write_opaque_def(o: &crate::lang::OpaqueType, cfg: &Interop) -> (r: String)
    ensures
        r@ == opaque_def_text(o@, *cfg),
{
    let styled = styled_name(o.name().as_str(), cfg.prefix.as_str(), &cfg.type_naming);
    let mut out = String::from_str("typedef struct ");
    out.append(styled.as_str());
    out.append(" ");
    out.append(styled.as_str());
    out.append(";\n");
    out
}

/// Writes the definition one node contributes.
pub fn write_type_definition(g: &TypeGraph, id: TypeId, cfg: &Interop) -> (r: String)
    requires
        g.wf(),
        id < g@.len(),
    ensures
        r@ == type_definition_text(g@, id, *cfg),
{
    proof {
        let ch = crate::lang::node_children(g@[id as int]);
        assert forall|k: int| 0 <= k < ch.len() implies #[trigger] ch[k] < g@.len() by {
            assert(ch[k] < id);
        }
    }
    match g.get(id) {
        CType::Composite(c) => {
            proof {
                let ch = crate::lang::node_children(g@[id as int]);
                assert forall|k: int|
                    0 <= k < c@.fields.len() implies (#[trigger] c@.fields[k]).ty
                    < g@.len() by {
                    assert(ch[k] == c@.fields.map_values(|f: crate::lang::FieldV| f.ty)[k]);
                }
            }
            write_composite_def(g, c, cfg)
        },
        CType::Enum(e) => write_enum_def(e, cfg),
        CType::Opaque(o) => write_opaque_def(o, cfg),
        CType::Pattern(p) => {
            let fallback = p.fallback_type();
            match &fallback {
                CType::Composite(c) => {
                    proof {
                        let ch = crate::lang::node_children(g@[id as int]);
                        assert forall|k: int|
                            0 <= k < c@.fields.len() implies (#[trigger] c@.fields[k]).ty
                            < g@.len() by {
                            match p {
                                crate::lang::TypePattern::Utf8String(cc) => {
                                    assert(c@ == cc@);
                                    assert(ch[k] == cc@.fields.map_values(
                                        |f: crate::lang::FieldV| f.ty,
                                    )[k]);
                                },
                                crate::lang::TypePattern::Slice(cc) => {
                                    assert(c@ == cc@);
                                    assert(ch[k] == cc@.fields.map_values(
                                        |f: crate::lang::FieldV| f.ty,
                                    )[k]);
                                },
                                crate::lang::TypePattern::SliceMut(cc) => {
                                    assert(c@ == cc@);
                                    assert(ch[k] == cc@.fields.map_values(
                                        |f: crate::lang::FieldV| f.ty,
                                    )[k]);
                                },
                                crate::lang::TypePattern::Optional(cc) => {
                                    assert(c@ == cc@);
                                    assert(ch[k] == cc@.fields.map_values(
                                        |f: crate::lang::FieldV| f.ty,
                                    )[k]);
                                },
                                _ => {
                                    assert(false);
                                },
                            }
                        }
                    }
                    write_composite_def(g, c, cfg)
                },
                CType::Enum(e) => write_enum_def(e, cfg),
                _ => String::new(),
            }
        },
        _ => String::new(),
    }
}

/// Writes the definitions of every reachable type, ascending by id.
pub fn write_type_definitions(g: &TypeGraph, closure: &Vec<TypeId>, cfg: &Interop) -> (r: String)
    requires
        g.wf(),
        forall|k: int| 0 <= k < closure@.len() ==> #[trigger] closure@[k] < g@.len(),
    ensures
        r@ == type_definitions_text(g@, closure@, *cfg),
{
    let mut out = String::new();
    let n: usize = closure.len();
    let mut i: usize = 0;
    while i < n
        invariant
            g.wf(),
            n == closure@.len(),
            forall|k: int| 0 <= k < closure@.len() ==> #[trigger] closure@[k] < g@.len(),
            i <= n,
            out@ == type_definitions_text(g@, closure@.take(i as int), *cfg),
        decreases n - i,
    {
        let def = write_type_definition(g, closure[i], cfg);
        out.append(def.as_str());
        proof {
            assert(closure@.take(i as int + 1).drop_last() =~= closure@.take(i as int));
            assert(closure@.take(i as int + 1).last() == closure@[i as int]);
        }
        i = i + 1;
    }
    proof {
        assert(closure@.take(n as int) =~= closure@);
    }
    out
}

} // verus!

verus! {

// ---------------------------------------------------------------------------
// Function declarations and the whole header.
// ---------------------------------------------------------------------------

/// One parameter as declared: type, space, styled name.
pub open spec fn param_decl_text(ts: Seq<CTypeV>, p: crate::lang::ParameterV, cfg: Interop) -> Seq<
    char,
> {
    c_type_text_v(ts, p.ty, cfg.prefix@, cfg.type_naming) + " "@
        + crate::naming::naming_style_of(p.name, cfg.function_parameter_naming)
}

/// The comma-separated parameter declarations.
pub open spec fn params_decl_text(
    ts: Seq<CTypeV>,
    params: Seq<crate::lang::ParameterV>,
    cfg: Interop,
) -> Seq<char>
    decreases params.len(),
{
    if params.len() == 0 {
        Seq::empty()
    } else {
        let sep: Seq<char> = if params.len() == 1 {
            Seq::empty()
        } else {
            ", "@
        };
        params_decl_text(ts, params.drop_last(), cfg) + sep + param_decl_text(
            ts,
            params.last(),
            cfg,
        )
    }
}

/// One function, declared. Under the typedef style the declaration names a
/// function type; under the forward-declaration style it names the symbol.
pub open spec fn function_declaration_text(
    ts: Seq<CTypeV>,
    f: crate::lang::FunctionV,
    cfg: Interop,
) -> Seq<char> {
    let rval = c_type_text_v(ts, f.signature.rval, cfg.prefix@, cfg.type_naming);
    let params = params_decl_text(ts, f.signature.params, cfg);
    match cfg.function_style {
        Functions::ForwardDeclarations => cfg.function_attribute@ + rval + " "@ + cfg.prefix@
            + f.name + "("@ + params + ");\n"@,
        Functions::Typedefs => "typedef "@ + rval + " (*"@ + cfg.prefix@ + f.name + ")("@ + params
            + ");\n"@,
    }
}

/// The documentation comment above a declaration, when documentation is
/// enabled and the function carries any.
pub open spec fn function_doc_text(f: crate::lang::FunctionV, cfg: Interop) -> Seq<char> {
    if cfg.documentation is Inline && f.docs.len() > 0 {
        "// "@ + f.docs + "\n"@
    } else {
        Seq::empty()
    }
}

/// All function declarations, each under its documentation, in
/// registration order.
pub open spec fn functions_text(
    ts: Seq<CTypeV>,
    fs: Seq<crate::lang::FunctionV>,
    cfg: Interop,
) -> Seq<char>
    decreases fs.len(),
{
    if fs.len() == 0 {
        Seq::empty()
    } else {
        functions_text(ts, fs.drop_last(), cfg) + function_doc_text(fs.last(), cfg)
            + function_declaration_text(ts, fs.last(), cfg)
    }
}

/// Whether every type a signature mentions lies inside the graph.
pub open spec fn signature_ids_in(ts: Seq<CTypeV>, s: crate::lang::SignatureV) -> bool {
    &&& s.rval < ts.len()
    &&& forall|k: int| 0 <= k < s.params.len() ==> (#[trigger] s.params[k]).ty < ts.len()
}

/// Writes the comma-separated parameter declarations.
fn write_params_decl(g: &TypeGraph, params: &Vec<crate::lang::Parameter>, cfg: &Interop) -> (r:
    String)
    requires
        g.wf(),
        forall|k: int|
            0 <= k < params@.len() ==> (#[trigger] crate::lang::params_view(params@)[k]).ty
                < g@.len(),
    ensures
        r@ == params_decl_text(g@, crate::lang::params_view(params@), *cfg),
{
    let mut out = String::new();
    let n: usize = params.len();
    let mut i: usize = 0;
    while i < n
        invariant
            g.wf(),
            n == params@.len(),
            forall|k: int|
                0 <= k < params@.len() ==> (#[trigger] crate::lang::params_view(params@)[k]).ty
                    < g@.len(),
            i <= n,
            out@ == params_decl_text(g@, crate::lang::params_view(params@).take(i as int), *cfg),
        decreases n - i,
    {
        proof {
            assert(crate::lang::params_view(params@)[i as int] == params@[i as int]@);
        }
        if i > 0 {
            out.append(", ");
        }
        let ty_text = c_type_text(g, params[i].ty, cfg.prefix.as_str(), &cfg.type_naming);
        out.append(ty_text.as_str());
        out.append(" ");
        let pname = params[i].name.as_str().to_naming_style(&cfg.function_parameter_naming);
        out.append(pname.as_str());
        proof {
            let pv = crate::lang::params_view(params@);
            assert(pv.take(i as int + 1).drop_last() =~= pv.take(i as int));
            assert(pv.take(i as int + 1).last() == pv[i as int]);
        }
        i = i + 1;
    }
    proof {
        let pv = crate::lang::params_view(params@);
        assert(pv.take(n as int) =~= pv);
    }
    out
}

/// Writes one function declaration.
pub fn write_function_declaration(g: &TypeGraph, f: &crate::lang::Function, cfg: &Interop) -> (r:
    String)
    requires
        g.wf(),
        signature_ids_in(g@, f@.signature),
    ensures
        r@ == function_declaration_text(g@, f@, *cfg),
{
    let rval = c_type_text(g, f.signature().rval(), cfg.prefix.as_str(), &cfg.type_naming);
    let params = write_params_decl(g, f.signature().params(), cfg);
    let mut out: String;
    match cfg.function_style {
        Functions::ForwardDeclarations => {
            out = String::new();
            out.append(cfg.function_attribute.as_str());
            out.append(rval.as_str());
            out.append(" ");
            out.append(cfg.prefix.as_str());
            out.append(f.name().as_str());
            out.append("(");
            out.append(params.as_str());
            out.append(");\n");
        },
        Functions::Typedefs => {
            out = String::from_str("typedef ");
            out.append(rval.as_str());
            out.append(" (*");
            out.append(cfg.prefix.as_str());
            out.append(f.name().as_str());
            out.append(")(");
            out.append(params.as_str());
            out.append(");\n");
        },
    }
    out
}

/// Writes every function declaration, in registration order.
pub fn write_functions(g: &TypeGraph, fs: &Vec<crate::lang::Function>, cfg: &Interop) -> (r:
    String)
    requires
        g.wf(),
        forall|k: int|
            0 <= k < fs@.len() ==> signature_ids_in(
                g@,
                (#[trigger] crate::pattern::functions_view(fs@)[k]).signature,
            ),
    ensures
        r@ == functions_text(g@, crate::pattern::functions_view(fs@), *cfg),
{
    let mut out = String::new();
    let n: usize = fs.len();
    let mut i: usize = 0;
    while i < n
        invariant
            g.wf(),
            n == fs@.len(),
            forall|k: int|
                0 <= k < fs@.len() ==> signature_ids_in(
                    g@,
                    (#[trigger] crate::pattern::functions_view(fs@)[k]).signature,
                ),
            i <= n,
            out@ == functions_text(
                g@,
                crate::pattern::functions_view(fs@).take(i as int),
                *cfg,
            ),
        decreases n - i,
    {
        proof {
            assert(crate::pattern::functions_view(fs@)[i as int] == fs@[i as int]@);
        }
        if matches!(cfg.documentation, DocStyle::Inline) {
            if fs[i].docs.as_str().unicode_len() > 0 {
                out.append("// ");
                out.append(fs[i].docs.as_str());
                out.append("\n");
            }
        }
        let decl = write_function_declaration(g, &fs[i], cfg);
        out.append(decl.as_str());
        proof {
            let fv = crate::pattern::functions_view(fs@);
            assert(fv.take(i as int + 1).drop_last() =~= fv.take(i as int));
            assert(fv.take(i as int + 1).last() == fv[i as int]);
        }
        i = i + 1;
    }
    proof {
        let fv = crate::pattern::functions_view(fs@);
        assert(fv.take(n as int) =~= fv);
    }
    out
}

/// The complete header: comment, guard, compatibility preamble, imports,
/// definitions, constants, type definitions, function declarations. A pure
/// function of the library and the configuration: identical inputs give
/// byte-identical output.
pub open spec fn header_text(
    ts: Seq<CTypeV>,
    inv: crate::inventory::InventoryV,
    closure: Seq<TypeId>,
    cfg: Interop,
) -> Seq<char> {
    let guard_head: Seq<char> = if cfg.directives {
        "#ifndef "@ + cfg.ifndef@ + "\n#define "@ + cfg.ifndef@ + "\n\n"@
    } else {
        Seq::empty()
    };
    let guard_foot: Seq<char> = if cfg.directives {
        "#endif\n"@
    } else {
        Seq::empty()
    };
    let imports: Seq<char> = if cfg.imports {
        verbatim_lines_text(cfg.includes@) + "\n"@
    } else {
        Seq::empty()
    };
    cfg.file_header_comment@ + "\n"@ + guard_head + cfg.compat_header@ + imports
        + verbatim_lines_text(cfg.defines@) + "\n"@ + constants_text(inv.constants, cfg) + "\n"@
        + type_definitions_text(ts, closure, cfg) + "\n"@ + functions_text(ts, inv.functions, cfg)
        + cfg.compat_footer@ + guard_foot
}

impl Interop {
    /// Generates the bindings and hands them back as one string; identical
    /// library and configuration reproduce byte-identical output.
    #[verifier::rlimit(60)]
    pub fn to_string(&self, lib: &Library) -> (r: String)
        requires
            lib.wf(),
        ensures
            r@ == header_text(lib.types(), lib.inv(), lib.closure_ids(), *self),
    {
        let g = lib.graph();
        proof {
            lemma_library_function_ids(lib);
        }
        let mut out = String::new();
        out.append(self.file_header_comment.as_str());
        out.append("\n");
        if self.directives {
            out.append("#ifndef ");
            out.append(self.ifndef.as_str());
            out.append("\n#define ");
            out.append(self.ifndef.as_str());
            out.append("\n\n");
        }
        out.append(self.compat_header.as_str());
        if self.imports {
            let imports = write_verbatim_lines(&self.includes);
            out.append(imports.as_str());
            out.append("\n");
        }
        let defines = write_verbatim_lines(&self.defines);
        out.append(defines.as_str());
        out.append("\n");
        let constants = write_constants(lib.constants(), self);
        out.append(constants.as_str());
        out.append("\n");
        let types = write_type_definitions(g, lib.closure(), self);
        out.append(types.as_str());
        out.append("\n");
        let functions = write_functions(g, lib.functions(), self);
        out.append(functions.as_str());
        out.append(self.compat_footer.as_str());
        if self.directives {
            out.append("#endif\n");
        }
        out
    }
}

/// In a well-formed library every registered function's signature ids lie
/// inside the graph.
pub proof fn lemma_library_function_ids(lib: &Library)
    requires
        lib.wf(),
    ensures
        forall|k: int|
            0 <= k < lib.inv().functions.len() ==> signature_ids_in(
                lib.types(),
                (#[trigger] lib.inv().functions[k]).signature,
            ),
{
    assert forall|k: int|
        0 <= k < lib.inv().functions.len() implies signature_ids_in(
        lib.types(),
        (#[trigger] lib.inv().functions[k]).signature,
    ) by {
        let s = lib.inv().functions[k].signature;
        let ch = crate::lang::signature_children(s);
        assert(ch[ch.len() - 1] == s.rval);
        assert(ch.contains(s.rval));
        assert(crate::inventory::is_root(lib.inv(), s.rval));
        assert forall|j: int| 0 <= j < s.params.len() implies (#[trigger] s.params[j]).ty
            < lib.types().len() by {
            assert(ch[j] == s.params.map_values(|p: crate::lang::ParameterV| p.ty)[j]);
            assert(ch.contains(s.params[j].ty));
            assert(crate::inventory::is_root(lib.inv(), s.params[j].ty));
        }
    }
}

/// Identical library and configuration give byte-identical output: the
/// header is a function of its inputs and nothing else.
pub proof fn lemma_generation_deterministic(
    ts: Seq<CTypeV>,
    inv: crate::inventory::InventoryV,
    closure: Seq<TypeId>,
    cfg1: Interop,
    cfg2: Interop,
)
    requires
        cfg1 == cfg2,
    ensures
        header_text(ts, inv, closure, cfg1) == header_text(ts, inv, closure, cfg2),
{
}

} // verus!
