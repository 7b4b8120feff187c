//! The C-level intermediate representation.
//!
//! Types form a graph: every type lives in a [`TypeGraph`] and refers to its
//! component types by [`TypeId`], the index at which they were interned.
//! Interning guarantees that a component is always interned before the types
//! that use it, so every edge points from a higher index to a strictly lower
//! one and the graph is acyclic by construction.

use vstd::prelude::*;

verus! {

/// Index of an interned type inside its [`TypeGraph`].
pub type TypeId = usize;

/// A fixed-width C primitive.
#[derive(Clone, Copy, PartialEq, Eq, Structural, Debug)]
pub enum Primitive {
    Void,
    Bool,
    U8,
    U16,
    U32,
    U64,
    I8,
    I16,
    I32,
    I64,
}

/// The value of a registered constant.
#[derive(Clone, Copy, PartialEq, Eq, Structural, Debug)]
pub enum PrimitiveValue {
    Bool(bool),
    U8(u8),
    U16(u16),
    U32(u32),
    U64(u64),
    I8(i8),
    I16(i16),
    I32(i32),
    I64(i64),
}

/// A named, typed, documented member of a composite type.
pub struct Field {
    pub name: String,
    pub ty: TypeId,
    pub docs: String,
}

/// Mathematical model of a [`Field`].
pub ghost struct FieldV {
    pub name: Seq<char>,
    pub ty: TypeId,
    pub docs: Seq<char>,
}

impl View for Field {
    type V = FieldV;

    open spec fn view(&self) -> FieldV {
        FieldV { name: self.name@, ty: self.ty, docs: self.docs@ }
    }
}

/// Model of a sequence of fields.
pub open spec fn fields_view(fields: Seq<Field>) -> Seq<FieldV> {
    fields.map_values(|f: Field| f@)
}

/// A struct-like type; the field order is the ABI layout order.
pub struct CompositeType {
    pub name: String,
    pub fields: Vec<Field>,
}

/// Mathematical model of a [`CompositeType`].
pub ghost struct CompositeV {
    pub name: Seq<char>,
    pub fields: Seq<FieldV>,
}

impl View for CompositeType {
    type V = CompositeV;

    open spec fn view(&self) -> CompositeV {
        CompositeV { name: self.name@, fields: fields_view(self.fields@) }
    }
}

/// A named, documented enum variant with its integer value.
pub struct Variant {
    pub name: String,
    pub value: u64,
    pub docs: String,
}

/// Mathematical model of a [`Variant`].
pub ghost struct VariantV {
    pub name: Seq<char>,
    pub value: u64,
    pub docs: Seq<char>,
}

impl View for Variant {
    type V = VariantV;

    open spec fn view(&self) -> VariantV {
        VariantV { name: self.name@, value: self.value, docs: self.docs@ }
    }
}

/// Model of a sequence of variants.
pub open spec fn variants_view(variants: Seq<Variant>) -> Seq<VariantV> {
    variants.map_values(|v: Variant| v@)
}

/// A C enum: a named, ordered list of variants.
pub struct EnumType {
    pub name: String,
    pub variants: Vec<Variant>,
}

/// Mathematical model of an [`EnumType`].
pub ghost struct EnumV {
    pub name: Seq<char>,
    pub variants: Seq<VariantV>,
}

impl View for EnumType {
    type V = EnumV;

    open spec fn view(&self) -> EnumV {
        EnumV { name: self.name@, variants: variants_view(self.variants@) }
    }
}

/// A handle type whose layout is deliberately hidden; only valid behind a
/// pointer.
pub struct OpaqueType {
    pub name: String,
}

/// Mathematical model of an [`OpaqueType`].
pub ghost struct OpaqueV {
    pub name: Seq<char>,
}

impl View for OpaqueType {
    type V = OpaqueV;

    open spec fn view(&self) -> OpaqueV {
        OpaqueV { name: self.name@ }
    }
}

/// A named function parameter.
pub struct Parameter {
    pub name: String,
    pub ty: TypeId,
}

/// Mathematical model of a [`Parameter`].
pub ghost struct ParameterV {
    pub name: Seq<char>,
    pub ty: TypeId,
}

impl View for Parameter {
    type V = ParameterV;

    open spec fn view(&self) -> ParameterV {
        ParameterV { name: self.name@, ty: self.ty }
    }
}

/// Model of a sequence of parameters.
pub open spec fn params_view(params: Seq<Parameter>) -> Seq<ParameterV> {
    params.map_values(|p: Parameter| p@)
}

/// Ordered parameters plus return type.
pub struct FunctionSignature {
    pub params: Vec<Parameter>,
    pub rval: TypeId,
}

/// Mathematical model of a [`FunctionSignature`].
pub ghost struct SignatureV {
    pub params: Seq<ParameterV>,
    pub rval: TypeId,
}

impl View for FunctionSignature {
    type V = SignatureV;

    open spec fn view(&self) -> SignatureV {
        SignatureV { params: params_view(self.params@), rval: self.rval }
    }
}

/// A C function pointer shape.
pub struct FnPointerType {
    pub signature: FunctionSignature,
}

/// Mathematical model of a [`FnPointerType`].
pub ghost struct FnPointerV {
    pub signature: SignatureV,
}

impl View for FnPointerType {
    type V = FnPointerV;

    open spec fn view(&self) -> FnPointerV {
        FnPointerV { signature: self.signature@ }
    }
}

/// An error enum with a reserved success variant; the enum must also carry
/// the reserved null and panic codes (checked during validation).
pub struct SuccessEnum {
    pub the_enum: EnumType,
    pub success_variant: Variant,
}

/// Mathematical model of a [`SuccessEnum`].
pub ghost struct SuccessEnumV {
    pub the_enum: EnumV,
    pub success_variant: VariantV,
}

impl View for SuccessEnum {
    type V = SuccessEnumV;

    open spec fn view(&self) -> SuccessEnumV {
        SuccessEnumV { the_enum: self.the_enum@, success_variant: self.success_variant@ }
    }
}

/// A function-pointer shape with a stable identity, so that structurally
/// identical signatures are not merged.
pub struct NamedCallback {
    pub name: String,
    pub namespace: String,
    pub fnpointer: FnPointerType,
}

/// Mathematical model of a [`NamedCallback`].
pub ghost struct NamedCallbackV {
    pub name: Seq<char>,
    pub namespace: Seq<char>,
    pub fnpointer: FnPointerV,
}

impl View for NamedCallback {
    type V = NamedCallbackV;

    open spec fn view(&self) -> NamedCallbackV {
        NamedCallbackV { name: self.name@, namespace: self.namespace@, fnpointer: self.fnpointer@ }
    }
}

/// A callback that additionally carries a correlation token, so a completion
/// arriving on another thread can be matched to its originating call.
pub struct AsyncCallbackType {
    pub name: String,
    pub fnpointer: FnPointerType,
    /// The payload type delivered on completion.
    pub target: TypeId,
}

/// Mathematical model of an [`AsyncCallbackType`].
pub ghost struct AsyncCallbackV {
    pub name: Seq<char>,
    pub fnpointer: FnPointerV,
    pub target: TypeId,
}

impl View for AsyncCallbackType {
    type V = AsyncCallbackV;

    open spec fn view(&self) -> AsyncCallbackV {
        AsyncCallbackV { name: self.name@, fnpointer: self.fnpointer@, target: self.target }
    }
}

/// A recognized higher-level FFI idiom on the type level. Every pattern has a
/// raw ABI-compatible fallback shape for backends without native support.
pub enum TypePattern {
    /// A nul-terminated read-only C string pointer.
    CStrPointer,
    /// An owned UTF-8 string: pointer + length + capacity, one-time ownership
    /// transfer.
    Utf8String(CompositeType),
    /// An error enum with reserved success, null and panic codes.
    SuccessEnum(SuccessEnum),
    /// A borrowed pointer + length view.
    Slice(CompositeType),
    /// A mutable borrowed pointer + length view.
    SliceMut(CompositeType),
    /// An inline option: payload + 8-bit discriminant.
    Optional(CompositeType),
    /// An identity-preserving function-pointer wrapper.
    NamedCallback(NamedCallback),
    /// A callback with a correlation token.
    AsyncCallback(AsyncCallbackType),
}

/// Mathematical model of a [`TypePattern`].
pub ghost enum TypePatternV {
    CStrPointer,
    Utf8String(CompositeV),
    SuccessEnum(SuccessEnumV),
    Slice(CompositeV),
    SliceMut(CompositeV),
    Optional(CompositeV),
    NamedCallback(NamedCallbackV),
    AsyncCallback(AsyncCallbackV),
}

impl View for TypePattern {
    type V = TypePatternV;

    open spec fn view(&self) -> TypePatternV {
        match self {
            TypePattern::CStrPointer => TypePatternV::CStrPointer,
            TypePattern::Utf8String(c) => TypePatternV::Utf8String(c@),
            TypePattern::SuccessEnum(e) => TypePatternV::SuccessEnum(e@),
            TypePattern::Slice(c) => TypePatternV::Slice(c@),
            TypePattern::SliceMut(c) => TypePatternV::SliceMut(c@),
            TypePattern::Optional(c) => TypePatternV::Optional(c@),
            TypePattern::NamedCallback(n) => TypePatternV::NamedCallback(n@),
            TypePattern::AsyncCallback(a) => TypePatternV::AsyncCallback(a@),
        }
    }
}

/// One node of the type graph. Component types are referred to by
/// [`TypeId`]; a node never refers to itself or to a later node.
pub enum CType {
    Primitive(Primitive),
    Composite(CompositeType),
    Opaque(OpaqueType),
    Enum(EnumType),
    FnPointer(FnPointerType),
    ReadPointer(TypeId),
    ReadWritePointer(TypeId),
    Pattern(TypePattern),
}

/// Mathematical model of a [`CType`].
pub ghost enum CTypeV {
    Primitive(Primitive),
    Composite(CompositeV),
    Opaque(OpaqueV),
    Enum(EnumV),
    FnPointer(FnPointerV),
    ReadPointer(TypeId),
    ReadWritePointer(TypeId),
    Pattern(TypePatternV),
}

impl View for CType {
    type V = CTypeV;

    open spec fn view(&self) -> CTypeV {
        match self {
            CType::Primitive(p) => CTypeV::Primitive(*p),
            CType::Composite(c) => CTypeV::Composite(c@),
            CType::Opaque(o) => CTypeV::Opaque(o@),
            CType::Enum(e) => CTypeV::Enum(e@),
            CType::FnPointer(f) => CTypeV::FnPointer(f@),
            CType::ReadPointer(t) => CTypeV::ReadPointer(*t),
            CType::ReadWritePointer(t) => CTypeV::ReadWritePointer(*t),
            CType::Pattern(p) => CTypeV::Pattern(p@),
        }
    }
}

/// A registered function: name, signature and documentation.
pub struct Function {
    pub name: String,
    pub signature: FunctionSignature,
    pub docs: String,
}

/// Mathematical model of a [`Function`].
pub ghost struct FunctionV {
    pub name: Seq<char>,
    pub signature: SignatureV,
    pub docs: Seq<char>,
}

impl View for Function {
    type V = FunctionV;

    open spec fn view(&self) -> FunctionV {
        FunctionV { name: self.name@, signature: self.signature@, docs: self.docs@ }
    }
}

/// A registered constant with its primitive value.
pub struct Constant {
    pub name: String,
    pub value: PrimitiveValue,
}

/// Mathematical model of a [`Constant`].
pub ghost struct ConstantV {
    pub name: Seq<char>,
    pub value: PrimitiveValue,
}

impl View for Constant {
    type V = ConstantV;

    open spec fn view(&self) -> ConstantV {
        ConstantV { name: self.name@, value: self.value }
    }
}

} // verus!

verus! {

// ---------------------------------------------------------------------------
// Structural equality, decided against the mathematical models.
// ---------------------------------------------------------------------------

/// Decides whether two field lists have the same model.
pub fn fields_eq(a: &Vec<Field>, b: &Vec<Field>) -> (r: bool)
    ensures
        r == (fields_view(a@) == fields_view(b@)),
{
    if a.len() != b.len() {
        assert(fields_view(a@).len() != fields_view(b@).len());
        return false;
    }
    let n: usize = a.len();
    let mut i: usize = 0;
    while i < n
        invariant
            n == a.len() == b.len(),
            i <= n,
            forall|k: int| 0 <= k < i ==> fields_view(a@)[k] == fields_view(b@)[k],
        decreases n - i,
    {
        let fa = &a[i];
        let fb = &b[i];
        if !(fa.name == fb.name && fa.ty == fb.ty && fa.docs == fb.docs) {
            assert(fields_view(a@)[i as int] != fields_view(b@)[i as int]);
            return false;
        }
        assert(fields_view(a@)[i as int] == fields_view(b@)[i as int]);
        i = i + 1;
    }
    assert(fields_view(a@) =~= fields_view(b@));
    true
}

/// Decides whether two variant lists have the same model.
pub fn variants_eq(a: &Vec<Variant>, b: &Vec<Variant>) -> (r: bool)
    ensures
        r == (variants_view(a@) == variants_view(b@)),
{
    if a.len() != b.len() {
        assert(variants_view(a@).len() != variants_view(b@).len());
        return false;
    }
    let n: usize = a.len();
    let mut i: usize = 0;
    while i < n
        invariant
            n == a.len() == b.len(),
            i <= n,
            forall|k: int| 0 <= k < i ==> variants_view(a@)[k] == variants_view(b@)[k],
        decreases n - i,
    {
        let va = &a[i];
        let vb = &b[i];
        if !(va.name == vb.name && va.value == vb.value && va.docs == vb.docs) {
            assert(variants_view(a@)[i as int] != variants_view(b@)[i as int]);
            return false;
        }
        assert(variants_view(a@)[i as int] == variants_view(b@)[i as int]);
        i = i + 1;
    }
    assert(variants_view(a@) =~= variants_view(b@));
    true
}

/// Decides whether two parameter lists have the same model.
pub fn params_eq(a: &Vec<Parameter>, b: &Vec<Parameter>) -> (r: bool)
    ensures
        r == (params_view(a@) == params_view(b@)),
{
    if a.len() != b.len() {
        assert(params_view(a@).len() != params_view(b@).len());
        return false;
    }
    let n: usize = a.len();
    let mut i: usize = 0;
    while i < n
        invariant
            n == a.len() == b.len(),
            i <= n,
            forall|k: int| 0 <= k < i ==> params_view(a@)[k] == params_view(b@)[k],
        decreases n - i,
    {
        let pa = &a[i];
        let pb = &b[i];
        if !(pa.name == pb.name && pa.ty == pb.ty) {
            assert(params_view(a@)[i as int] != params_view(b@)[i as int]);
            return false;
        }
        assert(params_view(a@)[i as int] == params_view(b@)[i as int]);
        i = i + 1;
    }
    assert(params_view(a@) =~= params_view(b@));
    true
}

/// Decides whether two composites have the same model.
pub fn composite_eq(a: &CompositeType, b: &CompositeType) -> (r: bool)
    ensures
        r == (a@ == b@),
{
    a.name == b.name && fields_eq(&a.fields, &b.fields)
}

/// Decides whether two enums have the same model.
pub fn enum_eq(a: &EnumType, b: &EnumType) -> (r: bool)
    ensures
        r == (a@ == b@),
{
    a.name == b.name && variants_eq(&a.variants, &b.variants)
}

/// Decides whether two signatures have the same model.
pub fn signature_eq(a: &FunctionSignature, b: &FunctionSignature) -> (r: bool)
    ensures
        r == (a@ == b@),
{
    a.rval == b.rval && params_eq(&a.params, &b.params)
}

/// Decides whether two variants (success markers) have the same model.
pub fn variant_eq(a: &Variant, b: &Variant) -> (r: bool)
    ensures
        r == (a@ == b@),
{
    a.name == b.name && a.value == b.value && a.docs == b.docs
}

/// Decides whether two type patterns have the same model.
pub fn pattern_eq(a: &TypePattern, b: &TypePattern) -> (r: bool)
    ensures
        r == (a@ == b@),
{
    match (a, b) {
        (TypePattern::CStrPointer, TypePattern::CStrPointer) => true,
        (TypePattern::Utf8String(x), TypePattern::Utf8String(y)) => composite_eq(x, y),
        (TypePattern::SuccessEnum(x), TypePattern::SuccessEnum(y)) => {
            enum_eq(&x.the_enum, &y.the_enum) && variant_eq(&x.success_variant, &y.success_variant)
        },
        (TypePattern::Slice(x), TypePattern::Slice(y)) => composite_eq(x, y),
        (TypePattern::SliceMut(x), TypePattern::SliceMut(y)) => composite_eq(x, y),
        (TypePattern::Optional(x), TypePattern::Optional(y)) => composite_eq(x, y),
        (TypePattern::NamedCallback(x), TypePattern::NamedCallback(y)) => {
            x.name == y.name && x.namespace == y.namespace
                && signature_eq(&x.fnpointer.signature, &y.fnpointer.signature)
        },
        (TypePattern::AsyncCallback(x), TypePattern::AsyncCallback(y)) => {
            x.name == y.name && x.target == y.target
                && signature_eq(&x.fnpointer.signature, &y.fnpointer.signature)
        },
        _ => false,
    }
}

/// Decides whether two type nodes have the same model.
pub fn ctype_eq(a: &CType, b: &CType) -> (r: bool)
    ensures
        r == (a@ == b@),
{
    match (a, b) {
        (CType::Primitive(x), CType::Primitive(y)) => x == y,
        (CType::Composite(x), CType::Composite(y)) => composite_eq(x, y),
        (CType::Opaque(x), CType::Opaque(y)) => x.name == y.name,
        (CType::Enum(x), CType::Enum(y)) => enum_eq(x, y),
        (CType::FnPointer(x), CType::FnPointer(y)) => signature_eq(&x.signature, &y.signature),
        (CType::ReadPointer(x), CType::ReadPointer(y)) => x == y,
        (CType::ReadWritePointer(x), CType::ReadWritePointer(y)) => x == y,
        (CType::Pattern(x), CType::Pattern(y)) => pattern_eq(x, y),
        _ => false,
    }
}

} // verus!

verus! {

// ---------------------------------------------------------------------------
// Component edges and the interned type graph.
// ---------------------------------------------------------------------------

/// The component type ids a signature refers to: every parameter type plus
/// the return type.
pub open spec fn signature_children(s: SignatureV) -> Seq<TypeId> {
    s.params.map_values(|p: ParameterV| p.ty).push(s.rval)
}

/// The component type ids a node refers to.
pub open spec fn node_children(t: CTypeV) -> Seq<TypeId> {
    match t {
        CTypeV::Primitive(_) => Seq::empty(),
        CTypeV::Composite(c) => c.fields.map_values(|f: FieldV| f.ty),
        CTypeV::Opaque(_) => Seq::empty(),
        CTypeV::Enum(_) => Seq::empty(),
        CTypeV::FnPointer(f) => signature_children(f.signature),
        CTypeV::ReadPointer(t) => seq![t],
        CTypeV::ReadWritePointer(t) => seq![t],
        CTypeV::Pattern(p) => match p {
            TypePatternV::CStrPointer => Seq::empty(),
            TypePatternV::Utf8String(c) => c.fields.map_values(|f: FieldV| f.ty),
            TypePatternV::SuccessEnum(_) => Seq::empty(),
            TypePatternV::Slice(c) => c.fields.map_values(|f: FieldV| f.ty),
            TypePatternV::SliceMut(c) => c.fields.map_values(|f: FieldV| f.ty),
            TypePatternV::Optional(c) => c.fields.map_values(|f: FieldV| f.ty),
            TypePatternV::NamedCallback(n) => signature_children(n.fnpointer.signature),
            TypePatternV::AsyncCallback(a) => signature_children(a.fnpointer.signature).push(
                a.target,
            ),
        },
    }
}

/// Collects the component ids a signature refers to.
pub fn signature_children_of(s: &FunctionSignature) -> (r: Vec<TypeId>)
    ensures
        r@ == signature_children(s@),
{
    let mut out: Vec<TypeId> = Vec::new();
    let n: usize = s.params.len();
    let mut i: usize = 0;
    while i < n
        invariant
            n == s.params.len(),
            i <= n,
            out@ == params_view(s.params@).map_values(|p: ParameterV| p.ty).take(i as int),
        decreases n - i,
    {
        out.push(s.params[i].ty);
        assert(out@ =~= params_view(s.params@).map_values(|p: ParameterV| p.ty).take(
            i as int + 1,
        ));
        i = i + 1;
    }
    assert(out@ =~= params_view(s.params@).map_values(|p: ParameterV| p.ty));
    out.push(s.rval);
    out
}

/// Collects the component ids the fields of a composite refer to.
fn composite_children_of(c: &CompositeType) -> (r: Vec<TypeId>)
    ensures
        r@ == c@.fields.map_values(|f: FieldV| f.ty),
{
    let mut out: Vec<TypeId> = Vec::new();
    let n: usize = c.fields.len();
    let mut i: usize = 0;
    while i < n
        invariant
            n == c.fields.len(),
            i <= n,
            out@ == fields_view(c.fields@).map_values(|f: FieldV| f.ty).take(i as int),
        decreases n - i,
    {
        out.push(c.fields[i].ty);
        assert(out@ =~= fields_view(c.fields@).map_values(|f: FieldV| f.ty).take(i as int + 1));
        i = i + 1;
    }
    assert(out@ =~= fields_view(c.fields@).map_values(|f: FieldV| f.ty));
    out
}

/// Collects the component ids a node refers to.
pub fn children_of(t: &CType) -> (r: Vec<TypeId>)
    ensures
        r@ == node_children(t@),
{
    match t {
        CType::Primitive(_) => Vec::new(),
        CType::Composite(c) => composite_children_of(c),
        CType::Opaque(_) => Vec::new(),
        CType::Enum(_) => Vec::new(),
        CType::FnPointer(f) => signature_children_of(&f.signature),
        CType::ReadPointer(t) => {
            let mut out: Vec<TypeId> = Vec::new();
            out.push(*t);
            assert(out@ =~= node_children(CTypeV::ReadPointer(*t)));
            out
        },
        CType::ReadWritePointer(t) => {
            let mut out: Vec<TypeId> = Vec::new();
            out.push(*t);
            assert(out@ =~= node_children(CTypeV::ReadWritePointer(*t)));
            out
        },
        CType::Pattern(p) => match p {
            TypePattern::CStrPointer => Vec::new(),
            TypePattern::Utf8String(c) => composite_children_of(c),
            TypePattern::SuccessEnum(_) => Vec::new(),
            TypePattern::Slice(c) => composite_children_of(c),
            TypePattern::SliceMut(c) => composite_children_of(c),
            TypePattern::Optional(c) => composite_children_of(c),
            TypePattern::NamedCallback(n) => signature_children_of(&n.fnpointer.signature),
            TypePattern::AsyncCallback(a) => {
                let mut out = signature_children_of(&a.fnpointer.signature);
                out.push(a.target);
                out
            },
        },
    }
}

/// Model of the node list of a graph.
pub open spec fn types_view(types: Seq<CType>) -> Seq<CTypeV> {
    types.map_values(|t: CType| t@)
}

/// All component edges point strictly downwards: node `i` only refers to
/// ids below `i`. This makes the graph acyclic by construction.
pub open spec fn graph_wf(ts: Seq<CTypeV>) -> bool {
    forall|i: int, j: int|
        0 <= i < ts.len() && 0 <= j < node_children(#[trigger] ts[i]).len()
            ==> #[trigger] node_children(ts[i])[j] < i
}

/// No two nodes of the graph have the same model: every interned type
/// appears exactly once.
pub open spec fn graph_nodup(ts: Seq<CTypeV>) -> bool {
    forall|i: int, j: int| 0 <= i < j < ts.len() ==> #[trigger] ts[i] != #[trigger] ts[j]
}

/// The fixed id under which [`TypeGraph::new`] interns each primitive.
pub open spec fn primitive_id_v(p: Primitive) -> TypeId {
    match p {
        Primitive::Void => 0,
        Primitive::Bool => 1,
        Primitive::U8 => 2,
        Primitive::U16 => 3,
        Primitive::U32 => 4,
        Primitive::U64 => 5,
        Primitive::I8 => 6,
        Primitive::I16 => 7,
        Primitive::I32 => 8,
        Primitive::I64 => 9,
    }
}

/// Id of `void` in every graph.
pub const TYPE_VOID: TypeId = 0;

/// Id of `bool` in every graph.
pub const TYPE_BOOL: TypeId = 1;

/// Id of `u8` in every graph.
pub const TYPE_U8: TypeId = 2;

/// Id of `u16` in every graph.
pub const TYPE_U16: TypeId = 3;

/// Id of `u32` in every graph.
pub const TYPE_U32: TypeId = 4;

/// Id of `u64` in every graph.
pub const TYPE_U64: TypeId = 5;

/// Id of `i8` in every graph.
pub const TYPE_I8: TypeId = 6;

/// Id of `i16` in every graph.
pub const TYPE_I16: TypeId = 7;

/// Id of `i32` in every graph.
pub const TYPE_I32: TypeId = 8;

/// Id of `i64` in every graph.
pub const TYPE_I64: TypeId = 9;

/// A graph has the ten primitives seeded at their fixed ids.
pub open spec fn graph_seeded(ts: Seq<CTypeV>) -> bool {
    &&& ts.len() >= 10
    &&& forall|p: Primitive| ts[primitive_id_v(p) as int] == CTypeV::Primitive(p)
}

/// The interned store of every type the inventory refers to.
///
/// Nodes are appended by [`TypeGraph::intern`] and never changed; a node's
/// components are always interned before the node itself.
pub struct TypeGraph {
    types: Vec<CType>,
}

impl View for TypeGraph {
    type V = Seq<CTypeV>;

    closed spec fn view(&self) -> Seq<CTypeV> {
        types_view(self.types@)
    }
}

impl TypeGraph {
    /// The invariant every graph operation preserves.
    pub open spec fn wf(&self) -> bool {
        &&& graph_wf(self@)
        &&& graph_nodup(self@)
        &&& graph_seeded(self@)
    }

    /// Creates a graph with the ten primitives pre-interned at their fixed
    /// ids.
    pub fn new() -> (g: TypeGraph)
        ensures
            g.wf(),
            g@.len() == 10,
    {
        let mut types: Vec<CType> = Vec::new();
        types.push(CType::Primitive(Primitive::Void));
        types.push(CType::Primitive(Primitive::Bool));
        types.push(CType::Primitive(Primitive::U8));
        types.push(CType::Primitive(Primitive::U16));
        types.push(CType::Primitive(Primitive::U32));
        types.push(CType::Primitive(Primitive::U64));
        types.push(CType::Primitive(Primitive::I8));
        types.push(CType::Primitive(Primitive::I16));
        types.push(CType::Primitive(Primitive::I32));
        types.push(CType::Primitive(Primitive::I64));
        let g = TypeGraph { types };
        proof {
            assert forall|p: Primitive| g@[primitive_id_v(p) as int] == CTypeV::Primitive(
                p,
            ) by {
                match p {
                    Primitive::Void => assert(g@[0] == CTypeV::Primitive(Primitive::Void)),
                    Primitive::Bool => assert(g@[1] == CTypeV::Primitive(Primitive::Bool)),
                    Primitive::U8 => assert(g@[2] == CTypeV::Primitive(Primitive::U8)),
                    Primitive::U16 => assert(g@[3] == CTypeV::Primitive(Primitive::U16)),
                    Primitive::U32 => assert(g@[4] == CTypeV::Primitive(Primitive::U32)),
                    Primitive::U64 => assert(g@[5] == CTypeV::Primitive(Primitive::U64)),
                    Primitive::I8 => assert(g@[6] == CTypeV::Primitive(Primitive::I8)),
                    Primitive::I16 => assert(g@[7] == CTypeV::Primitive(Primitive::I16)),
                    Primitive::I32 => assert(g@[8] == CTypeV::Primitive(Primitive::I32)),
                    Primitive::I64 => assert(g@[9] == CTypeV::Primitive(Primitive::I64)),
                }
            }
            assert forall|i: int, j: int|
                0 <= i < g@.len() && 0 <= j < node_children(#[trigger] g@[i]).len() implies
                #[trigger] node_children(g@[i])[j] < i by {
                assert(node_children(g@[i]).len() == 0);
            }
        }
        g
    }

    /// The number of interned types.
    pub fn len(&self) -> (r: usize)
        ensures
            r == self@.len(),
    {
        self.types.len()
    }

    /// Looks a node up by id.
    pub fn get(&self, id: TypeId) -> (r: &CType)
        requires
            id < self@.len(),
        ensures
            r@ == self@[id as int],
    {
        &self.types[id]
    }

    /// The fixed id of a primitive.
    pub fn primitive_id(&self, p: Primitive) -> (r: TypeId)
        ensures
            r == primitive_id_v(p),
    {
        match p {
            Primitive::Void => 0,
            Primitive::Bool => 1,
            Primitive::U8 => 2,
            Primitive::U16 => 3,
            Primitive::U32 => 4,
            Primitive::U64 => 5,
            Primitive::I8 => 6,
            Primitive::I16 => 7,
            Primitive::I32 => 8,
            Primitive::I64 => 9,
        }
    }

    /// Finds a node with the given model, if one was interned.
    pub fn find(&self, t: &CType) -> (r: Option<TypeId>)
        ensures
            match r {
                Some(id) => id < self@.len() && self@[id as int] == t@,
                None => forall|j: int| 0 <= j < self@.len() ==> self@[j] != t@,
            },
    {
        let n: usize = self.types.len();
        let mut i: usize = 0;
        while i < n
            invariant
                n == self@.len(),
                i <= n,
                n == self.types@.len(),
                forall|j: int| 0 <= j < i ==> self@[j] != t@,
            decreases n - i,
        {
            if ctype_eq(&self.types[i], t) {
                return Some(i);
            }
            i = i + 1;
        }
        None
    }

    /// Interns a node whose components are already interned. Returns the id
    /// of the node with this model: the existing one if the same type was
    /// interned before (every type appears exactly once), a fresh one
    /// otherwise.
    pub fn intern(&mut self, t: CType) -> (id: TypeId)
        requires
            old(self).wf(),
            forall|j: int|
                0 <= j < node_children(t@).len() ==> #[trigger] node_children(t@)[j] < old(
                    self,
                )@.len(),
        ensures
            final(self).wf(),
            old(self)@.len() <= final(self)@.len(),
            final(self)@.take(old(self)@.len() as int) == old(self)@,
            id < final(self)@.len(),
            final(self)@[id as int] == t@,
            (exists|j: int| 0 <= j < old(self)@.len() && old(self)@[j] == t@) ==> final(self)@
                == old(self)@,
            !(exists|j: int| 0 <= j < old(self)@.len() && old(self)@[j] == t@) ==> final(self)@
                == old(self)@.push(t@),
    {
        proof {
            assert(self@.take(self@.len() as int) =~= self@);
        }
        match self.find(&t) {
            Some(id) => id,
            None => {
                let id = self.types.len();
                let ghost old_view = self@;
                self.types.push(t);
                proof {
                    assert(self@ =~= old_view.push(t@));
                    assert(self@.take(old_view.len() as int) =~= old_view);
                    assert forall|i: int, j: int|
                        0 <= i < self@.len() && 0 <= j < node_children(#[trigger] self@[i]).len()
                        implies #[trigger] node_children(self@[i])[j] < i by {
                        if i < old_view.len() {
                            assert(self@[i] == old_view[i]);
                        } else {
                            assert(self@[i] == t@);
                        }
                    }
                    assert forall|p: Primitive| self@[primitive_id_v(p) as int]
                        == CTypeV::Primitive(p) by {
                        assert(old_view[primitive_id_v(p) as int] == CTypeV::Primitive(p));
                    }
                }
                id
            },
        }
    }
}

} // verus!

verus! {

// ---------------------------------------------------------------------------
// Constructors, clones and per-node queries.
// ---------------------------------------------------------------------------

impl Field {
    /// A field without documentation.
    pub fn new(name: String, ty: TypeId) -> (r: Field)
        ensures
            r@ == (FieldV { name: name@, ty, docs: Seq::<char>::empty() }),
    {
        Field { name, ty, docs: String::new() }
    }

    /// A documented field.
    pub fn with_docs(name: String, ty: TypeId, docs: String) -> (r: Field)
        ensures
            r@ == (FieldV { name: name@, ty, docs: docs@ }),
    {
        Field { name, ty, docs }
    }
}

impl Clone for Field {
    fn clone(&self) -> (r: Self)
        ensures
            r@ == self@,
    {
        Field { name: self.name.clone(), ty: self.ty, docs: self.docs.clone() }
    }
}

/// Copies a field list, preserving its model.
pub fn clone_fields(v: &Vec<Field>) -> (r: Vec<Field>)
    ensures
        fields_view(r@) == fields_view(v@),
{
    let mut out: Vec<Field> = Vec::new();
    let n: usize = v.len();
    let mut i: usize = 0;
    while i < n
        invariant
            n == v.len(),
            i <= n,
            out@.len() == i,
            forall|k: int| 0 <= k < i ==> #[trigger] out@[k]@ == v@[k]@,
        decreases n - i,
    {
        out.push(v[i].clone());
        i = i + 1;
    }
    assert(fields_view(out@) =~= fields_view(v@));
    out
}

impl Variant {
    /// A variant without documentation.
    pub fn new(name: String, value: u64) -> (r: Variant)
        ensures
            r@ == (VariantV { name: name@, value, docs: Seq::<char>::empty() }),
    {
        Variant { name, value, docs: String::new() }
    }
}

impl Clone for Variant {
    fn clone(&self) -> (r: Self)
        ensures
            r@ == self@,
    {
        Variant { name: self.name.clone(), value: self.value, docs: self.docs.clone() }
    }
}

/// Copies a variant list, preserving its model.
pub fn clone_variants(v: &Vec<Variant>) -> (r: Vec<Variant>)
    ensures
        variants_view(r@) == variants_view(v@),
{
    let mut out: Vec<Variant> = Vec::new();
    let n: usize = v.len();
    let mut i: usize = 0;
    while i < n
        invariant
            n == v.len(),
            i <= n,
            out@.len() == i,
            forall|k: int| 0 <= k < i ==> #[trigger] out@[k]@ == v@[k]@,
        decreases n - i,
    {
        out.push(v[i].clone());
        i = i + 1;
    }
    assert(variants_view(out@) =~= variants_view(v@));
    out
}

impl Parameter {
    /// A named parameter.
    pub fn new(name: String, ty: TypeId) -> (r: Parameter)
        ensures
            r@ == (ParameterV { name: name@, ty }),
    {
        Parameter { name, ty }
    }
}

impl Clone for Parameter {
    fn clone(&self) -> (r: Self)
        ensures
            r@ == self@,
    {
        Parameter { name: self.name.clone(), ty: self.ty }
    }
}

/// Copies a parameter list, preserving its model.
pub fn clone_params(v: &Vec<Parameter>) -> (r: Vec<Parameter>)
    ensures
        params_view(r@) == params_view(v@),
{
    let mut out: Vec<Parameter> = Vec::new();
    let n: usize = v.len();
    let mut i: usize = 0;
    while i < n
        invariant
            n == v.len(),
            i <= n,
            out@.len() == i,
            forall|k: int| 0 <= k < i ==> #[trigger] out@[k]@ == v@[k]@,
        decreases n - i,
    {
        out.push(v[i].clone());
        i = i + 1;
    }
    assert(params_view(out@) =~= params_view(v@));
    out
}

impl CompositeType {
    /// A composite from its ordered field list.
    pub fn new(name: String, fields: Vec<Field>) -> (r: CompositeType)
        ensures
            r@ == (CompositeV { name: name@, fields: fields_view(fields@) }),
    {
        CompositeType { name, fields }
    }

    /// Appends a field; the new field lies at the end of the layout order.
    pub fn add_field(&mut self, field: Field)
        ensures
            final(self)@ == (CompositeV {
                name: old(self)@.name,
                fields: old(self)@.fields.push(field@),
            }),
    {
        self.fields.push(field);
        proof {
            assert(fields_view(self.fields@) =~= fields_view(old(self).fields@).push(field@));
        }
    }

    /// The composite's name.
    pub fn name(&self) -> (r: &String)
        ensures
            r@ == self@.name,
    {
        &self.name
    }

    /// The ordered fields.
    pub fn fields(&self) -> (r: &Vec<Field>)
        ensures
            fields_view(r@) == self@.fields,
    {
        &self.fields
    }
}

impl Clone for CompositeType {
    fn clone(&self) -> (r: Self)
        ensures
            r@ == self@,
    {
        CompositeType { name: self.name.clone(), fields: clone_fields(&self.fields) }
    }
}

impl EnumType {
    /// An enum from its ordered variant list.
    pub fn new(name: String, variants: Vec<Variant>) -> (r: EnumType)
        ensures
            r@ == (EnumV { name: name@, variants: variants_view(variants@) }),
    {
        EnumType { name, variants }
    }

    /// The enum's name.
    pub fn name(&self) -> (r: &String)
        ensures
            r@ == self@.name,
    {
        &self.name
    }

    /// The ordered variants.
    pub fn variants(&self) -> (r: &Vec<Variant>)
        ensures
            variants_view(r@) == self@.variants,
    {
        &self.variants
    }
}

impl Clone for EnumType {
    fn clone(&self) -> (r: Self)
        ensures
            r@ == self@,
    {
        EnumType { name: self.name.clone(), variants: clone_variants(&self.variants) }
    }
}

impl OpaqueType {
    /// An opaque handle type.
    pub fn new(name: String) -> (r: OpaqueType)
        ensures
            r@ == (OpaqueV { name: name@ }),
    {
        OpaqueType { name }
    }

    /// The opaque type's name.
    pub fn name(&self) -> (r: &String)
        ensures
            r@ == self@.name,
    {
        &self.name
    }
}

impl Clone for OpaqueType {
    fn clone(&self) -> (r: Self)
        ensures
            r@ == self@,
    {
        OpaqueType { name: self.name.clone() }
    }
}

impl FunctionSignature {
    /// A signature from parameters and return type id.
    pub fn new(params: Vec<Parameter>, rval: TypeId) -> (r: FunctionSignature)
        ensures
            r@ == (SignatureV { params: params_view(params@), rval }),
    {
        FunctionSignature { params, rval }
    }

    /// The ordered parameters.
    pub fn params(&self) -> (r: &Vec<Parameter>)
        ensures
            params_view(r@) == self@.params,
    {
        &self.params
    }

    /// The return type id.
    pub fn rval(&self) -> (r: TypeId)
        ensures
            r == self@.rval,
    {
        self.rval
    }
}

impl Clone for FunctionSignature {
    fn clone(&self) -> (r: Self)
        ensures
            r@ == self@,
    {
        FunctionSignature { params: clone_params(&self.params), rval: self.rval }
    }
}

impl FnPointerType {
    /// A function pointer shape from its signature.
    pub fn new(signature: FunctionSignature) -> (r: FnPointerType)
        ensures
            r@ == (FnPointerV { signature: signature@ }),
    {
        FnPointerType { signature }
    }

    /// The signature.
    pub fn signature(&self) -> (r: &FunctionSignature)
        ensures
            r@ == self@.signature,
    {
        &self.signature
    }
}

impl Clone for FnPointerType {
    fn clone(&self) -> (r: Self)
        ensures
            r@ == self@,
    {
        FnPointerType { signature: self.signature.clone() }
    }
}

impl Function {
    /// A function descriptor without documentation.
    pub fn new(name: String, signature: FunctionSignature) -> (r: Function)
        ensures
            r@ == (FunctionV { name: name@, signature: signature@, docs: Seq::<char>::empty() }),
    {
        Function { name, signature, docs: String::new() }
    }

    /// The function's exported name.
    pub fn name(&self) -> (r: &String)
        ensures
            r@ == self@.name,
    {
        &self.name
    }

    /// The signature.
    pub fn signature(&self) -> (r: &FunctionSignature)
        ensures
            r@ == self@.signature,
    {
        &self.signature
    }
}

impl Clone for Function {
    fn clone(&self) -> (r: Self)
        ensures
            r@ == self@,
    {
        Function { name: self.name.clone(), signature: self.signature.clone(), docs: self.docs.clone() }
    }
}

impl Constant {
    /// A constant descriptor.
    pub fn new(name: String, value: PrimitiveValue) -> (r: Constant)
        ensures
            r@ == (ConstantV { name: name@, value }),
    {
        Constant { name, value }
    }

    /// The constant's exported name.
    pub fn name(&self) -> (r: &String)
        ensures
            r@ == self@.name,
    {
        &self.name
    }

    /// The value.
    pub fn value(&self) -> (r: PrimitiveValue)
        ensures
            r == self@.value,
    {
        self.value
    }
}

impl Clone for Constant {
    fn clone(&self) -> (r: Self)
        ensures
            r@ == self@,
    {
        Constant { name: self.name.clone(), value: self.value }
    }
}

} // verus!

verus! {

// ---------------------------------------------------------------------------
// Names, namespaces and pattern fallback shapes.
// ---------------------------------------------------------------------------

impl Clone for SuccessEnum {
    fn clone(&self) -> (r: Self)
        ensures
            r@ == self@,
    {
        SuccessEnum { the_enum: self.the_enum.clone(), success_variant: self.success_variant.clone() }
    }
}

impl SuccessEnum {
    /// An error enum pattern from the enum and its reserved success variant.
    pub fn new(the_enum: EnumType, success_variant: Variant) -> (r: SuccessEnum)
        ensures
            r@ == (SuccessEnumV { the_enum: the_enum@, success_variant: success_variant@ }),
    {
        Self { the_enum, success_variant }
    }

    /// The underlying enum.
    pub fn the_enum(&self) -> (r: &EnumType)
        ensures
            r@ == self@.the_enum,
    {
        &self.the_enum
    }

    /// The reserved success variant.
    pub fn success_variant(&self) -> (r: &Variant)
        ensures
            r@ == self@.success_variant,
    {
        &self.success_variant
    }
}

impl Clone for NamedCallback {
    fn clone(&self) -> (r: Self)
        ensures
            r@ == self@,
    {
        NamedCallback {
            name: self.name.clone(),
            namespace: self.namespace.clone(),
            fnpointer: self.fnpointer.clone(),
        }
    }
}

impl NamedCallback {
    /// A named callback in the default (empty) namespace.
    pub fn new(name: String, fnpointer: FnPointerType) -> (r: NamedCallback)
        ensures
            r@ == (NamedCallbackV {
                name: name@,
                namespace: Seq::<char>::empty(),
                fnpointer: fnpointer@,
            }),
    {
        NamedCallback { name, namespace: String::new(), fnpointer }
    }

    /// A named callback placed in an explicit namespace.
    pub fn with_namespace(name: String, namespace: String, fnpointer: FnPointerType) -> (r:
        NamedCallback)
        ensures
            r@ == (NamedCallbackV { name: name@, namespace: namespace@, fnpointer: fnpointer@ }),
    {
        NamedCallback { name, namespace, fnpointer }
    }

    /// The callback's name.
    pub fn name(&self) -> (r: &String)
        ensures
            r@ == self@.name,
    {
        &self.name
    }

    /// The function pointer shape behind the callback.
    pub fn fnpointer(&self) -> (r: &FnPointerType)
        ensures
            r@ == self@.fnpointer,
    {
        &self.fnpointer
    }
}

impl Clone for AsyncCallbackType {
    fn clone(&self) -> (r: Self)
        ensures
            r@ == self@,
    {
        AsyncCallbackType {
            name: self.name.clone(),
            fnpointer: self.fnpointer.clone(),
            target: self.target,
        }
    }
}

impl Clone for TypePattern {
    fn clone(&self) -> (r: Self)
        ensures
            r@ == self@,
    {
        match self {
            TypePattern::CStrPointer => TypePattern::CStrPointer,
            TypePattern::Utf8String(c) => TypePattern::Utf8String(c.clone()),
            TypePattern::SuccessEnum(e) => TypePattern::SuccessEnum(e.clone()),
            TypePattern::Slice(c) => TypePattern::Slice(c.clone()),
            TypePattern::SliceMut(c) => TypePattern::SliceMut(c.clone()),
            TypePattern::Optional(c) => TypePattern::Optional(c.clone()),
            TypePattern::NamedCallback(n) => TypePattern::NamedCallback(n.clone()),
            TypePattern::AsyncCallback(a) => TypePattern::AsyncCallback(a.clone()),
        }
    }
}

impl Clone for CType {
    fn clone(&self) -> (r: Self)
        ensures
            r@ == self@,
    {
        match self {
            CType::Primitive(p) => CType::Primitive(*p),
            CType::Composite(c) => CType::Composite(c.clone()),
            CType::Opaque(o) => CType::Opaque(o.clone()),
            CType::Enum(e) => CType::Enum(e.clone()),
            CType::FnPointer(f) => CType::FnPointer(f.clone()),
            CType::ReadPointer(t) => CType::ReadPointer(*t),
            CType::ReadWritePointer(t) => CType::ReadWritePointer(*t),
            CType::Pattern(p) => CType::Pattern(p.clone()),
        }
    }
}

/// The raw ABI-compatible shape of a pattern, for backends without native
/// pattern support.
pub open spec fn fallback_type_v(p: TypePatternV) -> CTypeV {
    match p {
        TypePatternV::CStrPointer => CTypeV::ReadPointer(TYPE_U8),
        TypePatternV::Utf8String(c) => CTypeV::Composite(c),
        TypePatternV::SuccessEnum(e) => CTypeV::Enum(e.the_enum),
        TypePatternV::Slice(c) => CTypeV::Composite(c),
        TypePatternV::SliceMut(c) => CTypeV::Composite(c),
        TypePatternV::Optional(c) => CTypeV::Composite(c),
        TypePatternV::NamedCallback(n) => CTypeV::FnPointer(n.fnpointer),
        TypePatternV::AsyncCallback(a) => CTypeV::FnPointer(a.fnpointer),
    }
}

impl TypePattern {
    /// For backends that do not know this pattern: the raw C-equivalent
    /// fallback type.
    pub fn fallback_type(&self) -> (r: CType)
        ensures
            r@ == fallback_type_v(self@),
    {
        match self {
            TypePattern::CStrPointer => CType::ReadPointer(TYPE_U8),
            TypePattern::Utf8String(c) => CType::Composite(c.clone()),
            TypePattern::SuccessEnum(e) => CType::Enum(e.the_enum.clone()),
            TypePattern::Slice(c) => CType::Composite(c.clone()),
            TypePattern::SliceMut(c) => CType::Composite(c.clone()),
            TypePattern::Optional(c) => CType::Composite(c.clone()),
            TypePattern::NamedCallback(n) => CType::FnPointer(n.fnpointer.clone()),
            TypePattern::AsyncCallback(a) => CType::FnPointer(a.fnpointer.clone()),
        }
    }
}

/// The name under which a node is rendered inside the library.
pub open spec fn ctype_name_v(t: CTypeV) -> Seq<char> {
    match t {
        CTypeV::Primitive(p) => match p {
            Primitive::Void => "void"@,
            Primitive::Bool => "bool"@,
            Primitive::U8 => "u8"@,
            Primitive::U16 => "u16"@,
            Primitive::U32 => "u32"@,
            Primitive::U64 => "u64"@,
            Primitive::I8 => "i8"@,
            Primitive::I16 => "i16"@,
            Primitive::I32 => "i32"@,
            Primitive::I64 => "i64"@,
        },
        CTypeV::Composite(c) => c.name,
        CTypeV::Opaque(o) => o.name,
        CTypeV::Enum(e) => e.name,
        CTypeV::FnPointer(_) => "fnptr"@,
        CTypeV::ReadPointer(_) => "const_ptr"@,
        CTypeV::ReadWritePointer(_) => "mut_ptr"@,
        CTypeV::Pattern(p) => match p {
            TypePatternV::CStrPointer => "cstrpointer"@,
            TypePatternV::Utf8String(c) => c.name,
            TypePatternV::SuccessEnum(e) => e.the_enum.name,
            TypePatternV::Slice(c) => c.name,
            TypePatternV::SliceMut(c) => c.name,
            TypePatternV::Optional(c) => c.name,
            TypePatternV::NamedCallback(n) => n.name,
            TypePatternV::AsyncCallback(a) => a.name,
        },
    }
}

/// Whether a node carries a public name of its own, so that it takes part
/// in name-collision detection.
pub open spec fn is_named_type(t: CTypeV) -> bool {
    match t {
        CTypeV::Primitive(_) => false,
        CTypeV::Composite(_) => true,
        CTypeV::Opaque(_) => true,
        CTypeV::Enum(_) => true,
        CTypeV::FnPointer(_) => false,
        CTypeV::ReadPointer(_) => false,
        CTypeV::ReadWritePointer(_) => false,
        CTypeV::Pattern(p) => !(p is CStrPointer),
    }
}

impl CType {
    /// The name under which this node is rendered inside the library.
    pub fn name_within_lib(&self) -> (r: String)
        ensures
            r@ == ctype_name_v(self@),
    {
        match self {
            CType::Primitive(p) => match p {
                Primitive::Void => String::from_str("void"),
                Primitive::Bool => String::from_str("bool"),
                Primitive::U8 => String::from_str("u8"),
                Primitive::U16 => String::from_str("u16"),
                Primitive::U32 => String::from_str("u32"),
                Primitive::U64 => String::from_str("u64"),
                Primitive::I8 => String::from_str("i8"),
                Primitive::I16 => String::from_str("i16"),
                Primitive::I32 => String::from_str("i32"),
                Primitive::I64 => String::from_str("i64"),
            },
            CType::Composite(c) => c.name.clone(),
            CType::Opaque(o) => o.name.clone(),
            CType::Enum(e) => e.name.clone(),
            CType::FnPointer(_) => String::from_str("fnptr"),
            CType::ReadPointer(_) => String::from_str("const_ptr"),
            CType::ReadWritePointer(_) => String::from_str("mut_ptr"),
            CType::Pattern(p) => match p {
                TypePattern::CStrPointer => String::from_str("cstrpointer"),
                TypePattern::Utf8String(c) => c.name.clone(),
                TypePattern::SuccessEnum(e) => e.the_enum.name.clone(),
                TypePattern::Slice(c) => c.name.clone(),
                TypePattern::SliceMut(c) => c.name.clone(),
                TypePattern::Optional(c) => c.name.clone(),
                TypePattern::NamedCallback(n) => n.name.clone(),
                TypePattern::AsyncCallback(a) => a.name.clone(),
            },
        }
    }

    /// Whether this node takes part in name-collision detection.
    pub fn is_named(&self) -> (r: bool)
        ensures
            r == is_named_type(self@),
    {
        match self {
            CType::Composite(_) => true,
            CType::Opaque(_) => true,
            CType::Enum(_) => true,
            CType::Pattern(p) => !matches!(p, TypePattern::CStrPointer),
            _ => false,
        }
    }

    /// The namespace a named callback was declared in; `None` for nodes
    /// that carry no namespace.
    pub fn namespace(&self) -> (r: Option<&str>)
        ensures
            match self@ {
                CTypeV::Pattern(TypePatternV::NamedCallback(n)) => {
                    &&& r is Some
                    &&& r->0@ == n.namespace
                },
                _ => r is None,
            },
    {
        match self {
            CType::Pattern(TypePattern::NamedCallback(n)) => Some(n.namespace.as_str()),
            _ => None,
        }
    }
}

} // verus!
