//! The inventory: registration of functions, constants, extra types and
//! library patterns; batched validation; and the immutable [`Library`] that
//! code generation consumes.

use vstd::prelude::*;
use crate::lang::CType;
use crate::lang::CTypeV;
use crate::lang::Constant;
use crate::lang::ConstantV;
use crate::lang::Function;
use crate::lang::FunctionV;
use crate::lang::Primitive;
use crate::lang::PrimitiveValue;
use crate::lang::TypeGraph;
use crate::lang::TypeId;
use crate::lang::TypePatternV;
use crate::lang::node_children;
use crate::lang::primitive_id_v;
use crate::lang::signature_children;
use crate::lang::ctype_name_v;
use crate::lang::is_named_type;
use crate::lang::TYPE_U8;
use crate::lang::TYPE_U64;
use crate::naming::NameCase;
use crate::naming::ToNamingStyle;
use crate::naming::naming_style_of;
use crate::pattern::LibraryPattern;
use crate::pattern::LibraryPatternV;
use crate::pattern::Service;
use crate::pattern::ServiceIssue;
use crate::pattern::ServiceV;
use crate::pattern::functions_view;
use crate::pattern::patterns_view;
use crate::pattern::service_valid;

verus! {

// ---------------------------------------------------------------------------
// Reachability over the type graph.
// ---------------------------------------------------------------------------

/// Whether `to` is reachable from `from` along component edges. In a
/// well-formed graph every edge points strictly downwards, which also bounds
/// this recursion.
pub open spec fn reaches(ts: Seq<CTypeV>, from: TypeId, to: TypeId) -> bool
    decreases from,
{
    ||| from == to
    ||| (from < ts.len() && exists|j: int|
        0 <= j < node_children(ts[from as int]).len() && #[trigger] node_children(
            ts[from as int],
        )[j] < from && reaches(ts, node_children(ts[from as int])[j], to))
}

/// A visited set that is closed under component edges.
pub open spec fn visited_closed(ts: Seq<CTypeV>, vis: Seq<bool>) -> bool {
    &&& vis.len() == ts.len()
    &&& forall|t: int, j: int|
        0 <= t < ts.len() && vis[t] && 0 <= j < node_children(#[trigger] ts[t]).len()
            && #[trigger] node_children(ts[t])[j] < ts.len() ==> vis[node_children(
            ts[t],
        )[j] as int]
}

/// In a well-formed graph, everything reachable from a visited node of a
/// closed visited set is itself visited.
pub proof fn lemma_closed_reaches(ts: Seq<CTypeV>, vis: Seq<bool>, from: TypeId, to: TypeId)
    requires
        crate::lang::graph_wf(ts),
        visited_closed(ts, vis),
        from < ts.len(),
        vis[from as int],
        reaches(ts, from, to),
    ensures
        to < ts.len(),
        vis[to as int],
    decreases from,
{
    if from == to {
    } else {
        let j = choose|j: int|
            0 <= j < node_children(ts[from as int]).len() && #[trigger] node_children(
                ts[from as int],
            )[j] < from && reaches(ts, node_children(ts[from as int])[j], to);
        let c = node_children(ts[from as int])[j];
        assert(c < from);
        assert(vis[c as int]);
        lemma_closed_reaches(ts, vis, c, to);
    }
}

/// Marks everything reachable from `id`. The visited set stays closed, only
/// grows, and afterwards holds a type exactly when it was already marked or
/// is reachable from `id`.
fn mark(g: &TypeGraph, visited: &mut Vec<bool>, id: TypeId)
    requires
        g.wf(),
        id < g@.len(),
        old(visited)@.len() == g@.len(),
        visited_closed(g@, old(visited)@),
    ensures
        final(visited)@.len() == g@.len(),
        visited_closed(g@, final(visited)@),
        forall|t: TypeId|
            t < g@.len() ==> (#[trigger] final(visited)@[t as int] == (old(visited)@[t as int]
                || reaches(g@, id, t))),
    decreases id,
{
    if visited[id] {
        proof {
            assert forall|t: TypeId| t < g@.len() && reaches(g@, id, t) implies old(
                visited,
            )@[t as int] by {
                lemma_closed_reaches(g@, old(visited)@, id, t);
            }
            assert(final(visited)@ == old(visited)@);
        }
        return ;
    }
    let node = g.get(id);
    let children = crate::lang::children_of(node);
    let ghost ch = node_children(g@[id as int]);
    let n: usize = children.len();
    let mut k: usize = 0;
    while k < n
        invariant
            g.wf(),
            id < g@.len(),
            n == children@.len(),
            children@ == ch,
            ch == node_children(g@[id as int]),
            k <= n,
            visited@.len() == g@.len(),
            visited_closed(g@, visited@),
            forall|t: TypeId|
                t < g@.len() ==> (#[trigger] visited@[t as int] == (old(visited)@[t as int]
                    || exists|j: int| 0 <= j < k && reaches(g@, #[trigger] ch[j], t))),
        decreases n - k,
    {
        let c: TypeId = children[k];
        proof {
            assert(ch[k as int] < id);
        }
        let ghost before = visited@;
        mark(g, visited, c);
        proof {
            assert forall|t: TypeId|
                t < g@.len() implies (#[trigger] visited@[t as int] == (old(
                visited,
            )@[t as int] || exists|j: int|
                0 <= j < k + 1 && reaches(g@, #[trigger] ch[j], t))) by {
                if visited@[t as int] {
                    if before[t as int] {
                        if !old(visited)@[t as int] {
                            let j = choose|j: int|
                                0 <= j < k && reaches(g@, #[trigger] ch[j], t);
                            assert(0 <= j < k + 1 && reaches(g@, ch[j], t));
                        }
                    } else {
                        assert(reaches(g@, ch[k as int], t));
                    }
                } else {
                    assert(!before[t as int]);
                    if exists|j: int| 0 <= j < k + 1 && reaches(g@, #[trigger] ch[j], t) {
                        let j = choose|j: int|
                            0 <= j < k + 1 && reaches(g@, #[trigger] ch[j], t);
                        if j < k {
                            assert(before[t as int]);
                        } else {
                            assert(reaches(g@, ch[k as int], t));
                            assert(visited@[t as int]);
                        }
                    }
                }
            }
        }
        k = k + 1;
    }
    let ghost before_set = visited@;
    visited.set(id, true);
    proof {
        // The new set is still closed: `id`'s components are all visited.
        assert forall|t: int, j: int|
            0 <= t < g@.len() && visited@[t] && 0 <= j < node_children(#[trigger] g@[t]).len()
                && #[trigger] node_children(g@[t])[j] < g@.len() implies visited@[node_children(
            g@[t],
        )[j] as int] by {
            if t == id {
                let c = node_children(g@[id as int])[j];
                assert(reaches(g@, ch[j], c));
                assert(visited@[c as int]);
            } else {
                assert(before_set[t]);
            }
        }
        // The iff: marked now means marked before or reachable from `id`.
        assert forall|t: TypeId|
            t < g@.len() implies (#[trigger] visited@[t as int] == (old(visited)@[t as int]
                || reaches(g@, id, t))) by {
            if t == id {
                assert(reaches(g@, id, id));
            } else {
                if visited@[t as int] {
                    assert(before_set[t as int]);
                    if !old(visited)@[t as int] {
                        let j = choose|j: int| 0 <= j < n && reaches(g@, #[trigger] ch[j], t);
                        assert(node_children(g@[id as int])[j] < id);
                        assert(reaches(g@, id, t));
                    }
                } else {
                    if reaches(g@, id, t) {
                        let j = choose|j: int|
                            0 <= j < node_children(g@[id as int]).len() && #[trigger] node_children(
                                g@[id as int],
                            )[j] < id && reaches(g@, node_children(g@[id as int])[j], t);
                        assert(before_set[t as int]);
                    }
                }
            }
        }
    }
}

} // verus!

verus! {

// ---------------------------------------------------------------------------
// The registered inventory and its roots.
// ---------------------------------------------------------------------------

/// Mathematical model of everything registered with an
/// [`InventoryBuilder`].
pub ghost struct InventoryV {
    pub functions: Seq<FunctionV>,
    pub constants: Seq<ConstantV>,
    pub extra_types: Seq<TypeId>,
    pub patterns: Seq<LibraryPatternV>,
}

/// The primitive type of a constant's value.
pub open spec fn value_primitive(v: PrimitiveValue) -> Primitive {
    match v {
        PrimitiveValue::Bool(_) => Primitive::Bool,
        PrimitiveValue::U8(_) => Primitive::U8,
        PrimitiveValue::U16(_) => Primitive::U16,
        PrimitiveValue::U32(_) => Primitive::U32,
        PrimitiveValue::U64(_) => Primitive::U64,
        PrimitiveValue::I8(_) => Primitive::I8,
        PrimitiveValue::I16(_) => Primitive::I16,
        PrimitiveValue::I32(_) => Primitive::I32,
        PrimitiveValue::I64(_) => Primitive::I64,
    }
}

/// The primitive type of a constant's value, as a node id.
pub fn value_primitive_id(v: PrimitiveValue) -> (r: TypeId)
    ensures
        r == primitive_id_v(value_primitive(v)),
{
    match v {
        PrimitiveValue::Bool(_) => 1,
        PrimitiveValue::U8(_) => 2,
        PrimitiveValue::U16(_) => 3,
        PrimitiveValue::U32(_) => 4,
        PrimitiveValue::U64(_) => 5,
        PrimitiveValue::I8(_) => 6,
        PrimitiveValue::I16(_) => 7,
        PrimitiveValue::I32(_) => 8,
        PrimitiveValue::I64(_) => 9,
    }
}

/// Whether `id` is a root contributed by a service: the receiver and every
/// id in the signatures of the service's functions.
pub open spec fn service_root(s: ServiceV, id: TypeId) -> bool {
    ||| id == s.the_type
    ||| exists|i: int|
        0 <= i < s.constructors.len() && signature_children(
            (#[trigger] s.constructors[i]).signature,
        ).contains(id)
    ||| signature_children(s.destructor.signature).contains(id)
    ||| exists|i: int|
        0 <= i < s.methods.len() && signature_children(
            (#[trigger] s.methods[i]).signature,
        ).contains(id)
}

/// Whether `id` is a root contributed by the builtin helpers.
pub open spec fn builtins_root(b: crate::pattern::BuiltinsV, id: TypeId) -> bool {
    exists|i: int|
        0 <= i < b.functions.len() && signature_children(
            (#[trigger] b.functions[i]).signature,
        ).contains(id)
}

/// Whether `id` is a root contributed by a library pattern: the service
/// receiver and every id in the signatures of the pattern's functions.
pub open spec fn pattern_root(p: LibraryPatternV, id: TypeId) -> bool {
    match p {
        LibraryPatternV::Service(s) => service_root(s, id),
        LibraryPatternV::Builtins(b) => builtins_root(b, id),
    }
}

/// Whether `id` appears directly in a registered signature, constant type,
/// extra type or pattern: the starting points of the reachability closure.
pub open spec fn is_root(inv: InventoryV, id: TypeId) -> bool {
    ||| exists|i: int|
        0 <= i < inv.functions.len() && signature_children(
            (#[trigger] inv.functions[i]).signature,
        ).contains(id)
    ||| exists|i: int|
        0 <= i < inv.constants.len() && id == primitive_id_v(value_primitive(
            (#[trigger] inv.constants[i]).value,
        ))
    ||| inv.extra_types.contains(id)
    ||| exists|i: int| 0 <= i < inv.patterns.len() && pattern_root(#[trigger] inv.patterns[i], id)
}

/// Whether `t` is transitively reachable from some root of the inventory.
pub open spec fn root_reachable(ts: Seq<CTypeV>, inv: InventoryV, t: TypeId) -> bool {
    exists|r: TypeId| #[trigger] is_root(inv, r) && reaches(ts, r, t)
}

/// Membership distributes over sequence concatenation.
pub proof fn lemma_contains_concat<A>(a: Seq<A>, b: Seq<A>, x: A)
    ensures
        (a + b).contains(x) <==> a.contains(x) || b.contains(x),
{
    if (a + b).contains(x) {
        let i = choose|i: int| 0 <= i < (a + b).len() && (a + b)[i] == x;
        if i < a.len() {
            assert(a[i] == x);
        } else {
            assert(b[i - a.len()] == x);
        }
    }
    if a.contains(x) {
        let i = choose|i: int| 0 <= i < a.len() && a[i] == x;
        assert((a + b)[i] == x);
    }
    if b.contains(x) {
        let i = choose|i: int| 0 <= i < b.len() && b[i] == x;
        assert((a + b)[a.len() + i] == x);
    }
}

/// Appends all ids of `xs` to `out`.
fn push_all(out: &mut Vec<TypeId>, xs: &Vec<TypeId>)
    ensures
        final(out)@ == old(out)@ + xs@,
{
    let n: usize = xs.len();
    let mut i: usize = 0;
    while i < n
        invariant
            n == xs@.len(),
            i <= n,
            out@ == old(out)@ + xs@.take(i as int),
        decreases n - i,
    {
        out.push(xs[i]);
        assert(out@ =~= old(out)@ + xs@.take(i as int + 1));
        i = i + 1;
    }
    assert(out@ =~= old(out)@ + xs@);
}

/// Appends every id appearing in the signatures of `fs`.
fn push_function_roots(out: &mut Vec<TypeId>, fs: &Vec<Function>)
    ensures
        forall|id: TypeId|
            #[trigger] final(out)@.contains(id) <==> old(out)@.contains(id) || exists|i: int|
                0 <= i < fs@.len() && signature_children(
                    (#[trigger] functions_view(fs@)[i]).signature,
                ).contains(id),
{
    let n: usize = fs.len();
    let mut k: usize = 0;
    while k < n
        invariant
            n == fs@.len(),
            k <= n,
            forall|id: TypeId|
                #[trigger] out@.contains(id) <==> old(out)@.contains(id) || exists|i: int|
                    0 <= i < k && signature_children(
                        (#[trigger] functions_view(fs@)[i]).signature,
                    ).contains(id),
        decreases n - k,
    {
        let ghost before = out@;
        let children = crate::lang::signature_children_of(&fs[k].signature);
        proof {
            assert(children@ == signature_children(functions_view(fs@)[k as int].signature));
        }
        push_all(out, &children);
        proof {
            assert forall|id: TypeId| #[trigger] out@.contains(id) implies (old(out)@.contains(id)
                || exists|i: int|
                0 <= i < k + 1 && signature_children(
                    (#[trigger] functions_view(fs@)[i]).signature,
                ).contains(id)) by {
                lemma_contains_concat(before, children@, id);
                if before.contains(id) {
                } else {
                    assert(signature_children(functions_view(fs@)[k as int].signature).contains(
                        id,
                    ));
                }
            }
            assert forall|id: TypeId|
                (old(out)@.contains(id) || exists|i: int|
                    0 <= i < k + 1 && signature_children(
                        (#[trigger] functions_view(fs@)[i]).signature,
                    ).contains(id)) implies #[trigger] out@.contains(id) by {
                lemma_contains_concat(before, children@, id);
                if !old(out)@.contains(id) {
                    let i = choose|i: int|
                        0 <= i < k + 1 && signature_children(
                            (#[trigger] functions_view(fs@)[i]).signature,
                        ).contains(id);
                    if i < k {
                        assert(before.contains(id));
                    } else {
                        assert(children@.contains(id));
                    }
                }
            }
        }
        k = k + 1;
    }
}

/// The ids a single pattern contributes as roots.
fn pattern_roots_of(p: &LibraryPattern) -> (r: Vec<TypeId>)
    ensures
        forall|id: TypeId| #[trigger] r@.contains(id) <==> pattern_root(p@, id),
{
    let mut out: Vec<TypeId> = Vec::new();
    match p {
        LibraryPattern::Service(s) => {
            out.push(s.the_type());
            proof {
                assert(out@.len() == 1 && out@[0] == s@.the_type);
                assert(out@.contains(s@.the_type));
                assert forall|id: TypeId| #[trigger] out@.contains(id) implies id
                    == s@.the_type by {
                    let i = choose|i: int| 0 <= i < out@.len() && out@[i] == id;
                }
            }
            let ghost stage0 = out@;
            push_function_roots(&mut out, s.constructors());
            let ghost stage1 = out@;
            let dtor_children = crate::lang::signature_children_of(&s.destructor().signature);
            proof {
                assert(dtor_children@ == signature_children(s@.destructor.signature));
            }
            push_all(&mut out, &dtor_children);
            let ghost stage2 = out@;
            push_function_roots(&mut out, s.methods());
            proof {
                assert(p@ == LibraryPatternV::Service(s@));
                assert forall|id: TypeId| #[trigger] out@.contains(id) <==> pattern_root(
                    p@,
                    id,
                ) by {
                    lemma_contains_concat(stage1, dtor_children@, id);
                    assert(stage2.contains(id) <==> stage1.contains(id)
                        || dtor_children@.contains(id));
                    assert(stage1.contains(id) <==> stage0.contains(id) || exists|i: int|
                        0 <= i < s@.constructors.len() && signature_children(
                            (#[trigger] s@.constructors[i]).signature,
                        ).contains(id));
                    assert(out@.contains(id) <==> stage2.contains(id) || exists|i: int|
                        0 <= i < s@.methods.len() && signature_children(
                            (#[trigger] s@.methods[i]).signature,
                        ).contains(id));
                    assert(stage0.contains(id) <==> id == s@.the_type);
                    assert(out@.contains(id) <==> service_root(s@, id));
                }
            }
        },
        LibraryPattern::Builtins(b) => {
            let ghost stage0 = out@;
            let fns = b.functions();
            push_function_roots(&mut out, fns);
            proof {
                assert(p@ == LibraryPatternV::Builtins(b@));
                assert forall|id: TypeId| #[trigger] out@.contains(id) <==> pattern_root(
                    p@,
                    id,
                ) by {
                    assert(stage0.len() == 0);
                    assert(!stage0.contains(id));
                    assert(functions_view(fns@) == b@.functions);
                    if out@.contains(id) {
                        let i = choose|i: int|
                            0 <= i < fns@.len() && signature_children(
                                (#[trigger] functions_view(fns@)[i]).signature,
                            ).contains(id);
                        assert(b@.functions[i] == functions_view(fns@)[i]);
                        assert(0 <= i < b@.functions.len() && signature_children(
                            (#[trigger] b@.functions[i]).signature,
                        ).contains(id));
                        assert(builtins_root(b@, id));
                    }
                    if pattern_root(p@, id) {
                        assert(builtins_root(b@, id));
                        let i = choose|i: int|
                            0 <= i < b@.functions.len() && signature_children(
                                (#[trigger] b@.functions[i]).signature,
                            ).contains(id);
                        assert(functions_view(fns@)[i] == b@.functions[i]);
                        assert(0 <= i < fns@.len() && signature_children(
                            (#[trigger] functions_view(fns@)[i]).signature,
                        ).contains(id));
                        assert(out@.contains(id));
                    }
                }
            }
        },
    }
    out
}

} // verus!

verus! {

// ---------------------------------------------------------------------------
// Pattern shape requirements checked during validation.
// ---------------------------------------------------------------------------

/// The reserved error-enum code for success.
pub const SUCCESS_CODE: u64 = 0;

/// The reserved error-enum code for a null argument.
pub const NULL_CODE: u64 = 100;

/// The reserved error-enum code for a caught panic.
pub const PANIC_CODE: u64 = 200;

/// An inline option must carry a literal payload field `t` and an 8-bit
/// discriminant field `is_some`, in that layout order.
pub open spec fn optional_shape_ok(c: crate::lang::CompositeV) -> bool {
    &&& c.fields.len() == 2
    &&& c.fields[0].name == "t"@
    &&& c.fields[1].name == "is_some"@
    &&& c.fields[1].ty == TYPE_U8
}

/// A slice is a pointer plus a 64-bit length, in that layout order.
pub open spec fn slice_shape_ok(ts: Seq<CTypeV>, c: crate::lang::CompositeV, mutable: bool) -> bool {
    &&& c.fields.len() == 2
    &&& c.fields[0].name == "ptr"@
    &&& c.fields[0].ty < ts.len()
    &&& if mutable {
        ts[c.fields[0].ty as int] is ReadWritePointer
    } else {
        ts[c.fields[0].ty as int] is ReadPointer
    }
    &&& c.fields[1].name == "len"@
    &&& c.fields[1].ty == TYPE_U64
}

/// An owned string is a byte pointer, a 64-bit length and a 64-bit capacity,
/// in that layout order.
pub open spec fn utf8_shape_ok(ts: Seq<CTypeV>, c: crate::lang::CompositeV) -> bool {
    &&& c.fields.len() == 3
    &&& c.fields[0].name == "ptr"@
    &&& c.fields[0].ty < ts.len()
    &&& ts[c.fields[0].ty as int] == CTypeV::ReadWritePointer(TYPE_U8)
    &&& c.fields[1].name == "len"@
    &&& c.fields[1].ty == TYPE_U64
    &&& c.fields[2].name == "capacity"@
    &&& c.fields[2].ty == TYPE_U64
}

/// An error enum reserves exactly the three codes: its success variant has
/// the success code and belongs to the enum, and the enum also carries the
/// null and panic codes.
pub open spec fn success_enum_shape_ok(e: crate::lang::SuccessEnumV) -> bool {
    &&& e.success_variant.value == SUCCESS_CODE
    &&& e.the_enum.variants.contains(e.success_variant)
    &&& exists|i: int|
        0 <= i < e.the_enum.variants.len() && (#[trigger] e.the_enum.variants[i]).value
            == NULL_CODE
    &&& exists|i: int|
        0 <= i < e.the_enum.variants.len() && (#[trigger] e.the_enum.variants[i]).value
            == PANIC_CODE
}

/// The structural requirement a node places on itself: patterns must have
/// their documented wire shapes; other nodes are unconstrained.
pub open spec fn pattern_shape_ok(ts: Seq<CTypeV>, t: CTypeV) -> bool {
    match t {
        CTypeV::Pattern(p) => match p {
            TypePatternV::Optional(c) => optional_shape_ok(c),
            TypePatternV::Slice(c) => slice_shape_ok(ts, c, false),
            TypePatternV::SliceMut(c) => slice_shape_ok(ts, c, true),
            TypePatternV::Utf8String(c) => utf8_shape_ok(ts, c),
            TypePatternV::SuccessEnum(e) => success_enum_shape_ok(e),
            _ => true,
        },
        _ => true,
    }
}

/// Whether an enum carries a variant with the given value.
fn has_variant_with_value(variants: &Vec<crate::lang::Variant>, value: u64) -> (r: bool)
    ensures
        r == exists|i: int|
            0 <= i < crate::lang::variants_view(variants@).len() && (
            #[trigger] crate::lang::variants_view(variants@)[i]).value == value,
{
    let n: usize = variants.len();
    let mut i: usize = 0;
    while i < n
        invariant
            n == variants@.len(),
            i <= n,
            forall|k: int|
                0 <= k < i ==> (#[trigger] crate::lang::variants_view(variants@)[k]).value
                    != value,
        decreases n - i,
    {
        if variants[i].value == value {
            assert(crate::lang::variants_view(variants@)[i as int].value == value);
            return true;
        }
        assert(crate::lang::variants_view(variants@)[i as int].value != value);
        i = i + 1;
    }
    false
}

/// Whether an enum carries the given variant.
fn has_variant(variants: &Vec<crate::lang::Variant>, v: &crate::lang::Variant) -> (r: bool)
    ensures
        r == crate::lang::variants_view(variants@).contains(v@),
{
    let n: usize = variants.len();
    let mut i: usize = 0;
    while i < n
        invariant
            n == variants@.len(),
            i <= n,
            forall|k: int| 0 <= k < i ==> crate::lang::variants_view(variants@)[k] != v@,
        decreases n - i,
    {
        if crate::lang::variant_eq(&variants[i], v) {
            assert(crate::lang::variants_view(variants@)[i as int] == v@);
            return true;
        }
        assert(crate::lang::variants_view(variants@)[i as int] != v@);
        i = i + 1;
    }
    assert(!crate::lang::variants_view(variants@).contains(v@));
    false
}

/// Decides the wire-shape requirement of one node.
fn node_shape_ok(g: &TypeGraph, node: &CType) -> (r: bool)
    ensures
        r == pattern_shape_ok(g@, node@),
{
    match node {
        CType::Pattern(p) => {
            let r = match p {
                crate::lang::TypePattern::Optional(c) => {
                    let name_t = String::from_str("t");
                    let name_is_some = String::from_str("is_some");
                    c.fields.len() == 2 && c.fields[0].name == name_t && c.fields[1].name
                        == name_is_some && c.fields[1].ty == TYPE_U8
                },
                crate::lang::TypePattern::Slice(c) => slice_fields_ok(g, c, false),
                crate::lang::TypePattern::SliceMut(c) => slice_fields_ok(g, c, true),
                crate::lang::TypePattern::Utf8String(c) => utf8_fields_ok(g, c),
                crate::lang::TypePattern::SuccessEnum(e) => {
                    e.success_variant.value == SUCCESS_CODE && has_variant(
                        &e.the_enum.variants,
                        &e.success_variant,
                    ) && has_variant_with_value(&e.the_enum.variants, NULL_CODE)
                        && has_variant_with_value(&e.the_enum.variants, PANIC_CODE)
                },
                _ => true,
            };
            proof {
                match p {
                    crate::lang::TypePattern::Optional(c) => {
                        assert(r == optional_shape_ok(c@));
                    },
                    crate::lang::TypePattern::SuccessEnum(e) => {
                        assert(r == success_enum_shape_ok(e@));
                    },
                    _ => {},
                }
            }
            r
        },
        _ => true,
    }
}

/// Decides the slice wire shape.
fn slice_fields_ok(g: &TypeGraph, c: &crate::lang::CompositeType, mutable: bool) -> (r: bool)
    ensures
        r == slice_shape_ok(g@, c@, mutable),
{
    let name_ptr = String::from_str("ptr");
    let name_len = String::from_str("len");
    if !(c.fields.len() == 2 && c.fields[0].name == name_ptr && c.fields[1].name == name_len
        && c.fields[1].ty == TYPE_U64) {
        return false;
    }
    let ty0: TypeId = c.fields[0].ty;
    if ty0 >= g.len() {
        return false;
    }
    let ok = match g.get(ty0) {
        CType::ReadPointer(_) => !mutable,
        CType::ReadWritePointer(_) => mutable,
        _ => false,
    };
    ok
}

/// Decides the owned-string wire shape.
fn utf8_fields_ok(g: &TypeGraph, c: &crate::lang::CompositeType) -> (r: bool)
    ensures
        r == utf8_shape_ok(g@, c@),
{
    let name_ptr = String::from_str("ptr");
    let name_len = String::from_str("len");
    let name_capacity = String::from_str("capacity");
    if !(c.fields.len() == 3 && c.fields[0].name == name_ptr && c.fields[1].name == name_len
        && c.fields[1].ty == TYPE_U64 && c.fields[2].name == name_capacity && c.fields[2].ty
        == TYPE_U64) {
        return false;
    }
    let ty0: TypeId = c.fields[0].ty;
    if ty0 >= g.len() {
        return false;
    }
    let ok = match g.get(ty0) {
        CType::ReadWritePointer(t) => *t == TYPE_U8,
        _ => false,
    };
    ok
}

} // verus!

verus! {

// ---------------------------------------------------------------------------
// The builder, validation and the immutable library.
// ---------------------------------------------------------------------------

/// Model of a sequence of constants.
pub open spec fn constants_view(cs: Seq<Constant>) -> Seq<ConstantV> {
    cs.map_values(|c: Constant| c@)
}

/// Every root id the inventory mentions lies inside the graph.
pub open spec fn inventory_ids_ok(ts: Seq<CTypeV>, inv: InventoryV) -> bool {
    forall|id: TypeId| #[trigger] is_root(inv, id) ==> id < ts.len()
}

/// One violation found during validation.
#[derive(Clone, Debug)]
pub enum ValidationIssue {
    /// Two distinct reachable types render to the same public name.
    AmbiguousName { name: String },
    /// A pattern type does not have its documented wire shape.
    MalformedPattern { name: String },
    /// A service breaks a structural requirement.
    Service(ServiceIssue),
}

/// No two distinct reachable named types render to the same public name
/// under the naming configuration.
pub open spec fn no_ambiguity(ts: Seq<CTypeV>, inv: InventoryV, naming: NameCase) -> bool {
    forall|t1: TypeId, t2: TypeId|
        t1 < ts.len() && t2 < ts.len() && #[trigger] root_reachable(ts, inv, t1)
            && #[trigger] root_reachable(ts, inv, t2) && t1 != t2 && is_named_type(
            ts[t1 as int],
        ) && is_named_type(ts[t2 as int]) ==> naming_style_of(
            ctype_name_v(ts[t1 as int]),
            naming,
        ) != naming_style_of(ctype_name_v(ts[t2 as int]), naming)
}

/// Every reachable pattern type has its documented wire shape.
pub open spec fn shapes_ok(ts: Seq<CTypeV>, inv: InventoryV) -> bool {
    forall|t: TypeId|
        t < ts.len() && #[trigger] root_reachable(ts, inv, t) ==> pattern_shape_ok(
            ts,
            ts[t as int],
        )
}

/// Every registered service satisfies the service pattern.
pub open spec fn services_ok(ts: Seq<CTypeV>, inv: InventoryV) -> bool {
    forall|i: int|
        0 <= i < inv.patterns.len() ==> (#[trigger] inv.patterns[i] matches
            LibraryPatternV::Service(s) ==> service_valid(ts, s))
}

/// Everything [`InventoryBuilder::validate`] checks: no name collisions, no
/// malformed pattern shapes, no broken services.
pub open spec fn inventory_ok(ts: Seq<CTypeV>, inv: InventoryV, naming: NameCase) -> bool {
    &&& no_ambiguity(ts, inv, naming)
    &&& shapes_ok(ts, inv)
    &&& services_ok(ts, inv)
}

/// Accumulates functions, constants, extra types and patterns, then
/// validates them in one batch and builds the immutable [`Library`].
pub struct InventoryBuilder {
    graph: TypeGraph,
    functions: Vec<Function>,
    constants: Vec<Constant>,
    extra_types: Vec<TypeId>,
    patterns: Vec<LibraryPattern>,
}

impl InventoryBuilder {
    /// The interned type nodes.
    pub closed spec fn types(&self) -> Seq<CTypeV> {
        self.graph@
    }

    /// Everything registered so far.
    pub closed spec fn inv(&self) -> InventoryV {
        InventoryV {
            functions: functions_view(self.functions@),
            constants: constants_view(self.constants@),
            extra_types: self.extra_types@,
            patterns: patterns_view(self.patterns@),
        }
    }

    /// The invariant every builder operation preserves.
    pub open spec fn wf(&self) -> bool {
        &&& crate::lang::graph_wf(self.types())
        &&& crate::lang::graph_nodup(self.types())
        &&& crate::lang::graph_seeded(self.types())
        &&& inventory_ids_ok(self.types(), self.inv())
    }

    /// An empty inventory over a fresh graph.
    pub fn new() -> (r: InventoryBuilder)
        ensures
            r.wf(),
            r.inv().functions.len() == 0,
            r.inv().constants.len() == 0,
            r.inv().extra_types.len() == 0,
            r.inv().patterns.len() == 0,
            r.types().len() == 10,
    {
        let b = InventoryBuilder {
            graph: TypeGraph::new(),
            functions: Vec::new(),
            constants: Vec::new(),
            extra_types: Vec::new(),
            patterns: Vec::new(),
        };
        proof {
            assert forall|id: TypeId| #[trigger] is_root(b.inv(), id) implies id
                < b.types().len() by {
                assert(!b.inv().extra_types.contains(id));
            }
        }
        b
    }

    /// The type graph, for building descriptors against.
    pub fn graph(&self) -> (r: &TypeGraph)
        ensures
            r@ == self.types(),
            self.wf() ==> r.wf(),
    {
        &self.graph
    }

    /// Interns a type whose components are already interned and returns its
    /// id.
    pub fn intern(&mut self, t: CType) -> (id: TypeId)
        requires
            old(self).wf(),
            forall|j: int|
                0 <= j < node_children(t@).len() ==> #[trigger] node_children(t@)[j] < old(
                    self,
                ).types().len(),
        ensures
            final(self).wf(),
            final(self).inv() == old(self).inv(),
            old(self).types().len() <= final(self).types().len(),
            final(self).types().take(old(self).types().len() as int) == old(self).types(),
            id < final(self).types().len(),
            final(self).types()[id as int] == t@,
    {
        let id = self.graph.intern(t);
        proof {
            assert forall|rid: TypeId| #[trigger] is_root(self.inv(), rid) implies rid
                < self.types().len() by {
                assert(is_root(old(self).inv(), rid));
            }
        }
        id
    }

    /// The fixed id of a primitive.
    pub fn primitive_id(&self, p: Primitive) -> (r: TypeId)
        ensures
            r == primitive_id_v(p),
    {
        self.graph.primitive_id(p)
    }

    /// Registers a function.
    pub fn register_function(&mut self, f: Function)
        requires
            old(self).wf(),
            forall|id: TypeId|
                #[trigger] signature_children(f@.signature).contains(id) ==> id < old(
                    self,
                ).types().len(),
        ensures
            final(self).wf(),
            final(self).types() == old(self).types(),
            final(self).inv() == (InventoryV {
                functions: old(self).inv().functions.push(f@),
                ..old(self).inv()
            }),
    {
        let ghost old_inv = self.inv();
        self.functions.push(f);
        proof {
            assert(functions_view(self.functions@) =~= old_inv.functions.push(f@));
            let new_inv = self.inv();
            assert forall|id: TypeId| #[trigger] is_root(new_inv, id) implies id
                < self.types().len() by {
                if exists|i: int|
                    0 <= i < new_inv.functions.len() && signature_children(
                        (#[trigger] new_inv.functions[i]).signature,
                    ).contains(id) {
                    let i = choose|i: int|
                        0 <= i < new_inv.functions.len() && signature_children(
                            (#[trigger] new_inv.functions[i]).signature,
                        ).contains(id);
                    if i < old_inv.functions.len() {
                        assert(old_inv.functions[i] == new_inv.functions[i]);
                        assert(is_root(old_inv, id));
                    } else {
                        assert(new_inv.functions[i] == f@);
                    }
                } else {
                    assert(is_root(old_inv, id));
                }
            }
        }
    }

    /// Registers a constant.
    pub fn register_constant(&mut self, c: Constant)
        requires
            old(self).wf(),
        ensures
            final(self).wf(),
            final(self).types() == old(self).types(),
            final(self).inv() == (InventoryV {
                constants: old(self).inv().constants.push(c@),
                ..old(self).inv()
            }),
    {
        let ghost old_inv = self.inv();
        self.constants.push(c);
        proof {
            assert(constants_view(self.constants@) =~= old_inv.constants.push(c@));
            let new_inv = self.inv();
            assert forall|id: TypeId| #[trigger] is_root(new_inv, id) implies id
                < self.types().len() by {
                if exists|i: int|
                    0 <= i < new_inv.constants.len() && id == primitive_id_v(value_primitive(
                        (#[trigger] new_inv.constants[i]).value,
                    )) {
                    let i = choose|i: int|
                        0 <= i < new_inv.constants.len() && id == primitive_id_v(value_primitive(
                            (#[trigger] new_inv.constants[i]).value,
                        ));
                    if i < old_inv.constants.len() {
                        assert(old_inv.constants[i] == new_inv.constants[i]);
                        assert(is_root(old_inv, id));
                    } else {
                        assert(id < 10);
                    }
                } else {
                    assert(is_root(old_inv, id));
                }
            }
        }
    }

    /// Registers an extra type that no signature mentions.
    pub fn register_extra_type(&mut self, id: TypeId)
        requires
            old(self).wf(),
            id < old(self).types().len(),
        ensures
            final(self).wf(),
            final(self).types() == old(self).types(),
            final(self).inv() == (InventoryV {
                extra_types: old(self).inv().extra_types.push(id),
                ..old(self).inv()
            }),
    {
        let ghost old_inv = self.inv();
        self.extra_types.push(id);
        proof {
            let new_inv = self.inv();
            assert forall|rid: TypeId| #[trigger] is_root(new_inv, rid) implies rid
                < self.types().len() by {
                if new_inv.extra_types.contains(rid) {
                    let i = choose|i: int|
                        0 <= i < new_inv.extra_types.len() && new_inv.extra_types[i] == rid;
                    if i < old_inv.extra_types.len() {
                        assert(old_inv.extra_types[i] == rid);
                        assert(old_inv.extra_types.contains(rid));
                        assert(is_root(old_inv, rid));
                    }
                } else {
                    assert(is_root(old_inv, rid));
                }
            }
        }
    }

    /// Registers a library pattern.
    pub fn register_pattern(&mut self, p: LibraryPattern)
        requires
            old(self).wf(),
            forall|id: TypeId| #[trigger] pattern_root(p@, id) ==> id < old(self).types().len(),
        ensures
            final(self).wf(),
            final(self).types() == old(self).types(),
            final(self).inv() == (InventoryV {
                patterns: old(self).inv().patterns.push(p@),
                ..old(self).inv()
            }),
    {
        let ghost old_inv = self.inv();
        let ghost pv = p@;
        self.patterns.push(p);
        proof {
            assert(patterns_view(self.patterns@) =~= old_inv.patterns.push(pv));
            let new_inv = self.inv();
            assert forall|id: TypeId| #[trigger] is_root(new_inv, id) implies id
                < self.types().len() by {
                if exists|i: int|
                    0 <= i < new_inv.patterns.len() && pattern_root(
                        #[trigger] new_inv.patterns[i],
                        id,
                    ) {
                    let i = choose|i: int|
                        0 <= i < new_inv.patterns.len() && pattern_root(
                            #[trigger] new_inv.patterns[i],
                            id,
                        );
                    if i < old_inv.patterns.len() {
                        assert(old_inv.patterns[i] == new_inv.patterns[i]);
                        assert(is_root(old_inv, id));
                    } else {
                        assert(new_inv.patterns[i] == pv);
                    }
                } else {
                    assert(is_root(old_inv, id));
                }
            }
        }
    }

    /// Collects every root id of the inventory.
    fn collect_roots(&self) -> (r: Vec<TypeId>)
        ensures
            forall|id: TypeId| #[trigger] r@.contains(id) <==> is_root(self.inv(), id),
    {
        let mut out: Vec<TypeId> = Vec::new();
        let ghost empty_seq = out@;
        push_function_roots(&mut out, &self.functions);
        let ghost stage_f = out@;
        let n_consts: usize = self.constants.len();
        let mut i: usize = 0;
        while i < n_consts
            invariant
                n_consts == self.constants@.len(),
                i <= n_consts,
                forall|id: TypeId|
                    #[trigger] out@.contains(id) <==> stage_f.contains(id) || exists|k: int|
                        0 <= k < i && id == primitive_id_v(value_primitive(
                            (#[trigger] constants_view(self.constants@)[k]).value,
                        )),
            decreases n_consts - i,
        {
            let ghost before = out@;
            out.push(value_primitive_id(self.constants[i].value()));
            proof {
                assert(out@ =~= before.push(primitive_id_v(value_primitive(
                    constants_view(self.constants@)[i as int].value,
                ))));
                assert forall|id: TypeId| #[trigger] out@.contains(id) implies (
                stage_f.contains(id) || exists|k: int|
                    0 <= k < i + 1 && id == primitive_id_v(value_primitive(
                        (#[trigger] constants_view(self.constants@)[k]).value,
                    ))) by {
                    let ix = choose|ix: int| 0 <= ix < out@.len() && out@[ix] == id;
                    if ix < before.len() {
                        assert(before.contains(id));
                    } else {
                        assert(id == primitive_id_v(value_primitive(
                            constants_view(self.constants@)[i as int].value,
                        )));
                    }
                }
                assert forall|id: TypeId|
                    (stage_f.contains(id) || exists|k: int|
                        0 <= k < i + 1 && id == primitive_id_v(value_primitive(
                            (#[trigger] constants_view(self.constants@)[k]).value,
                        ))) implies #[trigger] out@.contains(id) by {
                    if before.contains(id) {
                        let ix = choose|ix: int| 0 <= ix < before.len() && before[ix] == id;
                        assert(out@[ix] == id);
                    } else {
                        assert(out@[out@.len() - 1] == id);
                    }
                }
            }
            i = i + 1;
        }
        let ghost stage_c = out@;
        push_all(&mut out, &self.extra_types);
        let ghost stage_e = out@;
        proof {
            assert forall|id: TypeId| #[trigger] stage_e.contains(id) <==> (stage_c.contains(id)
                || self.extra_types@.contains(id)) by {
                lemma_contains_concat(stage_c, self.extra_types@, id);
            }
        }
        let n_pats: usize = self.patterns.len();
        let mut j: usize = 0;
        while j < n_pats
            invariant
                n_pats == self.patterns@.len(),
                j <= n_pats,
                forall|id: TypeId|
                    #[trigger] out@.contains(id) <==> stage_e.contains(id) || exists|k: int|
                        0 <= k < j && pattern_root(
                            #[trigger] patterns_view(self.patterns@)[k],
                            id,
                        ),
            decreases n_pats - j,
        {
            let ghost before = out@;
            let proots = pattern_roots_of(&self.patterns[j]);
            push_all(&mut out, &proots);
            proof {
                assert forall|id: TypeId| #[trigger] out@.contains(id) <==> (before.contains(id)
                    || pattern_root(patterns_view(self.patterns@)[j as int], id)) by {
                    lemma_contains_concat(before, proots@, id);
                }
                assert forall|id: TypeId| #[trigger] out@.contains(id) implies (stage_e.contains(
                    id,
                ) || exists|k: int|
                    0 <= k < j + 1 && pattern_root(
                        #[trigger] patterns_view(self.patterns@)[k],
                        id,
                    )) by {
                    if before.contains(id) {
                        if !stage_e.contains(id) {
                            let k = choose|k: int|
                                0 <= k < j && pattern_root(
                                    #[trigger] patterns_view(self.patterns@)[k],
                                    id,
                                );
                            assert(0 <= k < j + 1 && pattern_root(
                                patterns_view(self.patterns@)[k],
                                id,
                            ));
                        }
                    } else {
                        assert(pattern_root(patterns_view(self.patterns@)[j as int], id));
                    }
                }
                assert forall|id: TypeId|
                    (stage_e.contains(id) || exists|k: int|
                        0 <= k < j + 1 && pattern_root(
                            #[trigger] patterns_view(self.patterns@)[k],
                            id,
                        )) implies #[trigger] out@.contains(id) by {
                    if !stage_e.contains(id) {
                        let k = choose|k: int|
                            0 <= k < j + 1 && pattern_root(
                                #[trigger] patterns_view(self.patterns@)[k],
                                id,
                            );
                        if k < j {
                            assert(before.contains(id));
                        }
                    }
                }
            }
            j = j + 1;
        }
        proof {
            assert forall|id: TypeId| #[trigger] out@.contains(id) <==> is_root(
                self.inv(),
                id,
            ) by {
                assert(!empty_seq.contains(id));
                assert(self.inv().functions == functions_view(self.functions@));
                if stage_f.contains(id) {
                    let i = choose|i: int|
                        0 <= i < self.functions@.len() && signature_children(
                            (#[trigger] functions_view(self.functions@)[i]).signature,
                        ).contains(id);
                    assert(0 <= i < self.inv().functions.len() && signature_children(
                        (#[trigger] self.inv().functions[i]).signature,
                    ).contains(id));
                }
                if exists|i: int|
                    0 <= i < self.inv().functions.len() && signature_children(
                        (#[trigger] self.inv().functions[i]).signature,
                    ).contains(id) {
                    let i = choose|i: int|
                        0 <= i < self.inv().functions.len() && signature_children(
                            (#[trigger] self.inv().functions[i]).signature,
                        ).contains(id);
                    assert(0 <= i < self.functions@.len() && signature_children(
                        (#[trigger] functions_view(self.functions@)[i]).signature,
                    ).contains(id));
                    assert(stage_f.contains(id));
                }
                assert(stage_f.contains(id) <==> exists|i: int|
                    0 <= i < self.inv().functions.len() && signature_children(
                        (#[trigger] self.inv().functions[i]).signature,
                    ).contains(id));
                assert(stage_c.contains(id) <==> stage_f.contains(id) || exists|k: int|
                    0 <= k < self.inv().constants.len() && id == primitive_id_v(value_primitive(
                        (#[trigger] self.inv().constants[k]).value,
                    )));
                assert(stage_e.contains(id) <==> stage_c.contains(id)
                    || self.inv().extra_types.contains(id));
                assert(self.inv().patterns == patterns_view(self.patterns@));
                if out@.contains(id) && !stage_e.contains(id) {
                    let k = choose|k: int|
                        0 <= k < patterns_view(self.patterns@).len() && pattern_root(
                            #[trigger] patterns_view(self.patterns@)[k],
                            id,
                        );
                    assert(0 <= k < self.inv().patterns.len() && pattern_root(
                        #[trigger] self.inv().patterns[k],
                        id,
                    ));
                }
                if exists|k: int|
                    0 <= k < self.inv().patterns.len() && pattern_root(
                        #[trigger] self.inv().patterns[k],
                        id,
                    ) {
                    let k = choose|k: int|
                        0 <= k < self.inv().patterns.len() && pattern_root(
                            #[trigger] self.inv().patterns[k],
                            id,
                        );
                    assert(0 <= k < patterns_view(self.patterns@).len() && pattern_root(
                        #[trigger] patterns_view(self.patterns@)[k],
                        id,
                    ));
                    assert(out@.contains(id));
                }
                assert(out@.contains(id) <==> stage_e.contains(id) || exists|k: int|
                    0 <= k < self.inv().patterns.len() && pattern_root(
                        #[trigger] self.inv().patterns[k],
                        id,
                    ));
            }
        }
        out
    }
}

} // verus!

verus! {

/// Reachability never leaves the graph: from a node inside the graph only
/// nodes inside the graph are reachable.
pub proof fn lemma_reaches_bound(ts: Seq<CTypeV>, from: TypeId, to: TypeId)
    requires
        reaches(ts, from, to),
        from < ts.len(),
    ensures
        to < ts.len(),
    decreases from,
{
    if from != to {
        let j = choose|j: int|
            0 <= j < node_children(ts[from as int]).len() && #[trigger] node_children(
                ts[from as int],
            )[j] < from && reaches(ts, node_children(ts[from as int])[j], to);
        lemma_reaches_bound(ts, node_children(ts[from as int])[j], to);
    }
}

impl InventoryBuilder {
    /// Computes the reachability closure: the ascending list of every type
    /// reachable from a registered root.
    fn compute_closure(&self) -> (r: Vec<TypeId>)
        requires
            self.wf(),
        ensures
            forall|a: int, b: int| 0 <= a < b < r@.len() ==> r@[a] < r@[b],
            forall|a: int| 0 <= a < r@.len() ==> #[trigger] r@[a] < self.types().len(),
            forall|t: TypeId|
                #[trigger] r@.contains(t) <==> root_reachable(self.types(), self.inv(), t),
    {
        let roots = self.collect_roots();
        let n: usize = self.graph.len();
        let mut visited: Vec<bool> = Vec::new();
        let mut z: usize = 0;
        while z < n
            invariant
                z <= n,
                visited@.len() == z,
                forall|t: int| 0 <= t < z ==> !visited@[t],
            decreases n - z,
        {
            visited.push(false);
            z = z + 1;
        }
        let n_roots: usize = roots.len();
        let mut k: usize = 0;
        while k < n_roots
            invariant
                self.wf(),
                n == self.types().len(),
                n_roots == roots@.len(),
                forall|id: TypeId| #[trigger] roots@.contains(id) <==> is_root(self.inv(), id),
                k <= n_roots,
                visited@.len() == n,
                visited_closed(self.types(), visited@),
                forall|t: TypeId|
                    t < n ==> (#[trigger] visited@[t as int] == exists|j: int|
                        0 <= j < k && reaches(self.types(), #[trigger] roots@[j], t)),
            decreases n_roots - k,
        {
            let rt: TypeId = roots[k];
            proof {
                assert(roots@.contains(roots@[k as int]));
                assert(is_root(self.inv(), rt));
            }
            let ghost before = visited@;
            mark(&self.graph, &mut visited, rt);
            proof {
                assert forall|t: TypeId|
                    t < n implies (#[trigger] visited@[t as int] == exists|j: int|
                    0 <= j < k + 1 && reaches(self.types(), #[trigger] roots@[j], t)) by {
                    if visited@[t as int] {
                        if before[t as int] {
                            let j = choose|j: int|
                                0 <= j < k && reaches(self.types(), #[trigger] roots@[j], t);
                            assert(0 <= j < k + 1 && reaches(self.types(), roots@[j], t));
                        } else {
                            assert(reaches(self.types(), roots@[k as int], t));
                        }
                    } else {
                        if exists|j: int|
                            0 <= j < k + 1 && reaches(self.types(), #[trigger] roots@[j], t) {
                            let j = choose|j: int|
                                0 <= j < k + 1 && reaches(self.types(), #[trigger] roots@[j], t);
                            if j < k {
                                assert(before[t as int]);
                            }
                            assert(false);
                        }
                    }
                }
            }
            k = k + 1;
        }
        let mut out: Vec<TypeId> = Vec::new();
        let mut t: usize = 0;
        while t < n
            invariant
                n == self.types().len(),
                visited@.len() == n,
                t <= n,
                forall|a: int, b: int| 0 <= a < b < out@.len() ==> out@[a] < out@[b],
                forall|a: int| 0 <= a < out@.len() ==> #[trigger] out@[a] < t,
                forall|a: int| 0 <= a < out@.len() ==> visited@[out@[a] as int],
                forall|u: TypeId| u < t && visited@[u as int] ==> #[trigger] out@.contains(u),
            decreases n - t,
        {
            if visited[t] {
                let ghost before = out@;
                out.push(t);
                proof {
                    assert forall|u: TypeId| u < t + 1 && visited@[u as int] implies
                        #[trigger] out@.contains(u) by {
                        if u < t {
                            assert(before.contains(u));
                            let a = choose|a: int| 0 <= a < before.len() && before[a] == u;
                            assert(out@[a] == u);
                        } else {
                            assert(out@[out@.len() - 1] == u);
                        }
                    }
                }
            }
            t = t + 1;
        }
        proof {
            assert forall|u: TypeId| #[trigger] out@.contains(u) implies root_reachable(
                self.types(),
                self.inv(),
                u,
            ) by {
                let a = choose|a: int| 0 <= a < out@.len() && out@[a] == u;
                assert(visited@[u as int]);
                let j = choose|j: int|
                    0 <= j < n_roots && reaches(self.types(), #[trigger] roots@[j], u);
                assert(roots@.contains(roots@[j]));
                assert(is_root(self.inv(), roots@[j]));
            }
            assert forall|u: TypeId| root_reachable(self.types(), self.inv(), u) implies
                #[trigger] out@.contains(u) by {
                let rt = choose|rt: TypeId|
                    #[trigger] is_root(self.inv(), rt) && reaches(self.types(), rt, u);
                assert(is_root(self.inv(), rt) && reaches(self.types(), rt, u));
                assert(roots@.contains(rt));
                let j = choose|j: int| 0 <= j < roots@.len() && roots@[j] == rt;
                assert(reaches(self.types(), roots@[j], u));
                lemma_reaches_bound(self.types(), rt, u);
                assert(visited@[u as int]);
            }
        }
        out
    }

    /// Searches the closure for two distinct types that render to the same
    /// public name.
    fn find_ambiguity(&self, closure: &Vec<TypeId>, type_naming: &NameCase) -> (r: Option<(
        usize,
        usize,
    )>)
        requires
            self.wf(),
            forall|a: int| 0 <= a < closure@.len() ==> #[trigger] closure@[a] < self.types().len(),
        ensures
            match r {
                Some((i, j)) => {
                    &&& 0 <= i < j < closure@.len()
                    &&& is_named_type(self.types()[closure@[i as int] as int])
                    &&& is_named_type(self.types()[closure@[j as int] as int])
                    &&& naming_style_of(
                        ctype_name_v(self.types()[closure@[i as int] as int]),
                        *type_naming,
                    ) == naming_style_of(
                        ctype_name_v(self.types()[closure@[j as int] as int]),
                        *type_naming,
                    )
                },
                None => forall|i: int, j: int|
                    0 <= i < j < closure@.len() && is_named_type(
                        self.types()[#[trigger] closure@[i] as int],
                    ) && is_named_type(self.types()[#[trigger] closure@[j] as int])
                        ==> naming_style_of(
                        ctype_name_v(self.types()[closure@[i] as int]),
                        *type_naming,
                    ) != naming_style_of(
                        ctype_name_v(self.types()[closure@[j] as int]),
                        *type_naming,
                    ),
            },
    {
        let m: usize = closure.len();
        let mut rendered: Vec<Option<String>> = Vec::new();
        let mut k: usize = 0;
        while k < m
            invariant
                self.wf(),
                m == closure@.len(),
                forall|a: int|
                    0 <= a < closure@.len() ==> #[trigger] closure@[a] < self.types().len(),
                k <= m,
                rendered@.len() == k,
                forall|a: int|
                    0 <= a < k ==> match #[trigger] rendered@[a] {
                        Some(s) => is_named_type(self.types()[closure@[a] as int]) && s@
                            == naming_style_of(
                            ctype_name_v(self.types()[closure@[a] as int]),
                            *type_naming,
                        ),
                        None => !is_named_type(self.types()[closure@[a] as int]),
                    },
            decreases m - k,
        {
            let node = self.graph.get(closure[k]);
            if node.is_named() {
                let nm = node.name_within_lib();
                let styled = nm.as_str().to_naming_style(type_naming);
                rendered.push(Some(styled));
            } else {
                rendered.push(None);
            }
            k = k + 1;
        }
        let mut j: usize = 0;
        while j < m
            invariant
                self.wf(),
                m == closure@.len(),
                rendered@.len() == m,
                forall|a: int|
                    0 <= a < closure@.len() ==> #[trigger] closure@[a] < self.types().len(),
                forall|a: int|
                    0 <= a < m ==> match #[trigger] rendered@[a] {
                        Some(s) => is_named_type(self.types()[closure@[a] as int]) && s@
                            == naming_style_of(
                            ctype_name_v(self.types()[closure@[a] as int]),
                            *type_naming,
                        ),
                        None => !is_named_type(self.types()[closure@[a] as int]),
                    },
                j <= m,
                forall|a: int, b: int|
                    0 <= a < b < j && is_named_type(self.types()[#[trigger] closure@[a] as int])
                        && is_named_type(self.types()[#[trigger] closure@[b] as int])
                        ==> naming_style_of(
                        ctype_name_v(self.types()[closure@[a] as int]),
                        *type_naming,
                    ) != naming_style_of(
                        ctype_name_v(self.types()[closure@[b] as int]),
                        *type_naming,
                    ),
            decreases m - j,
        {
            let mut i: usize = 0;
            while i < j
                invariant
                    self.wf(),
                    m == closure@.len(),
                    rendered@.len() == m,
                    forall|a: int|
                        0 <= a < closure@.len() ==> #[trigger] closure@[a] < self.types().len(),
                    forall|a: int|
                        0 <= a < m ==> match #[trigger] rendered@[a] {
                            Some(s) => is_named_type(self.types()[closure@[a] as int]) && s@
                                == naming_style_of(
                                ctype_name_v(self.types()[closure@[a] as int]),
                                *type_naming,
                            ),
                            None => !is_named_type(self.types()[closure@[a] as int]),
                        },
                    j < m,
                    i <= j,
                    forall|a: int, b: int|
                        0 <= a < b < j && is_named_type(
                            self.types()[#[trigger] closure@[a] as int],
                        ) && is_named_type(self.types()[#[trigger] closure@[b] as int])
                            ==> naming_style_of(
                            ctype_name_v(self.types()[closure@[a] as int]),
                            *type_naming,
                        ) != naming_style_of(
                            ctype_name_v(self.types()[closure@[b] as int]),
                            *type_naming,
                        ),
                    forall|a: int|
                        0 <= a < i && is_named_type(self.types()[#[trigger] closure@[a] as int])
                            && is_named_type(self.types()[closure@[j as int] as int])
                            ==> naming_style_of(
                            ctype_name_v(self.types()[closure@[a] as int]),
                            *type_naming,
                        ) != naming_style_of(
                            ctype_name_v(self.types()[closure@[j as int] as int]),
                            *type_naming,
                        ),
                decreases j - i,
            {
                let collide = match (&rendered[i], &rendered[j]) {
                    (Some(a), Some(b)) => a.eq(b),
                    _ => false,
                };
                proof {
                    let vi = rendered@[i as int];
                    let vj = rendered@[j as int];
                    if is_named_type(self.types()[closure@[i as int] as int]) && is_named_type(
                        self.types()[closure@[j as int] as int],
                    ) {
                        assert(vi is Some && vj is Some);
                        assert(collide == (vi.unwrap()@ == vj.unwrap()@));
                    } else {
                        assert(!collide);
                    }
                }
                if collide {
                    return Some((i, j));
                }
                i = i + 1;
            }
            j = j + 1;
        }
        None
    }
}

} // verus!

verus! {

impl InventoryBuilder {
    /// Runs every check in one batch: name-collision detection over the
    /// reachability closure, wire-shape checks of every reachable pattern,
    /// and the structural checks of every registered service. Violations
    /// are collected, never reported one at a time; the result is empty
    /// exactly when the whole inventory is valid.
    pub fn validate(&self, type_naming: &NameCase) -> (issues: Vec<ValidationIssue>)
        requires
            self.wf(),
        ensures
            issues@.len() == 0 <==> inventory_ok(self.types(), self.inv(), *type_naming),
    {
        let ghost ts = self.types();
        let ghost inv = self.inv();
        let closure = self.compute_closure();
        let mut issues: Vec<ValidationIssue> = Vec::new();
        match self.find_ambiguity(&closure, type_naming) {
            Some((i, j)) => {
                let node = self.graph.get(closure[i]);
                let nm = node.name_within_lib();
                let styled = nm.as_str().to_naming_style(type_naming);
                issues.push(ValidationIssue::AmbiguousName { name: styled });
                proof {
                    let t1 = closure@[i as int];
                    let t2 = closure@[j as int];
                    assert(closure@.contains(t1));
                    assert(closure@.contains(t2));
                    assert(t1 != t2);
                    assert(!no_ambiguity(ts, inv, *type_naming));
                }
            },
            None => {
                proof {
                    assert forall|t1: TypeId, t2: TypeId|
                        t1 < ts.len() && t2 < ts.len() && #[trigger] root_reachable(ts, inv, t1)
                            && #[trigger] root_reachable(ts, inv, t2) && t1 != t2
                            && is_named_type(ts[t1 as int]) && is_named_type(ts[t2 as int])
                        implies naming_style_of(ctype_name_v(ts[t1 as int]), *type_naming)
                        != naming_style_of(ctype_name_v(ts[t2 as int]), *type_naming) by {
                        assert(closure@.contains(t1));
                        assert(closure@.contains(t2));
                        let a = choose|a: int| 0 <= a < closure@.len() && closure@[a] == t1;
                        let b = choose|b: int| 0 <= b < closure@.len() && closure@[b] == t2;
                        assert(a != b);
                        if a < b {
                            assert(closure@[a] == t1 && closure@[b] == t2);
                        } else {
                            assert(closure@[b] == t2 && closure@[a] == t1);
                        }
                    }
                    assert(no_ambiguity(ts, inv, *type_naming));
                }
            },
        }
        let ghost amb_ok = no_ambiguity(ts, inv, *type_naming);
        proof {
            assert(issues@.len() == 0 <==> amb_ok);
        }
        let m: usize = closure.len();
        let mut k: usize = 0;
        while k < m
            invariant
                self.wf(),
                ts == self.types(),
                inv == self.inv(),
                m == closure@.len(),
                forall|a: int| 0 <= a < closure@.len() ==> #[trigger] closure@[a] < ts.len(),
                forall|t: TypeId| #[trigger] closure@.contains(t) <==> root_reachable(ts, inv, t),
                k <= m,
                issues@.len() == 0 <==> amb_ok && (forall|a: int|
                    0 <= a < k ==> pattern_shape_ok(ts, ts[#[trigger] closure@[a] as int])),
            decreases m - k,
        {
            let node = self.graph.get(closure[k]);
            if !node_shape_ok(&self.graph, node) {
                issues.push(ValidationIssue::MalformedPattern { name: node.name_within_lib() });
            }
            k = k + 1;
        }
        let ghost shapes_all = shapes_ok(ts, inv);
        proof {
            assert forall|t: TypeId|
                t < ts.len() && #[trigger] root_reachable(ts, inv, t) implies (
            closure@.contains(t)) by {}
            if forall|a: int|
                0 <= a < m ==> pattern_shape_ok(ts, ts[#[trigger] closure@[a] as int]) {
                assert forall|t: TypeId|
                    t < ts.len() && #[trigger] root_reachable(ts, inv, t) implies
                    pattern_shape_ok(ts, ts[t as int]) by {
                    assert(closure@.contains(t));
                    let a = choose|a: int| 0 <= a < closure@.len() && closure@[a] == t;
                    assert(pattern_shape_ok(ts, ts[closure@[a] as int]));
                }
                assert(shapes_all);
            } else {
                let a = choose|a: int|
                    0 <= a < m && !pattern_shape_ok(ts, ts[#[trigger] closure@[a] as int]);
                assert(closure@.contains(closure@[a]));
                assert(root_reachable(ts, inv, closure@[a]));
                assert(!shapes_all);
            }
            assert(issues@.len() == 0 <==> amb_ok && shapes_all);
        }
        let n_pats: usize = self.patterns.len();
        let mut p: usize = 0;
        while p < n_pats
            invariant
                self.wf(),
                ts == self.types(),
                inv == self.inv(),
                n_pats == self.patterns@.len(),
                p <= n_pats,
                issues@.len() == 0 <==> amb_ok && shapes_all && (forall|a: int|
                    0 <= a < p ==> (#[trigger] inv.patterns[a] matches LibraryPatternV::Service(
                        sv,
                    ) ==> service_valid(ts, sv))),
            decreases n_pats - p,
        {
            match &self.patterns[p] {
                LibraryPattern::Service(s) => {
                    proof {
                        assert(inv.patterns[p as int] == LibraryPatternV::Service(s@));
                    }
                    let sissues = s.assert_valid(&self.graph);
                    let n_si: usize = sissues.len();
                    let ghost had = issues@.len();
                    let mut q: usize = 0;
                    while q < n_si
                        invariant
                            n_si == sissues@.len(),
                            q <= n_si,
                            issues@.len() == had + q,
                        decreases n_si - q,
                    {
                        issues.push(ValidationIssue::Service(sissues[q].clone()));
                        q = q + 1;
                    }
                    proof {
                        assert(sissues@.len() == 0 <==> service_valid(ts, s@));
                    }
                },
                LibraryPattern::Builtins(_) => {
                    proof {
                        assert(inv.patterns[p as int] is Builtins);
                    }
                },
            }
            p = p + 1;
        }
        proof {
            assert(issues@.len() == 0 <==> amb_ok && shapes_all && services_ok(ts, inv));
        }
        issues
    }

    /// Validates the inventory and, only if every check passed, freezes it
    /// into the immutable [`Library`]. On failure the batched violation
    /// list is returned and no library — and so no generator output — can
    /// exist.
    pub fn build(self, type_naming: NameCase) -> (r: Result<Library, Vec<ValidationIssue>>)
        requires
            self.wf(),
        ensures
            match r {
                Ok(lib) => {
                    &&& inventory_ok(self.types(), self.inv(), type_naming)
                    &&& lib.wf()
                    &&& lib.types() == self.types()
                    &&& lib.inv() == self.inv()
                    &&& lib.naming() == type_naming
                },
                Err(issues) => {
                    &&& issues@.len() > 0
                    &&& !inventory_ok(self.types(), self.inv(), type_naming)
                },
            },
    {
        let issues = self.validate(&type_naming);
        if issues.len() > 0 {
            return Err(issues);
        }
        let closure = self.compute_closure();
        let InventoryBuilder { graph, functions, constants, extra_types, patterns } = self;
        Ok(
            Library {
                graph,
                functions,
                constants,
                extra_types,
                patterns,
                closure,
                type_naming,
            },
        )
    }
}

/// The closed, immutable result of a validated inventory: functions,
/// constants, patterns, and the reachability closure of every type they
/// mention. Built once by [`InventoryBuilder::build`]; never mutated.
pub struct Library {
    graph: TypeGraph,
    functions: Vec<Function>,
    constants: Vec<Constant>,
    extra_types: Vec<TypeId>,
    patterns: Vec<LibraryPattern>,
    closure: Vec<TypeId>,
    type_naming: NameCase,
}

impl Library {
    /// The interned type nodes.
    pub closed spec fn types(&self) -> Seq<CTypeV> {
        self.graph@
    }

    /// Everything the library holds.
    pub closed spec fn inv(&self) -> InventoryV {
        InventoryV {
            functions: functions_view(self.functions@),
            constants: constants_view(self.constants@),
            extra_types: self.extra_types@,
            patterns: patterns_view(self.patterns@),
        }
    }

    /// The reachability closure as a list of ids.
    pub closed spec fn closure_ids(&self) -> Seq<TypeId> {
        self.closure@
    }

    /// The naming configuration the library was validated under.
    pub closed spec fn naming(&self) -> NameCase {
        self.type_naming
    }

    /// What a built library guarantees: a well-formed graph, a valid
    /// inventory, and a closure that holds every reachable type exactly
    /// once, in ascending id order.
    pub open spec fn wf(&self) -> bool {
        &&& crate::lang::graph_wf(self.types())
        &&& crate::lang::graph_nodup(self.types())
        &&& crate::lang::graph_seeded(self.types())
        &&& inventory_ids_ok(self.types(), self.inv())
        &&& inventory_ok(self.types(), self.inv(), self.naming())
        &&& forall|a: int, b: int|
            0 <= a < b < self.closure_ids().len() ==> self.closure_ids()[a]
                < self.closure_ids()[b]
        &&& forall|a: int|
            0 <= a < self.closure_ids().len() ==> #[trigger] self.closure_ids()[a]
                < self.types().len()
        &&& forall|t: TypeId|
            #[trigger] self.closure_ids().contains(t) <==> root_reachable(
                self.types(),
                self.inv(),
                t,
            )
    }

    /// The type graph.
    pub fn graph(&self) -> (r: &TypeGraph)
        ensures
            r@ == self.types(),
    {
        &self.graph
    }

    /// The registered functions, in registration order.
    pub fn functions(&self) -> (r: &Vec<Function>)
        ensures
            functions_view(r@) == self.inv().functions,
    {
        &self.functions
    }

    /// The registered constants, in registration order.
    pub fn constants(&self) -> (r: &Vec<Constant>)
        ensures
            constants_view(r@) == self.inv().constants,
    {
        &self.constants
    }

    /// The registered library patterns, in registration order.
    pub fn patterns(&self) -> (r: &Vec<LibraryPattern>)
        ensures
            patterns_view(r@) == self.inv().patterns,
    {
        &self.patterns
    }

    /// The reachability closure, ascending by id.
    pub fn closure(&self) -> (r: &Vec<TypeId>)
        ensures
            r@ == self.closure_ids(),
    {
        &self.closure
    }

    /// The naming configuration for types.
    pub fn type_naming(&self) -> (r: NameCase)
        ensures
            r == self.naming(),
    {
        self.type_naming
    }
}

/// Every type transitively reachable from a registered function, constant
/// or pattern appears in the library's closure, and appears there exactly
/// once: the closure never holds two entries with the same id.
pub proof fn lemma_closure_exactly_once(lib: &Library, t: TypeId)
    requires
        lib.wf(),
        root_reachable(lib.types(), lib.inv(), t),
    ensures
        lib.closure_ids().contains(t),
        forall|a: int, b: int|
            0 <= a < b < lib.closure_ids().len() ==> lib.closure_ids()[a]
                != lib.closure_ids()[b],
{
}

/// Whenever two distinct reachable types would render to the same public
/// name under the naming configuration, the inventory is invalid: `build`
/// refuses it before any output can be generated, since only a built
/// [`Library`] can be handed to a generator.
pub proof fn lemma_collision_fails_validation(
    ts: Seq<CTypeV>,
    inv: InventoryV,
    naming: NameCase,
    t1: TypeId,
    t2: TypeId,
)
    requires
        t1 < ts.len(),
        t2 < ts.len(),
        root_reachable(ts, inv, t1),
        root_reachable(ts, inv, t2),
        t1 != t2,
        is_named_type(ts[t1 as int]),
        is_named_type(ts[t2 as int]),
        naming_style_of(ctype_name_v(ts[t1 as int]), naming) == naming_style_of(
            ctype_name_v(ts[t2 as int]),
            naming,
        ),
    ensures
        !inventory_ok(ts, inv, naming),
{
}

} // verus!
