//! The Python backend's callback helpers: one `ctypes` function type per
//! reachable callback shape, collected in one helper class.

use vstd::prelude::*;
use crate::lang::CType;
use crate::lang::CTypeV;
use crate::lang::ParameterV;
use crate::lang::Primitive;
use crate::lang::TypeGraph;
use crate::lang::TypeId;
use crate::lang::TypePattern;
use crate::lang::TypePatternV;

verus! {

/// The `ctypes` spelling of a primitive.
pub open spec fn py_primitive_text(p: Primitive) -> Seq<char> {
    match p {
        Primitive::Void => "None"@,
        Primitive::Bool => "ctypes.c_bool"@,
        Primitive::U8 => "ctypes.c_uint8"@,
        Primitive::U16 => "ctypes.c_uint16"@,
        Primitive::U32 => "ctypes.c_uint32"@,
        Primitive::U64 => "ctypes.c_uint64"@,
        Primitive::I8 => "ctypes.c_int8"@,
        Primitive::I16 => "ctypes.c_int16"@,
        Primitive::I32 => "ctypes.c_int32"@,
        Primitive::I64 => "ctypes.c_int64"@,
    }
}

/// The `ctypes` spelling of a type: primitives by their `ctypes` name,
/// everything else as a void pointer.
pub open spec fn py_type_text(ts: Seq<CTypeV>, id: TypeId) -> Seq<char> {
    if id < ts.len() {
        match ts[id as int] {
            CTypeV::Primitive(p) => py_primitive_text(p),
            _ => "ctypes.c_void_p"@,
        }
    } else {
        "ctypes.c_void_p"@
    }
}

/// Renders the `ctypes` spelling of a type.
fn write_py_type(g: &TypeGraph, id: TypeId) -> (r: String)
    requires
        g.wf(),
    ensures
        r@ == py_type_text(g@, id),
{
    if id >= g.len() {
        return String::from_str("ctypes.c_void_p");
    }
    match g.get(id) {
        CType::Primitive(p) => match p {
            Primitive::Void => String::from_str("None"),
            Primitive::Bool => String::from_str("ctypes.c_bool"),
            Primitive::U8 => String::from_str("ctypes.c_uint8"),
            Primitive::U16 => String::from_str("ctypes.c_uint16"),
            Primitive::U32 => String::from_str("ctypes.c_uint32"),
            Primitive::U64 => String::from_str("ctypes.c_uint64"),
            Primitive::I8 => String::from_str("ctypes.c_int8"),
            Primitive::I16 => String::from_str("ctypes.c_int16"),
            Primitive::I32 => String::from_str("ctypes.c_int32"),
            Primitive::I64 => String::from_str("ctypes.c_int64"),
        },
        _ => String::from_str("ctypes.c_void_p"),
    }
}

/// The `, type` list of a callback's parameters.
pub open spec fn py_params_text(ts: Seq<CTypeV>, params: Seq<ParameterV>) -> Seq<char>
    decreases params.len(),
{
    if params.len() == 0 {
        Seq::empty()
    } else {
        py_params_text(ts, params.drop_last()) + ", "@ + py_type_text(ts, params.last().ty)
    }
}

/// One helper line for a named callback shape.
pub open spec fn callback_helper_line(ts: Seq<CTypeV>, nc: crate::lang::NamedCallbackV) -> Seq<
    char,
> {
    "    "@ + nc.name + " = ctypes.CFUNCTYPE("@ + py_type_text(ts, nc.fnpointer.signature.rval)
        + py_params_text(ts, nc.fnpointer.signature.params) + ")\n"@
}

/// What one reachable type contributes to the helper class.
pub open spec fn callback_helper_of(ts: Seq<CTypeV>, id: TypeId) -> Seq<char> {
    match ts[id as int] {
        CTypeV::Pattern(TypePatternV::NamedCallback(nc)) => callback_helper_line(ts, nc),
        _ => Seq::empty(),
    }
}

/// All helper lines, ascending by id.
pub open spec fn callback_helpers_text(ts: Seq<CTypeV>, closure: Seq<TypeId>) -> Seq<char>
    decreases closure.len(),
{
    if closure.len() == 0 {
        Seq::empty()
    } else {
        callback_helpers_text(ts, closure.drop_last()) + callback_helper_of(ts, closure.last())
    }
}

/// Writes the helper class that defines one `ctypes` function type per
/// reachable named callback.
pub fn write_callback_helpers(g: &TypeGraph, closure: &Vec<TypeId>) -> (r: String)
    requires
        g.wf(),
        forall|k: int| 0 <= k < closure@.len() ==> #[trigger] closure@[k] < g@.len(),
    ensures
        r@ == "class callbacks:\n    \"\"\"Helpers to define callbacks.\"\"\"\n"@
            + callback_helpers_text(g@, closure@),
{
    let mut out = String::from_str("class callbacks:\n    \"\"\"Helpers to define callbacks.\"\"\"\n");
    let ghost head = out@;
    let n: usize = closure.len();
    let mut i: usize = 0;
    while i < n
        invariant
            g.wf(),
            n == closure@.len(),
            forall|k: int| 0 <= k < closure@.len() ==> #[trigger] closure@[k] < g@.len(),
            i <= n,
            out@ == head + callback_helpers_text(g@, closure@.take(i as int)),
        decreases n - i,
    {
        let id: TypeId = closure[i];
        match g.get(id) {
            CType::Pattern(TypePattern::NamedCallback(nc)) => {
                out.append("    ");
                out.append(nc.name.as_str());
                out.append(" = ctypes.CFUNCTYPE(");
                let rvt = write_py_type(g, nc.fnpointer.signature.rval);
                out.append(rvt.as_str());
                let params = &nc.fnpointer.signature.params;
                let m: usize = params.len();
                let ghost sofar = out@;
                let mut j: usize = 0;
                while j < m
                    invariant
                        g.wf(),
                        m == params@.len(),
                        j <= m,
                        out@ == sofar + py_params_text(
                            g@,
                            crate::lang::params_view(params@).take(j as int),
                        ),
                    decreases m - j,
                {
                    proof {
                        assert(crate::lang::params_view(params@)[j as int] == params@[j as int]@);
                    }
                    out.append(", ");
                    let pt = write_py_type(g, params[j].ty);
                    out.append(pt.as_str());
                    proof {
                        let pv = crate::lang::params_view(params@);
                        assert(pv.take(j as int + 1).drop_last() =~= pv.take(j as int));
                        assert(pv.take(j as int + 1).last() == pv[j as int]);
                    }
                    j = j + 1;
                }
                proof {
                    let pv = crate::lang::params_view(params@);
                    assert(pv.take(m as int) =~= pv);
                }
                out.append(")\n");
            },
            _ => {},
        }
        proof {
            assert(closure@.take(i as int + 1).drop_last() =~= closure@.take(i as int));
            assert(closure@.take(i as int + 1).last() == closure@[i as int]);
        }
        i = i + 1;
    }
    proof {
        assert(closure@.take(n as int) =~= closure@);
    }
    out
}

} // verus!
