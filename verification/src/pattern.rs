//! Library-level patterns: idioms that involve several functions and types
//! at once, chiefly the service pattern.

use vstd::prelude::*;
use crate::lang::CType;
use crate::lang::CTypeV;
use crate::lang::Function;
use crate::lang::FunctionV;
use crate::lang::TypeGraph;
use crate::lang::TypeId;
use crate::lang::TypePattern;
use crate::lang::TypePatternV;

verus! {

/// Model of a sequence of functions.
pub open spec fn functions_view(fs: Seq<Function>) -> Seq<FunctionV> {
    fs.map_values(|f: Function| f@)
}

/// Copies a function list, preserving its model.
pub fn clone_functions(v: &Vec<Function>) -> (r: Vec<Function>)
    ensures
        functions_view(r@) == functions_view(v@),
{
    let mut out: Vec<Function> = Vec::new();
    let n: usize = v.len();
    let mut i: usize = 0;
    while i < n
        invariant
            n == v.len(),
            i <= n,
            out@.len() == i,
            forall|k: int| 0 <= k < i ==> #[trigger] out@[k]@ == v@[k]@,
        decreases n - i,
    {
        out.push(v[i].clone());
        i = i + 1;
    }
    assert(functions_view(out@) =~= functions_view(v@));
    out
}

/// Walks a type through pointer indirections until it terminates at an
/// opaque type; `None` when it terminates anywhere else.
pub open spec fn extract_opaque_v(ts: Seq<CTypeV>, id: TypeId) -> Option<TypeId>
    decreases id,
{
    if id < ts.len() {
        match ts[id as int] {
            CTypeV::Opaque(_) => Some(id),
            CTypeV::ReadPointer(t) => if t < id {
                extract_opaque_v(ts, t)
            } else {
                None
            },
            CTypeV::ReadWritePointer(t) => if t < id {
                extract_opaque_v(ts, t)
            } else {
                None
            },
            _ => None,
        }
    } else {
        None
    }
}

/// Walks the type until it finds the first "obvious" opaque: one reached
/// only through pointer indirections, not inside the fields of a struct.
pub fn extract_obvious_opaque_from_parameter(g: &TypeGraph, id: TypeId) -> (r: Option<TypeId>)
    requires
        g.wf(),
        id < g@.len(),
    ensures
        r == extract_opaque_v(g@, id),
    decreases id,
{
    match g.get(id) {
        CType::Opaque(_) => Some(id),
        CType::ReadPointer(t) => {
            let t = *t;
            proof {
                assert(crate::lang::node_children(g@[id as int]) == seq![t]);
                assert(crate::lang::node_children(g@[id as int])[0] < id);
            }
            extract_obvious_opaque_from_parameter(g, t)
        },
        CType::ReadWritePointer(t) => {
            let t = *t;
            proof {
                assert(crate::lang::node_children(g@[id as int]) == seq![t]);
                assert(crate::lang::node_children(g@[id as int])[0] < id);
            }
            extract_obvious_opaque_from_parameter(g, t)
        },
        _ => None,
    }
}

/// Where the first parameter of a function terminates after pointer
/// indirections; `None` when there is no parameter, the parameter's id is
/// out of range, or the walk ends at a non-opaque type.
pub open spec fn first_param_opaque(ts: Seq<CTypeV>, f: FunctionV) -> Option<TypeId> {
    if f.signature.params.len() >= 1 && f.signature.params[0].ty < ts.len() {
        extract_opaque_v(ts, f.signature.params[0].ty)
    } else {
        None
    }
}

/// Whether a function returns an error enum.
pub open spec fn rval_is_success_enum(ts: Seq<CTypeV>, f: FunctionV) -> bool {
    &&& f.signature.rval < ts.len()
    &&& ts[f.signature.rval as int] matches CTypeV::Pattern(TypePatternV::SuccessEnum(_))
}

/// One structural violation of the service pattern; carries the name of the
/// offending function.
#[derive(Clone, Debug)]
pub enum ServiceIssue {
    /// The service has no constructor at all.
    NoConstructor,
    /// A constructor's first parameter does not terminate at the receiver.
    CtorReceiver { function: String },
    /// A constructor does not return an error enum.
    CtorReturn { function: String },
    /// The destructor's first parameter does not terminate at the receiver.
    DtorReceiver { function: String },
    /// The destructor does not return an error enum.
    DtorReturn { function: String },
    /// A method's first parameter does not terminate at the receiver.
    MethodReceiver { function: String },
}

/// Combines an opaque receiver, its constructors, one destructor and the
/// ordered methods into one entity, usually rendered as a class.
pub struct Service {
    the_type: TypeId,
    constructors: Vec<Function>,
    destructor: Function,
    methods: Vec<Function>,
}

/// Mathematical model of a [`Service`].
pub ghost struct ServiceV {
    pub the_type: TypeId,
    pub constructors: Seq<FunctionV>,
    pub destructor: FunctionV,
    pub methods: Seq<FunctionV>,
}

impl View for Service {
    type V = ServiceV;

    closed spec fn view(&self) -> ServiceV {
        ServiceV {
            the_type: self.the_type,
            constructors: functions_view(self.constructors@),
            destructor: self.destructor@,
            methods: functions_view(self.methods@),
        }
    }
}

/// The structural requirements of the service pattern: at least one
/// constructor; every constructor and the destructor walk to the receiver
/// and return an error enum; every method walks to the receiver.
pub open spec fn service_valid(ts: Seq<CTypeV>, s: ServiceV) -> bool {
    &&& s.constructors.len() >= 1
    &&& forall|i: int|
        0 <= i < s.constructors.len() ==> first_param_opaque(ts, #[trigger] s.constructors[i])
            == Some(s.the_type)
    &&& forall|i: int|
        0 <= i < s.constructors.len() ==> rval_is_success_enum(ts, #[trigger] s.constructors[i])
    &&& first_param_opaque(ts, s.destructor) == Some(s.the_type)
    &&& rval_is_success_enum(ts, s.destructor)
    &&& forall|i: int|
        0 <= i < s.methods.len() ==> first_param_opaque(ts, #[trigger] s.methods[i]) == Some(
            s.the_type,
        )
}

/// Whether one reported issue describes a real violation.
pub open spec fn service_issue_valid(ts: Seq<CTypeV>, s: ServiceV, issue: ServiceIssue) -> bool {
    match issue {
        ServiceIssue::NoConstructor => s.constructors.len() == 0,
        ServiceIssue::CtorReceiver { function } => exists|i: int|
            0 <= i < s.constructors.len() && #[trigger] s.constructors[i].name == function@
                && first_param_opaque(ts, s.constructors[i]) != Some(s.the_type),
        ServiceIssue::CtorReturn { function } => exists|i: int|
            0 <= i < s.constructors.len() && #[trigger] s.constructors[i].name == function@
                && !rval_is_success_enum(ts, s.constructors[i]),
        ServiceIssue::DtorReceiver { function } => s.destructor.name == function@
            && first_param_opaque(ts, s.destructor) != Some(s.the_type),
        ServiceIssue::DtorReturn { function } => s.destructor.name == function@
            && !rval_is_success_enum(ts, s.destructor),
        ServiceIssue::MethodReceiver { function } => exists|i: int|
            0 <= i < s.methods.len() && #[trigger] s.methods[i].name == function@
                && first_param_opaque(ts, s.methods[i]) != Some(s.the_type),
    }
}

impl Service {
    /// Derives the receiver from the first constructor's first parameter
    /// and bundles the service; `None` when that parameter does not walk to
    /// an opaque type.
    pub fn new(
        g: &TypeGraph,
        constructors: Vec<Function>,
        destructor: Function,
        methods: Vec<Function>,
    ) -> (r: Option<Service>)
        requires
            g.wf(),
        ensures
            match r {
                Some(s) => {
                    &&& constructors@.len() >= 1
                    &&& first_param_opaque(g@, constructors@[0]@) == Some(s@.the_type)
                    &&& s@.constructors == functions_view(constructors@)
                    &&& s@.destructor == destructor@
                    &&& s@.methods == functions_view(methods@)
                },
                None => constructors@.len() == 0 || first_param_opaque(g@, constructors@[0]@)
                    is None,
            },
    {
        if constructors.len() == 0 {
            return None;
        }
        let first = &constructors[0];
        if first.signature().params().len() == 0 {
            return None;
        }
        let ty: TypeId = first.signature().params()[0].ty;
        proof {
            assert(params_first_ty(first@) == ty) by {
                assert(crate::lang::params_view(first.signature.params@)[0]
                    == first.signature.params@[0]@);
            }
        }
        if ty >= g.len() {
            return None;
        }
        match extract_obvious_opaque_from_parameter(g, ty) {
            Some(the_type) => Some(Service { the_type, constructors, destructor, methods }),
            None => None,
        }
    }

    /// The opaque receiver type.
    pub fn the_type(&self) -> (r: TypeId)
        ensures
            r == self@.the_type,
    {
        self.the_type
    }

    /// The constructors.
    pub fn constructors(&self) -> (r: &Vec<Function>)
        ensures
            functions_view(r@) == self@.constructors,
    {
        &self.constructors
    }

    /// The destructor.
    pub fn destructor(&self) -> (r: &Function)
        ensures
            r@ == self@.destructor,
    {
        &self.destructor
    }

    /// The ordered methods.
    pub fn methods(&self) -> (r: &Vec<Function>)
        ensures
            functions_view(r@) == self@.methods,
    {
        &self.methods
    }

    /// Checks the service against the structural requirements of the
    /// pattern. All violations are collected; none stops the check. The
    /// result is empty exactly when the service is well-formed, and every
    /// reported issue names an offending function.
    pub fn assert_valid(&self, g: &TypeGraph) -> (issues: Vec<ServiceIssue>)
        requires
            g.wf(),
        ensures
            issues@.len() == 0 <==> service_valid(g@, self@),
            forall|k: int|
                0 <= k < issues@.len() ==> service_issue_valid(g@, self@, #[trigger] issues@[k]),
    {
        let mut issues: Vec<ServiceIssue> = Vec::new();
        if self.constructors.len() == 0 {
            issues.push(ServiceIssue::NoConstructor);
        }
        let n_ctors: usize = self.constructors.len();
        let mut i: usize = 0;
        while i < n_ctors
            invariant
                g.wf(),
                n_ctors == self.constructors@.len(),
                i <= n_ctors,
                forall|k: int|
                    0 <= k < issues@.len() ==> service_issue_valid(
                        g@,
                        self@,
                        #[trigger] issues@[k],
                    ),
                issues@.len() == 0 ==> self.constructors@.len() >= 1,
                issues@.len() == 0 ==> forall|k: int|
                    0 <= k < i ==> first_param_opaque(g@, #[trigger] self@.constructors[k])
                        == Some(self@.the_type) && rval_is_success_enum(
                        g@,
                        self@.constructors[k],
                    ),
            decreases n_ctors - i,
        {
            let f = &self.constructors[i];
            proof {
                assert(self@.constructors[i as int] == f@);
            }
            if !self.first_param_walks_to_receiver(g, f) {
                issues.push(ServiceIssue::CtorReceiver { function: f.name().clone() });
            }
            if !rval_success_enum(g, f) {
                issues.push(ServiceIssue::CtorReturn { function: f.name().clone() });
            }
            i = i + 1;
        }
        if !self.first_param_walks_to_receiver(g, &self.destructor) {
            issues.push(ServiceIssue::DtorReceiver { function: self.destructor.name().clone() });
        }
        if !rval_success_enum(g, &self.destructor) {
            issues.push(ServiceIssue::DtorReturn { function: self.destructor.name().clone() });
        }
        let n_methods: usize = self.methods.len();
        let mut j: usize = 0;
        while j < n_methods
            invariant
                g.wf(),
                n_methods == self.methods@.len(),
                j <= n_methods,
                forall|k: int|
                    0 <= k < issues@.len() ==> service_issue_valid(
                        g@,
                        self@,
                        #[trigger] issues@[k],
                    ),
                issues@.len() == 0 ==> self.constructors@.len() >= 1 && (forall|k: int|
                    0 <= k < self@.constructors.len() ==> first_param_opaque(
                        g@,
                        #[trigger] self@.constructors[k],
                    ) == Some(self@.the_type) && rval_is_success_enum(
                        g@,
                        self@.constructors[k],
                    )) && first_param_opaque(g@, self@.destructor) == Some(self@.the_type)
                    && rval_is_success_enum(g@, self@.destructor),
                issues@.len() == 0 ==> forall|k: int|
                    0 <= k < j ==> first_param_opaque(g@, #[trigger] self@.methods[k]) == Some(
                        self@.the_type,
                    ),
            decreases n_methods - j,
        {
            let f = &self.methods[j];
            proof {
                assert(self@.methods[j as int] == f@);
            }
            if !self.first_param_walks_to_receiver(g, f) {
                issues.push(ServiceIssue::MethodReceiver { function: f.name().clone() });
            }
            j = j + 1;
        }
        proof {
            if issues@.len() != 0 {
                let issue = issues@[0];
                assert(service_issue_valid(g@, self@, issue));
                match issue {
                    ServiceIssue::NoConstructor => {
                        assert(!service_valid(g@, self@));
                    },
                    ServiceIssue::CtorReceiver { function } => {
                        let i = choose|i: int|
                            0 <= i < self@.constructors.len()
                                && #[trigger] self@.constructors[i].name == function@
                                && first_param_opaque(g@, self@.constructors[i]) != Some(
                                self@.the_type,
                            );
                        assert(!service_valid(g@, self@));
                    },
                    ServiceIssue::CtorReturn { function } => {
                        let i = choose|i: int|
                            0 <= i < self@.constructors.len()
                                && #[trigger] self@.constructors[i].name == function@
                                && !rval_is_success_enum(g@, self@.constructors[i]);
                        assert(!service_valid(g@, self@));
                    },
                    ServiceIssue::DtorReceiver { function } => {
                        assert(!service_valid(g@, self@));
                    },
                    ServiceIssue::DtorReturn { function } => {
                        assert(!service_valid(g@, self@));
                    },
                    ServiceIssue::MethodReceiver { function } => {
                        let i = choose|i: int|
                            0 <= i < self@.methods.len() && #[trigger] self@.methods[i].name
                                == function@ && first_param_opaque(g@, self@.methods[i]) != Some(
                                self@.the_type,
                            );
                        assert(!service_valid(g@, self@));
                    },
                }
            }
        }
        issues
    }

    /// Whether a function's first parameter walks to this service's
    /// receiver.
    fn first_param_walks_to_receiver(&self, g: &TypeGraph, f: &Function) -> (r: bool)
        requires
            g.wf(),
        ensures
            r == (first_param_opaque(g@, f@) == Some(self@.the_type)),
    {
        if f.signature().params().len() == 0 {
            return false;
        }
        let ty: TypeId = f.signature().params()[0].ty;
        proof {
            assert(crate::lang::params_view(f.signature.params@)[0] == f.signature.params@[0]@);
        }
        if ty >= g.len() {
            return false;
        }
        match extract_obvious_opaque_from_parameter(g, ty) {
            Some(id) => id == self.the_type,
            None => false,
        }
    }
}

/// First parameter's type id, as a spec convenience.
pub open spec fn params_first_ty(f: FunctionV) -> TypeId {
    f.signature.params[0].ty
}

/// Whether a function returns an error enum, decided against the graph.
pub fn rval_success_enum(g: &TypeGraph, f: &Function) -> (r: bool)
    ensures
        r == rval_is_success_enum(g@, f@),
{
    let rv: TypeId = f.signature().rval();
    if rv >= g.len() {
        return false;
    }
    match g.get(rv) {
        CType::Pattern(TypePattern::SuccessEnum(_)) => true,
        _ => false,
    }
}

/// Helper functions every backend may assume exist in the bound library,
/// such as the owned-string creation and destruction calls.
pub struct Builtins {
    pub functions: Vec<Function>,
}

impl Builtins {
    /// Bundles the builtin helper functions.
    pub fn new(functions: Vec<Function>) -> (r: Builtins)
        ensures
            functions_view(r.functions@) == functions_view(functions@),
    {
        Self { functions }
    }

    /// The helper functions.
    pub fn functions(&self) -> (r: &Vec<Function>)
        ensures
            functions_view(r@) == self@.functions,
    {
        &self.functions
    }
}

/// A pattern on the library level, usually involving both functions and
/// types.
pub enum LibraryPattern {
    /// A service: receiver, constructors, destructor, methods.
    Service(Service),
    /// The builtin helper functions.
    Builtins(Builtins),
}

/// Error enums usable as the common return channel of generated bindings:
/// they reserve a success, a null and a panic value.
pub trait Success: Sized {
    /// The reserved success value, as a spec-level constant.
    spec fn spec_success() -> Self;

    /// The reserved null value, as a spec-level constant.
    spec fn spec_null() -> Self;

    /// The reserved panic value, as a spec-level constant.
    spec fn spec_panic() -> Self;

    /// The three reserved values are pairwise distinct, so the success
    /// value can never be confused with the null or panic signal.
    proof fn reserved_codes_distinct()
        ensures
            Self::spec_success() != Self::spec_null(),
            Self::spec_success() != Self::spec_panic(),
            Self::spec_null() != Self::spec_panic(),
    ;

    /// The value that signals success.
    fn success_value() -> (r: Self)
        ensures
            r == Self::spec_success(),
    ;

    /// The value that signals a null argument.
    fn null_value() -> (r: Self)
        ensures
            r == Self::spec_null(),
    ;

    /// The value that signals a caught panic.
    fn panic_value() -> (r: Self)
        ensures
            r == Self::spec_panic(),
    ;
}

/// What a generated service method returns when the underlying call cannot
/// be made or fails: the type's documented default.
pub trait FailureDefault: Sized {
    /// The documented default, as a spec-level constant.
    spec fn spec_failure_default() -> Self;

    /// The documented default value.
    fn failure_default() -> (r: Self)
        ensures
            r == Self::spec_failure_default(),
    ;
}

impl FailureDefault for u8 {
    open spec fn spec_failure_default() -> u8 {
        0
    }

    fn failure_default() -> u8 {
        0
    }
}

impl FailureDefault for u16 {
    open spec fn spec_failure_default() -> u16 {
        0
    }

    fn failure_default() -> u16 {
        0
    }
}

impl FailureDefault for u32 {
    open spec fn spec_failure_default() -> u32 {
        0
    }

    fn failure_default() -> u32 {
        0
    }
}

impl FailureDefault for u64 {
    open spec fn spec_failure_default() -> u64 {
        0
    }

    fn failure_default() -> u64 {
        0
    }
}

impl FailureDefault for i8 {
    open spec fn spec_failure_default() -> i8 {
        0
    }

    fn failure_default() -> i8 {
        0
    }
}

impl FailureDefault for i16 {
    open spec fn spec_failure_default() -> i16 {
        0
    }

    fn failure_default() -> i16 {
        0
    }
}

impl FailureDefault for i32 {
    open spec fn spec_failure_default() -> i32 {
        0
    }

    fn failure_default() -> i32 {
        0
    }
}

impl FailureDefault for i64 {
    open spec fn spec_failure_default() -> i64 {
        0
    }

    fn failure_default() -> i64 {
        0
    }
}

impl FailureDefault for () {
    open spec fn spec_failure_default() -> () {
        ()
    }

    fn failure_default() -> () {
        ()
    }
}

} // verus!

verus! {

/// Mathematical model of [`Builtins`].
pub ghost struct BuiltinsV {
    pub functions: Seq<FunctionV>,
}

impl View for Builtins {
    type V = BuiltinsV;

    open spec fn view(&self) -> BuiltinsV {
        BuiltinsV { functions: functions_view(self.functions@) }
    }
}

/// Mathematical model of a [`LibraryPattern`].
pub ghost enum LibraryPatternV {
    Service(ServiceV),
    Builtins(BuiltinsV),
}

impl View for LibraryPattern {
    type V = LibraryPatternV;

    open spec fn view(&self) -> LibraryPatternV {
        match self {
            LibraryPattern::Service(s) => LibraryPatternV::Service(s@),
            LibraryPattern::Builtins(b) => LibraryPatternV::Builtins(b@),
        }
    }
}

/// Model of a sequence of library patterns.
pub open spec fn patterns_view(ps: Seq<LibraryPattern>) -> Seq<LibraryPatternV> {
    ps.map_values(|p: LibraryPattern| p@)
}

} // verus!
