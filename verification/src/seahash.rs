//! The content-hash operation: the SeaHash of a byte string, read as a
//! signed 64-bit integer.

use crate::expression::{Context, Expr, ExpressionError, FunctionExpression};
use crate::function::{
    ArgumentList, CompileError, Example, Function, FunctionCompileContext, Parameter,
};
use crate::kind::{Kind, ValueKind};
use crate::named::NamedComponent;
use crate::type_def::{TypeDef, TypeState};
use crate::value::{Value, ValueError, ValueModel};
use vstd::prelude::*;

verus! {

/// The hash that the `seahash` crate's `hash` gives to a buffer. It depends
/// on the bytes alone: the seed is fixed in that crate.
pub uninterp spec fn seahash_of(bytes: Seq<u8>) -> u64;

/// Calls `seahash::hash` on the buffer. The claim is only that the result
/// is that function's value on these bytes.
#[verifier::external_body]
fn hash_bytes(buf: &[u8]) -> (h: u64)
    ensures
        h == seahash_of(buf@),
{
    ::seahash::hash(buf)
}

/// The number that the 64 bits of `h` stand for in two's complement.
pub open spec fn signed_of(h: u64) -> int {
    if h <= 0x7FFF_FFFF_FFFF_FFFF {
        h as int
    } else {
        h - 0x1_0000_0000_0000_0000
    }
}

/// Reads an unsigned hash as a signed integer of the same bits. A hash above
/// the largest signed integer wraps into the negative numbers.
pub fn hash_value(h: u64) -> (v: Value)
    ensures
        v@ matches ValueModel::Integer(i) && i == signed_of(h),
{
    if h <= 0x7FFF_FFFF_FFFF_FFFF {
        Value::Integer(h as i64)
    } else {
        let below: u64 = u64::MAX - h;
        let i: i64 = -(below as i64) - 1;
        Value::Integer(i)
    }
}

/// What hashing the value `v` yields: an integer for bytes, and for a value
/// of any other kind the conversion error.
pub open spec fn hashed(v: ValueModel) -> Result<ValueModel, ExpressionError> {
    match v {
        ValueModel::Bytes(b) => Ok(ValueModel::Integer(signed_of(seahash_of(b)) as i64)),
        other => Err(
            ExpressionError::Conversion(ValueError::mismatch(ValueKind::Bytes, other.kind())),
        ),
    }
}

/// Hashes a value that has already been resolved.
pub fn seahash(value: Value) -> (r: Result<Value, ExpressionError>)
    ensures
        Expr::agrees(r, hashed(value@)),
{
    match value.try_bytes() {
        Ok(bytes) => Ok(hash_value(hash_bytes(bytes.as_slice()))),
        Err(e) => Err(ExpressionError::Conversion(e)),
    }
}

/// The definition of the operation, as the registry holds it.
#[derive(Clone, Copy, Debug, PartialEq, Eq)]
pub struct Seahash;

/// The compiled operation: it owns the expression whose bytes it hashes.
#[derive(Debug, PartialEq, Eq)]
pub struct SeahashFn {
    pub value: Box<Expr>,
}

impl NamedComponent for Seahash {
    const NAME: &'static str = "seahash";
}

impl Seahash {
    /// Whether a call with these arguments compiles: the argument `value`
    /// is there and can only be bytes.
    pub open spec fn accepts(state: TypeState, arguments: ArgumentList) -> bool {
        arguments.get("value"@) matches Some(a) && a.type_def_of(state).kind@.subset_of(
            set![ValueKind::Bytes],
        )
    }

    /// The node that a call with these arguments compiles to.
    pub open spec fn node(arguments: ArgumentList) -> Expr {
        Expr::Seahash(SeahashFn { value: Box::new(arguments.get("value"@)->Some_0) })
    }

    /// Whether `e` is the error that a call with these arguments is
    /// refused with: `value` is missing, or it may be of another kind than
    /// bytes.
    pub open spec fn refuses_with(
        state: TypeState,
        arguments: ArgumentList,
        e: CompileError,
    ) -> bool {
        match e {
            CompileError::MissingArgument { keyword } => {
                &&& keyword@ == "value"@
                &&& arguments.get("value"@) is None
            },
            CompileError::KindMismatch { keyword, expected, got } => {
                &&& keyword@ == "value"@
                &&& expected@ == set![ValueKind::Bytes]
                &&& arguments.get("value"@) is Some
                &&& got == arguments.get("value"@)->Some_0.type_def_of(state).kind
                &&& !got@.subset_of(expected@)
            },
            CompileError::UnknownFunction { .. } => false,
        }
    }
}

impl Function for Seahash {
    open spec fn parameter_list(&self) -> Seq<Parameter> {
        seq![Parameter { keyword: "value", kind: Kind { bits: 0x001 }, required: true }]
    }

    fn identifier(&self) -> (r: &'static str)
        ensures
            r@ == "seahash"@,
    {
        self.get_component_name()
    }

    /// Two documented uses: a hash that fits a signed integer, and one
    /// that wraps into the negative numbers.
    fn examples(&self) -> (r: Vec<Example>)
        ensures
            r@.len() == 2,
            r@[0].title@ == "seahash"@,
            r@[0].source@ == "seahash(\"foobar\")"@,
            r@[0].result matches Ok(text) && text@ == "5348458858952426560"@,
            r@[1].title@ == "seahash above i64.MAX"@,
            r@[1].source@ == "seahash(\"bar\")"@,
            r@[1].result matches Ok(text) && text@ == "-2796170501982571315"@,
    {
        vec![
            Example {
                title: "seahash",
                source: "seahash(\"foobar\")",
                result: Ok("5348458858952426560"),
            },
            Example {
                title: "seahash above i64.MAX",
                source: "seahash(\"bar\")",
                result: Ok("-2796170501982571315"),
            },
        ]
    }

    /// One parameter: `value`, required, of bytes.
    fn parameters(&self) -> (r: Vec<Parameter>)
        ensures
            r@.len() == 1,
            r@[0].keyword@ == "value"@,
            r@[0].kind@ == set![ValueKind::Bytes],
            r@[0].required,
    {
        let r = vec![Parameter { keyword: "value", kind: Kind::bytes(), required: true }];
        assert(r@ =~= self.parameter_list());
        r
    }

    /// Compiles a call. It succeeds exactly on the arguments that
    /// [`Seahash::accepts`]; a missing or ill-kinded `value` is refused here
    /// and never reaches resolution.
    fn compile(
        &self,
        state: &TypeState,
        ctx: &mut FunctionCompileContext,
        arguments: ArgumentList,
    ) -> (r: Result<Expr, CompileError>)
        ensures
            r is Ok <==> Seahash::accepts(*state, arguments),
            match r {
                Ok(node) => node == Seahash::node(arguments),
                Err(e) => Seahash::refuses_with(*state, arguments, e),
            },
    {
        let parameters = self.parameters();
        match arguments.check(&parameters, state) {
            Err(e) => {
                proof {
                    assert(Parameter::fault(parameters@[0], *state, arguments) == Some(e));
                }
                Err(e)
            },
            Ok(()) => {
                proof {
                    assert(Parameter::fault(parameters@[0], *state, arguments) is None);
                }
                let value = arguments.required("value");
                Ok(Expr::Seahash(SeahashFn { value: Box::new(value) }))
            },
        }
    }
}

impl FunctionExpression for SeahashFn {
    /// Resolves the argument, then hashes what it yielded.
    fn resolve(&self, ctx: &mut Context) -> (r: Result<Value, ExpressionError>)
        ensures
            *final(ctx) == *old(ctx),
            Expr::agrees(r, Expr::Seahash(*self).outcome(old(ctx).target@)),
        decreases self,
    {
        match self.value.resolve(ctx) {
            Ok(value) => seahash(value),
            Err(e) => Err(e),
        }
    }

    /// An integer; it can fail only where resolving the argument can.
    fn type_def(&self, state: &TypeState) -> (r: TypeDef)
        ensures
            r == Expr::Seahash(*self).type_def_of(*state),
        decreases self,
    {
        TypeDef::integer().after(self.value.type_def(state))
    }
}

} // verus!
