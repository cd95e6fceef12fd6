//! Compiled expressions: what they are known to yield, and how they resolve.

use crate::kind::{Kind, ValueKind};
use crate::seahash::{hashed, SeahashFn};
use crate::type_def::{TypeDef, TypeState};
use crate::value::{Value, ValueError, ValueModel};
use vstd::prelude::*;

verus! {

/// The state of one resolution: the event that the program runs on.
#[derive(Debug, PartialEq, Eq)]
pub struct Context {
    pub target: Value,
}

/// Why resolving an expression failed.
#[derive(Clone, Copy, Debug, PartialEq, Eq, Structural)]
pub enum ExpressionError {
    /// A value was not of the kind that an operation works on.
    Conversion(ValueError),
}

/// A compiled expression. Each node owns the expressions below it.
#[derive(Debug, PartialEq, Eq)]
pub enum Expr {
    /// A constant.
    Literal(Value),
    /// The event that the program runs on.
    Target,
    /// The content hash of what the expression below yields.
    Seahash(SeahashFn),
}

/// A compiled operation, as the tree that holds it sees it.
pub trait FunctionExpression {
    /// Resolves the operation on the event in `ctx`, which it leaves as it
    /// was.
    fn resolve(&self, ctx: &mut Context) -> (r: Result<Value, ExpressionError>)
        ensures
            *final(ctx) == *old(ctx),
    ;

    /// What the operation is known to yield.
    fn type_def(&self, state: &TypeState) -> TypeDef;
}

impl Context {
    pub fn new(target: Value) -> (r: Context)
        ensures
            r.target == target,
    {
        Context { target }
    }

    /// Whether the event is of a kind that compilation was told to expect.
    pub open spec fn fits(self, state: TypeState) -> bool {
        state.target@.contains(self.target@.kind())
    }
}

impl Expr {
    /// What the expression is known to yield, given what is known of the
    /// event.
    pub open spec fn type_def_of(self, state: TypeState) -> TypeDef
        decreases self,
    {
        match self {
            Expr::Literal(v) => TypeDef::exactly(v@.kind()),
            Expr::Target => TypeDef { kind: state.target, fallible: false },
            Expr::Seahash(f) => TypeDef {
                kind: Kind { bits: ValueKind::Integer.mask() },
                fallible: f.value.type_def_of(state).fallible,
            },
        }
    }

    /// Whether every operation in the expression is given arguments of the
    /// kinds it accepts: what compilation checks.
    pub open spec fn well_typed(self, state: TypeState) -> bool
        decreases self,
    {
        match self {
            Expr::Literal(_) => true,
            Expr::Target => true,
            Expr::Seahash(f) => f.value.well_typed(state) && f.value.type_def_of(
                state,
            ).kind@.subset_of(set![ValueKind::Bytes]),
        }
    }

    /// What the expression resolves to on the event `target`. Arguments are
    /// resolved first, in order, and the first failure is the result.
    pub open spec fn outcome(self, target: ValueModel) -> Result<ValueModel, ExpressionError>
        decreases self,
    {
        match self {
            Expr::Literal(v) => Ok(v@),
            Expr::Target => Ok(target),
            Expr::Seahash(f) => match f.value.outcome(target) {
                Ok(v) => hashed(v),
                Err(e) => Err(e),
            },
        }
    }

    /// Whether the result `r` of a resolution is the outcome `m`.
    pub open spec fn agrees(
        r: Result<Value, ExpressionError>,
        m: Result<ValueModel, ExpressionError>,
    ) -> bool {
        match (r, m) {
            (Ok(v), Ok(w)) => v@ == w,
            (Err(e), Err(f)) => e == f,
            _ => false,
        }
    }

    pub fn type_def(&self, state: &TypeState) -> (r: TypeDef)
        ensures
            r == self.type_def_of(*state),
        decreases self,
    {
        match self {
            Expr::Literal(v) => TypeDef::new(Kind::of(v.kind())),
            Expr::Target => TypeDef::new(state.target),
            Expr::Seahash(f) => f.type_def(state),
        }
    }

    /// Decides whether the expression is well typed.
    pub fn is_well_typed(&self, state: &TypeState) -> (r: bool)
        ensures
            r == self.well_typed(*state),
        decreases self,
    {
        match self {
            Expr::Literal(_) => true,
            Expr::Target => true,
            Expr::Seahash(f) => f.value.is_well_typed(state) && f.value.type_def(
                state,
            ).kind.is_subset(Kind::bytes()),
        }
    }

    /// Whether the result `r` keeps what the type definition `t` declares:
    /// a value is of one of its kinds, and an error comes only where it is
    /// fallible.
    pub open spec fn keeps(r: Result<Value, ExpressionError>, t: TypeDef) -> bool {
        match r {
            Ok(v) => t.kind@.contains(v@.kind()),
            Err(_) => t.fallible,
        }
    }

    /// Resolves the expression on the event in `ctx`, which it leaves as it
    /// was. The result is the expression's outcome on that event. Where the
    /// expression is well typed and the event of a kind that compilation
    /// expected, the result keeps what the type definition declares.
    pub fn resolve(&self, ctx: &mut Context) -> (r: Result<Value, ExpressionError>)
        ensures
            *final(ctx) == *old(ctx),
            Expr::agrees(r, self.outcome(old(ctx).target@)),
            forall|state: TypeState|
                self.well_typed(state) && old(ctx).fits(state) ==> Expr::keeps(
                    r,
                    #[trigger] self.type_def_of(state),
                ),
        decreases self,
    {
        proof {
            assert forall|state: TypeState|
                self.well_typed(state) && old(ctx).fits(state) implies match self.outcome(
                old(ctx).target@,
            ) {
                Ok(v) => (#[trigger] self.type_def_of(state)).kind@.contains(v.kind()),
                Err(_) => self.type_def_of(state).fallible,
            } by {
                self.lemma_resolution_is_sound(state, old(ctx).target@);
            }
        }
        match self {
            Expr::Literal(v) => Ok(v.clone()),
            Expr::Target => Ok(ctx.target.clone()),
            Expr::Seahash(f) => f.resolve(ctx),
        }
    }

    /// Soundness: a well-typed expression, resolved on an event of a kind
    /// that compilation expected, yields a value of one of the kinds that
    /// its type definition declares, and an error only if that definition
    /// is fallible.
    pub proof fn lemma_resolution_is_sound(self, state: TypeState, target: ValueModel)
        requires
            self.well_typed(state),
            state.target@.contains(target.kind()),
        ensures
            match self.outcome(target) {
                Ok(v) => self.type_def_of(state).kind@.contains(v.kind()),
                Err(_) => self.type_def_of(state).fallible,
            },
        decreases self,
    {
        match self {
            Expr::Literal(v) => {
                Kind::lemma_mask_is_singleton(v@.kind());
            },
            Expr::Target => {},
            Expr::Seahash(f) => {
                f.value.lemma_resolution_is_sound(state, target);
                Kind::lemma_mask_is_singleton(ValueKind::Integer);
            },
        }
    }

    /// Determinism: two resolutions of one expression on one event end
    /// alike, in the same value or in the same error.
    pub proof fn lemma_resolution_is_deterministic(
        self,
        target: ValueModel,
        first: Result<Value, ExpressionError>,
        second: Result<Value, ExpressionError>,
    )
        requires
            Expr::agrees(first, self.outcome(target)),
            Expr::agrees(second, self.outcome(target)),
        ensures
            match (first, second) {
                (Ok(v), Ok(w)) => v@ == w@,
                (Err(e), Err(f)) => e == f,
                _ => false,
            },
    {
    }
}

} // verus!
