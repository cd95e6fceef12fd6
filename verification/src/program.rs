//! A compiled program: an expression that has been checked against what is
//! known of the events it will run on.

use crate::expression::{Context, Expr, ExpressionError};
use crate::type_def::{TypeDef, TypeState};
use crate::value::Value;
use vstd::prelude::*;

verus! {

/// An expression together with the facts it was checked against. Only a
/// well-typed expression becomes a program, and a program never changes.
pub struct Program {
    node: Expr,
    state: TypeState,
}

impl Program {
    #[verifier::type_invariant]
    spec fn checked(self) -> bool {
        self.node.well_typed(self.state)
    }

    /// The expression that the program runs.
    pub closed spec fn node(self) -> Expr {
        self.node
    }

    /// What the program was told of the events.
    pub closed spec fn state(self) -> TypeState {
        self.state
    }

    /// Makes a program of `node` if it is well typed under `state`, and
    /// refuses it otherwise.
    pub fn new(node: Expr, state: TypeState) -> (r: Option<Program>)
        ensures
            r is Some <==> node.well_typed(state),
            r matches Some(p) ==> p.node() == node && p.state() == state,
    {
        if node.is_well_typed(&state) {
            Some(Program { node, state })
        } else {
            None
        }
    }

    /// What the program is known to yield.
    pub fn type_def(&self) -> (r: TypeDef)
        ensures
            r == self.node().type_def_of(self.state()),
    {
        self.node.type_def(&self.state)
    }

    /// Runs the program on the event in `ctx`, which it leaves as it was.
    /// On an event of a kind that the program was told to expect, the
    /// result keeps what [`Program::type_def`] declares.
    pub fn run(&self, ctx: &mut Context) -> (r: Result<Value, ExpressionError>)
        ensures
            *final(ctx) == *old(ctx),
            Expr::agrees(r, self.node().outcome(old(ctx).target@)),
            old(ctx).fits(self.state()) ==> Expr::keeps(
                r,
                self.node().type_def_of(self.state()),
            ),
    {
        proof {
            use_type_invariant(self);
        }
        self.node.resolve(ctx)
    }
}

} // verus!
