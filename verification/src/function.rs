//! What every operation of the language offers to the compiler: a name, its
//! parameters, examples of its use, and a way to compile a call.

use crate::expression::Expr;
use crate::kind::Kind;
use crate::seahash::Seahash;
use crate::type_def::TypeState;
use vstd::prelude::*;

verus! {

/// One argument slot of an operation.
#[derive(Clone, Copy, Debug, PartialEq, Eq)]
pub struct Parameter {
    pub keyword: &'static str,
    /// The kinds of value that the argument may be of.
    pub kind: Kind,
    pub required: bool,
}

/// A documented use of an operation: a program and what it yields, rendered
/// as text, or the error it ends in.
#[derive(Clone, Copy, Debug, PartialEq, Eq)]
pub struct Example {
    pub title: &'static str,
    pub source: &'static str,
    pub result: Result<&'static str, &'static str>,
}

/// Where in the program the call stands that is being compiled.
#[derive(Clone, Copy, Debug, PartialEq, Eq, Structural)]
pub struct FunctionCompileContext {
    pub start: usize,
    pub end: usize,
}

/// Why a program was refused.
#[derive(Debug, PartialEq, Eq)]
pub enum CompileError {
    /// No operation has this name.
    UnknownFunction { identifier: String },
    /// A required argument was not given.
    MissingArgument { keyword: &'static str },
    /// An argument may be of a kind that its parameter does not accept.
    KindMismatch { keyword: &'static str, expected: Kind, got: Kind },
}

/// A refusal, with the place in the program of the call that caused it.
#[derive(Debug, PartialEq, Eq)]
pub struct Diagnostic {
    pub error: CompileError,
    pub start: usize,
    pub end: usize,
}

/// An expression given under a keyword.
#[derive(Debug, PartialEq, Eq)]
pub struct Argument {
    pub keyword: String,
    pub expr: Expr,
}

/// The arguments of one call. Where a keyword is given twice, the first
/// counts.
#[derive(Debug, PartialEq, Eq)]
pub struct ArgumentList {
    pub arguments: Vec<Argument>,
}

impl ArgumentList {
    /// Whether `i` is the first place at which `keyword` is given.
    pub open spec fn is_first(self, i: int, keyword: Seq<char>) -> bool {
        &&& 0 <= i < self.arguments@.len()
        &&& self.arguments@[i].keyword@ == keyword
        &&& forall|j: int| 0 <= j < i ==> self.arguments@[j].keyword@ != keyword
    }

    /// The expression given under `keyword`, if there is one.
    pub open spec fn get(self, keyword: Seq<char>) -> Option<Expr> {
        if exists|i: int| self.is_first(i, keyword) {
            Some(self.arguments@[choose|i: int| self.is_first(i, keyword)].expr)
        } else {
            None
        }
    }

    /// Whether every expression in the list is well typed.
    pub open spec fn well_typed(self, state: TypeState) -> bool {
        forall|i: int|
            0 <= i < self.arguments@.len() ==> (#[trigger] self.arguments@[i]).expr.well_typed(
                state,
            )
    }

    /// Whether no parameter finds fault with the arguments.
    pub open spec fn satisfies(self, parameters: Seq<Parameter>, state: TypeState) -> bool {
        forall|i: int|
            0 <= i < parameters.len() ==> Parameter::fault(
                #[trigger] parameters[i],
                state,
                self,
            ) is None
    }

    /// At most one place is the first for a keyword.
    pub proof fn lemma_first_is_unique(self, i: int, keyword: Seq<char>)
        requires
            self.is_first(i, keyword),
        ensures
            self.get(keyword) == Some(self.arguments@[i].expr),
    {
        let c = choose|c: int| self.is_first(c, keyword);
        if c < i {
            assert(self.arguments@[c].keyword@ != keyword);
        }
        if i < c {
            assert(self.arguments@[i].keyword@ != keyword);
        }
    }

    pub fn new() -> (r: ArgumentList)
        ensures
            r.arguments@.len() == 0,
    {
        ArgumentList { arguments: Vec::new() }
    }

    /// Adds an argument behind those that are there.
    pub fn insert(&mut self, keyword: &str, expr: Expr)
        ensures
            final(self).arguments@.len() == old(self).arguments@.len() + 1,
            final(self).arguments@.drop_last() == old(self).arguments@,
            final(self).arguments@.last().keyword@ == keyword@,
            final(self).arguments@.last().expr == expr,
    {
        self.arguments.push(Argument { keyword: keyword.to_owned(), expr });
        assert(self.arguments@.drop_last() =~= old(self).arguments@);
    }

    /// The first place at which `keyword` is given.
    pub fn find(&self, keyword: &str) -> (r: Option<usize>)
        ensures
            match r {
                Some(i) => self.is_first(i as int, keyword@),
                None => forall|j: int| !self.is_first(j, keyword@),
            },
            r is Some <==> self.get(keyword@) is Some,
    {
        let wanted = keyword.to_owned();
        let mut i: usize = 0;
        while i < self.arguments.len()
            invariant
                i <= self.arguments.len(),
                wanted@ == keyword@,
                forall|j: int| 0 <= j < i ==> self.arguments@[j].keyword@ != keyword@,
            decreases self.arguments.len() - i,
        {
            if self.arguments[i].keyword == wanted {
                assert(self.is_first(i as int, keyword@));
                return Some(i);
            }
            i += 1;
        }
        None
    }

    /// The kinds of the argument under `keyword`, if it is given.
    pub fn kind_of(&self, keyword: &str, state: &TypeState) -> (r: Option<Kind>)
        ensures
            match self.get(keyword@) {
                Some(a) => r == Some(a.type_def_of(*state).kind),
                None => r is None,
            },
    {
        match self.find(keyword) {
            Some(i) => {
                proof {
                    self.lemma_first_is_unique(i as int, keyword@);
                }
                Some(self.arguments[i].expr.type_def(state).kind)
            },
            None => None,
        }
    }

    /// The expression given under `keyword`, if there is one.
    pub fn optional(self, keyword: &str) -> (r: Option<Expr>)
        ensures
            r == self.get(keyword@),
    {
        match self.find(keyword) {
            Some(i) => {
                proof {
                    self.lemma_first_is_unique(i as int, keyword@);
                }
                let mut arguments = self.arguments;
                let argument = arguments.swap_remove(i);
                Some(argument.expr)
            },
            None => None,
        }
    }

    /// The expression given under `keyword`, which the caller knows to be
    /// there.
    pub fn required(self, keyword: &str) -> (r: Expr)
        requires
            self.get(keyword@) is Some,
        ensures
            Some(r) == self.get(keyword@),
    {
        match self.optional(keyword) {
            Some(expr) => expr,
            None => vstd::pervasive::unreached(),
        }
    }

    /// Holds the arguments against the parameters, in the parameters'
    /// order, and reports the first fault.
    pub fn check(&self, parameters: &Vec<Parameter>, state: &TypeState) -> (r: Result<
        (),
        CompileError,
    >)
        ensures
            match r {
                Ok(_) => self.satisfies(parameters@, *state),
                Err(e) => exists|i: int|
                    {
                        &&& 0 <= i < parameters@.len()
                        &&& Parameter::fault(#[trigger] parameters@[i], *state, *self) == Some(e)
                        &&& forall|j: int|
                            0 <= j < i ==> Parameter::fault(
                                #[trigger] parameters@[j],
                                *state,
                                *self,
                            ) is None
                    },
            },
    {
        let mut i: usize = 0;
        while i < parameters.len()
            invariant
                i <= parameters.len(),
                forall|j: int|
                    0 <= j < i ==> Parameter::fault(#[trigger] parameters@[j], *state, *self)
                        is None,
            decreases parameters.len() - i,
        {
            let p = parameters[i];
            match self.kind_of(p.keyword, state) {
                None => {
                    if p.required {
                        return Err(CompileError::MissingArgument { keyword: p.keyword });
                    }
                },
                Some(got) => {
                    if !got.is_subset(p.kind) {
                        return Err(
                            CompileError::KindMismatch {
                                keyword: p.keyword,
                                expected: p.kind,
                                got,
                            },
                        );
                    }
                },
            }
            i += 1;
        }
        Ok(())
    }
}

impl Parameter {
    /// What is wrong with the arguments in respect of the parameter `p`:
    /// a required argument is missing, or the argument given may be of a
    /// kind that `p` does not accept.
    pub open spec fn fault(p: Parameter, state: TypeState, arguments: ArgumentList) -> Option<
        CompileError,
    > {
        match arguments.get(p.keyword@) {
            None => if p.required {
                Some(CompileError::MissingArgument { keyword: p.keyword })
            } else {
                None
            },
            Some(a) => if a.type_def_of(state).kind@.subset_of(p.kind@) {
                None
            } else {
                Some(
                    CompileError::KindMismatch {
                        keyword: p.keyword,
                        expected: p.kind,
                        got: a.type_def_of(state).kind,
                    },
                )
            },
        }
    }
}

/// An operation of the language, as the compiler sees it.
pub trait Function {
    /// The parameters of the operation, in the order in which they are
    /// checked.
    spec fn parameter_list(&self) -> Seq<Parameter>;

    /// The name by which programs call the operation.
    fn identifier(&self) -> &'static str;

    /// Documented uses of the operation; there is at least one.
    fn examples(&self) -> (r: Vec<Example>)
        ensures
            r@.len() > 0,
    ;

    fn parameters(&self) -> (r: Vec<Parameter>)
        ensures
            r@ == self.parameter_list(),
    ;

    /// Compiles a call with the given arguments. A call compiles only if
    /// the arguments satisfy the parameters: a missing required argument
    /// or one of a kind that is not accepted is refused here. The node that
    /// comes out of well-typed arguments is well typed.
    fn compile(
        &self,
        state: &TypeState,
        ctx: &mut FunctionCompileContext,
        arguments: ArgumentList,
    ) -> (r: Result<Expr, CompileError>)
        ensures
            *final(ctx) == *old(ctx),
            r is Ok ==> arguments.satisfies(self.parameter_list(), *state),
            arguments.well_typed(*state) ==> (r matches Ok(node) ==> node.well_typed(*state)),
    ;
}

/// The operation that programs call `identifier`, if there is one.
pub fn lookup(identifier: &str) -> (r: Option<Seahash>)
    ensures
        r is Some <==> identifier@ == "seahash"@,
{
    if identifier.to_owned() == "seahash".to_owned() {
        Some(Seahash)
    } else {
        None
    }
}

/// Compiles a call of the operation named `identifier`: the one point
/// through which every call goes. A refusal carries the place of the call.
pub fn compile_call(
    identifier: &str,
    state: &TypeState,
    ctx: &mut FunctionCompileContext,
    arguments: ArgumentList,
) -> (r: Result<Expr, Diagnostic>)
    ensures
        *final(ctx) == *old(ctx),
        r is Ok <==> identifier@ == "seahash"@ && Seahash::accepts(*state, arguments),
        match r {
            Ok(node) => {
                &&& node == Seahash::node(arguments)
                &&& arguments.well_typed(*state) ==> node.well_typed(*state)
            },
            Err(d) => {
                &&& d.start == old(ctx).start
                &&& d.end == old(ctx).end
                &&& if identifier@ == "seahash"@ {
                    Seahash::refuses_with(*state, arguments, d.error)
                } else {
                    d.error matches CompileError::UnknownFunction { identifier: name } && name@
                        == identifier@
                }
            },
        },
{
    let refusal = match lookup(identifier) {
        Some(function) => match function.compile(state, ctx, arguments) {
            Ok(node) => {
                return Ok(node);
            },
            Err(e) => e,
        },
        None => CompileError::UnknownFunction { identifier: identifier.to_owned() },
    };
    Err(Diagnostic { error: refusal, start: ctx.start, end: ctx.end })
}

} // verus!
