use vrl_engine::expression::{Context, Expr};
use vrl_engine::function::{ArgumentList, CompileError, Parameter};
use vrl_engine::kind::{Kind, ValueKind, ALL_KINDS};
use vrl_engine::type_def::{TypeDef, TypeState};
use vrl_engine::value::{Value, ValueError};

fn all_kinds() -> Vec<ValueKind> {
    vec![
        ValueKind::Bytes,
        ValueKind::Integer,
        ValueKind::Float,
        ValueKind::Boolean,
        ValueKind::Timestamp,
        ValueKind::Regex,
        ValueKind::Null,
        ValueKind::Array,
        ValueKind::Object,
    ]
}

#[test]
fn each_kind_has_its_own_bit() {
    let mut seen: u16 = 0;
    for k in all_kinds() {
        let bit = k.bit();
        assert_eq!(bit.count_ones(), 1);
        assert_eq!(seen & bit, 0);
        seen |= bit;
    }
    assert_eq!(seen, ALL_KINDS);
    assert_eq!(ValueKind::Bytes.bit(), 1);
    assert_eq!(ValueKind::Object.bit(), 256);
}

#[test]
fn kind_of_one_holds_only_that_one() {
    for k in all_kinds() {
        for j in all_kinds() {
            assert_eq!(Kind::of(k).contains(j), k == j);
        }
    }
}

#[test]
fn any_holds_all_and_never_holds_none() {
    for k in all_kinds() {
        assert!(Kind::any().contains(k));
        assert!(!Kind::never().contains(k));
    }
    assert!(Kind::never().is_empty());
    assert!(!Kind::any().is_empty());
    assert!(!Kind::bytes().is_empty());
    assert!(Kind { bits: 0x200 }.is_empty());
}

#[test]
fn union_and_intersection() {
    let a = Kind::bytes().union(Kind::integer());
    let b = Kind::integer().union(Kind::boolean());
    assert_eq!(a, Kind { bits: 3 });
    assert_eq!(a.union(b), Kind { bits: 11 });
    assert_eq!(a.intersection(b), Kind::integer());
    assert!(Kind::bytes().intersection(Kind::integer()).is_empty());
}

#[test]
fn subset() {
    let a = Kind::bytes().union(Kind::integer());
    assert!(Kind::bytes().is_subset(a));
    assert!(!a.is_subset(Kind::bytes()));
    assert!(a.is_subset(a));
    assert!(Kind::never().is_subset(Kind::bytes()));
    assert!(a.is_subset(Kind::any()));
    assert!(!Kind::any().is_subset(a));
    assert!(Kind { bits: 0x201 }.is_subset(Kind::bytes()));
}

#[test]
fn type_def_builders() {
    assert_eq!(TypeDef::bytes(), TypeDef { kind: Kind::bytes(), fallible: false });
    assert_eq!(TypeDef::integer(), TypeDef { kind: Kind::integer(), fallible: false });
    assert_eq!(TypeDef::boolean(), TypeDef { kind: Kind::boolean(), fallible: false });
    assert_eq!(TypeDef::any(), TypeDef { kind: Kind::any(), fallible: false });
    assert_eq!(TypeDef::new(Kind::never()), TypeDef { kind: Kind::never(), fallible: false });
    assert_eq!(TypeDef::bytes().fallible(), TypeDef { kind: Kind::bytes(), fallible: true });
    assert_eq!(TypeDef::bytes().fallible().infallible(), TypeDef::bytes());
    assert!(TypeDef::bytes().fallible().is_fallible());
    assert!(!TypeDef::bytes().is_fallible());
}

#[test]
fn fallibility_spreads() {
    let a = TypeDef::bytes().fallible();
    let b = TypeDef::integer();
    assert_eq!(a.union(b), TypeDef { kind: Kind { bits: 3 }, fallible: true });
    assert_eq!(b.union(b), TypeDef::integer());
    assert_eq!(b.after(a), TypeDef { kind: Kind::integer(), fallible: true });
    assert_eq!(b.after(b), TypeDef::integer());
    assert_eq!(a.after(b), a);
}

#[test]
fn kinds_of_values() {
    assert_eq!(Value::Bytes(vec![1]).kind(), ValueKind::Bytes);
    assert_eq!(Value::Integer(1).kind(), ValueKind::Integer);
    assert_eq!(Value::Float(0).kind(), ValueKind::Float);
    assert_eq!(Value::Boolean(false).kind(), ValueKind::Boolean);
    assert_eq!(Value::Timestamp(0).kind(), ValueKind::Timestamp);
    assert_eq!(Value::Regex("a+".to_string()).kind(), ValueKind::Regex);
    assert_eq!(Value::Null.kind(), ValueKind::Null);
    assert_eq!(Value::Array(vec![]).kind(), ValueKind::Array);
    assert_eq!(Value::Object(vec![]).kind(), ValueKind::Object);
}

#[test]
fn accessors_narrow_or_name_both_kinds() {
    assert_eq!(Value::Bytes(vec![102, 111]).try_bytes(), Ok(vec![102, 111]));
    assert_eq!(Value::Integer(-7).try_integer(), Ok(-7));
    assert_eq!(Value::Boolean(true).try_boolean(), Ok(true));
    assert_eq!(
        Value::Null.try_bytes(),
        Err(ValueError { expected: Kind::bytes(), got: Kind::of(ValueKind::Null) })
    );
    assert_eq!(
        Value::Bytes(vec![]).try_integer(),
        Err(ValueError { expected: Kind::integer(), got: Kind::bytes() })
    );
    assert_eq!(
        Value::Integer(1).try_boolean(),
        Err(ValueError { expected: Kind::boolean(), got: Kind::integer() })
    );
}

#[test]
fn clone_is_deep() {
    let value = Value::Object(vec![
        ("a".to_string(), Value::Array(vec![Value::Integer(1), Value::Bytes(vec![2, 3])])),
        ("b".to_string(), Value::Object(vec![("c".to_string(), Value::Regex("x".to_string()))])),
        ("d".to_string(), Value::Float(0x3FF0_0000_0000_0000)),
        ("e".to_string(), Value::Timestamp(-5)),
    ]);
    assert_eq!(value.clone(), value);
}

#[test]
fn literal_and_event_resolve_to_themselves() {
    let event = Value::Array(vec![Value::Null, Value::Boolean(true)]);
    let mut ctx = Context::new(event.clone());
    assert_eq!(Expr::Literal(Value::Integer(3)).resolve(&mut ctx), Ok(Value::Integer(3)));
    assert_eq!(Expr::Target.resolve(&mut ctx), Ok(event.clone()));
    assert_eq!(ctx.target, event);
    let state = TypeState { target: Kind::of(ValueKind::Array) };
    assert_eq!(Expr::Target.type_def(&state), TypeDef::new(Kind::of(ValueKind::Array)));
    assert_eq!(Expr::Literal(Value::Integer(3)).type_def(&state), TypeDef::integer());
}

#[test]
fn argument_list_lookup() {
    let mut arguments = ArgumentList::new();
    assert_eq!(arguments.find("value"), None);
    arguments.insert("other", Expr::Target);
    arguments.insert("value", Expr::Literal(Value::Null));
    assert_eq!(arguments.find("value"), Some(1));
    assert_eq!(arguments.find("other"), Some(0));
    assert_eq!(arguments.find("none"), None);
    let state = TypeState { target: Kind::bytes() };
    assert_eq!(arguments.kind_of("other", &state), Some(Kind::bytes()));
    assert_eq!(arguments.kind_of("value", &state), Some(Kind::of(ValueKind::Null)));
    assert_eq!(arguments.kind_of("none", &state), None);
    assert_eq!(arguments.optional("value"), Some(Expr::Literal(Value::Null)));
}

#[test]
fn argument_list_required_and_optional() {
    let mut arguments = ArgumentList::new();
    arguments.insert("value", Expr::Literal(Value::Integer(9)));
    assert_eq!(arguments.required("value"), Expr::Literal(Value::Integer(9)));
    assert_eq!(ArgumentList::new().optional("value"), None);
}

fn two_parameters() -> Vec<Parameter> {
    vec![
        Parameter { keyword: "text", kind: Kind::bytes(), required: true },
        Parameter { keyword: "seed", kind: Kind::integer(), required: false },
    ]
}

#[test]
fn check_accepts_arguments_that_fit() {
    let state = TypeState { target: Kind::any() };
    let mut arguments = ArgumentList::new();
    arguments.insert("text", Expr::Literal(Value::Bytes(vec![1])));
    assert_eq!(arguments.check(&two_parameters(), &state), Ok(()));
    arguments.insert("seed", Expr::Literal(Value::Integer(4)));
    assert_eq!(arguments.check(&two_parameters(), &state), Ok(()));
    assert_eq!(ArgumentList::new().check(&vec![], &state), Ok(()));
}

#[test]
fn check_reports_the_first_fault_in_parameter_order() {
    let state = TypeState { target: Kind::any() };
    let mut arguments = ArgumentList::new();
    arguments.insert("seed", Expr::Literal(Value::Null));
    assert_eq!(
        arguments.check(&two_parameters(), &state),
        Err(CompileError::MissingArgument { keyword: "text" })
    );
    arguments.insert("text", Expr::Target);
    assert_eq!(
        arguments.check(&two_parameters(), &state),
        Err(CompileError::KindMismatch { keyword: "text", expected: Kind::bytes(), got: Kind::any() })
    );
    let state = TypeState { target: Kind::bytes() };
    assert_eq!(
        arguments.check(&two_parameters(), &state),
        Err(CompileError::KindMismatch {
            keyword: "seed",
            expected: Kind::integer(),
            got: Kind::of(ValueKind::Null)
        })
    );
}
