use enum_to_obj::ast::{
    BinaryOp, Decl, EnumDecl, EnumMember, Expr, ExprKind, Ident, Lit, MemberProp, ModuleItem, Pat,
    Prop, Stmt, UnaryOp, VarDecl, VarDeclKind, VarDeclarator,
};
use enum_to_obj::enum_to_obj::{ArithOp, EnumToObjVisitor};
use enum_to_obj::evaluate::{EnumValues, Literal, Unresolvable};
use enum_to_obj::lower::{make_literal, member_entry, InvalidEnum};
use enum_to_obj::number::Number;
use enum_to_obj::rewrite::{make_member, rewrite_expr};

fn arith(op: ArithOp, a: Number, b: Number) -> Number {
    let x = f64::from_bits(a.bits);
    let y = f64::from_bits(b.bits);
    let r = match op {
        ArithOp::Add => x + y,
        ArithOp::Sub => x - y,
        ArithOp::Mul => x * y,
        ArithOp::Div => x / y,
    };
    Number { bits: r.to_bits() }
}

fn text(n: Number) -> String {
    f64::from_bits(n.bits).to_string()
}

fn visitor() -> EnumToObjVisitor<fn(ArithOp, Number, Number) -> Number, fn(Number) -> String> {
    EnumToObjVisitor::new(
        arith as fn(ArithOp, Number, Number) -> Number,
        text as fn(Number) -> String,
    )
}

fn num(v: f64) -> Number {
    Number { bits: v.to_bits() }
}

fn expr(kind: ExprKind) -> Expr {
    Expr { handle: None, kind }
}

fn ident(name: &str) -> Expr {
    expr(ExprKind::Ident(name.to_string()))
}

fn string(s: &str) -> Expr {
    expr(ExprKind::Lit(Lit::Str(s.to_string())))
}

fn number(v: f64) -> Expr {
    expr(ExprKind::Lit(Lit::Num(num(v))))
}

fn unary(op: UnaryOp, arg: Expr) -> Expr {
    expr(ExprKind::Unary(op, Box::new(arg)))
}

fn bin(op: BinaryOp, left: Expr, right: Expr) -> Expr {
    expr(ExprKind::Bin(op, Box::new(left), Box::new(right)))
}

fn paren(e: Expr) -> Expr {
    expr(ExprKind::Paren(Box::new(e)))
}

fn call(callee: Expr, args: Vec<Expr>) -> Expr {
    expr(ExprKind::Call(Box::new(callee), args))
}

fn dot(obj: Expr, name: &str) -> Expr {
    expr(ExprKind::Member(Box::new(obj), MemberProp::Name(name.to_string())))
}

fn foo() -> Ident {
    Ident { handle: Some(3), sym: "Foo".to_string() }
}

/// `Foo.name`, as the pass builds it
fn foo_dot(name: &str) -> Expr {
    expr(ExprKind::Member(
        Box::new(Expr { handle: Some(3), kind: ExprKind::Ident("Foo".to_string()) }),
        MemberProp::Name(name.to_string()),
    ))
}

fn member(name: &str, init: Option<Expr>) -> EnumMember {
    EnumMember { name: name.to_string(), init }
}

fn enum_decl(is_const: bool, members: Vec<EnumMember>) -> EnumDecl {
    EnumDecl { id: foo(), is_const, members }
}

fn key_value(key: &str, value: Expr) -> Prop {
    Prop::KeyValue(key.to_string(), value)
}

fn constant(props: Vec<Prop>) -> VarDecl {
    VarDecl {
        kind: VarDeclKind::Const,
        decls: vec![VarDeclarator {
            name: Pat::Ident(foo()),
            init: Some(expr(ExprKind::Object(props))),
        }],
    }
}

fn lowered(members: Vec<EnumMember>) -> VarDecl {
    visitor().lower_enum(&enum_decl(false, members)).unwrap()
}

fn value_of(init: Expr) -> Result<Literal, Unresolvable> {
    visitor().evaluate(num(0.0), Some(&init), &EnumValues::new())
}

fn number_value(init: Expr) -> f64 {
    match value_of(init) {
        Ok(Literal::Num(n)) => f64::from_bits(n.bits),
        other => panic!("not a number: {:?}", other),
    }
}

#[test]
fn normal_enum() {
    let mut items =
        vec![ModuleItem::Stmt(Stmt::Decl(Decl::TsEnum(enum_decl(false, vec![
            member("A", None),
            member("B", None),
        ]))))];
    visitor().visit_mut_module_items(&mut items);
    assert_eq!(
        items,
        vec![ModuleItem::Stmt(Stmt::Decl(Decl::Var(constant(vec![
            key_value("A", number(0.0)),
            key_value("B", number(1.0)),
        ]))))]
    );
}

#[test]
fn exported_enum() {
    let mut items = vec![ModuleItem::ExportDecl(Decl::TsEnum(enum_decl(false, vec![
        member("A", None),
        member("B", None),
    ])))];
    visitor().visit_mut_module_items(&mut items);
    assert_eq!(
        items,
        vec![ModuleItem::ExportDecl(Decl::Var(constant(vec![
            key_value("A", number(0.0)),
            key_value("B", number(1.0)),
        ])))]
    );
}

#[test]
fn const_enum() {
    let decl = enum_decl(true, vec![
        member("A", Some(number(0.0))),
        member("B", Some(number(1.0))),
        member("C", Some(unary(UnaryOp::Minus, number(1.0)))),
        member("D", Some(unary(UnaryOp::Plus, number(2.0)))),
    ]);
    assert_eq!(
        visitor().lower_enum(&decl),
        Ok(constant(vec![
            key_value("A", number(0.0)),
            key_value("B", number(1.0)),
            key_value("C", number(-1.0)),
            key_value("D", number(2.0)),
        ]))
    );
}

#[test]
fn exported_const_enum() {
    let mut items = vec![ModuleItem::ExportDecl(Decl::TsEnum(enum_decl(true, vec![
        member("A", None),
        member("B", None),
    ])))];
    visitor().visit_mut_module_items(&mut items);
    assert_eq!(
        items,
        vec![ModuleItem::ExportDecl(Decl::Var(constant(vec![
            key_value("A", number(0.0)),
            key_value("B", number(1.0)),
        ])))]
    );
}

#[test]
fn enum_in_a_statement_list() {
    let mut stmts = vec![
        Stmt::Other,
        Stmt::Decl(Decl::TsEnum(enum_decl(false, vec![member("A", None)]))),
        Stmt::Expr(ident("x")),
    ];
    visitor().visit_mut_stmts(&mut stmts);
    assert_eq!(
        stmts,
        vec![
            Stmt::Other,
            Stmt::Decl(Decl::Var(constant(vec![key_value("A", number(0.0))]))),
            Stmt::Expr(ident("x")),
        ]
    );
}

#[test]
fn members_count_from_zero() {
    let names = ["A", "B", "C", "D", "E"];
    let decl = lowered(names.iter().map(|n| member(n, None)).collect());
    let expected: Vec<Prop> =
        names.iter().enumerate().map(|(i, n)| key_value(n, number(i as f64))).collect();
    assert_eq!(decl, constant(expected));
}

#[test]
fn increment_continues_after_an_initializer() {
    let decl = lowered(vec![
        member("A", None),
        member("B", Some(number(10.0))),
        member("C", None),
        member("D", None),
        member("E", Some(number(-3.0))),
        member("F", None),
    ]);
    assert_eq!(
        decl,
        constant(vec![
            key_value("A", number(0.0)),
            key_value("B", number(10.0)),
            key_value("C", number(11.0)),
            key_value("D", number(12.0)),
            key_value("E", number(-3.0)),
            key_value("F", number(-2.0)),
        ])
    );
}

#[test]
fn increment_is_one_more_than_any_number() {
    let decl = lowered(vec![
        member("A", Some(number(1.5))),
        member("B", None),
        member("C", Some(number(9007199254740991.0))),
        member("D", None),
        member("E", Some(unary(UnaryOp::Minus, number(0.0)))),
        member("F", None),
    ]);
    assert_eq!(
        decl,
        constant(vec![
            key_value("A", number(1.5)),
            key_value("B", number(2.5)),
            key_value("C", number(9007199254740991.0)),
            key_value("D", number(9007199254740992.0)),
            key_value("E", number(-0.0)),
            key_value("F", number(1.0)),
        ])
    );
}

#[test]
fn increment_passes_over_strings() {
    let decl = lowered(vec![
        member("A", Some(number(4.0))),
        member("B", Some(string("b"))),
        member("C", None),
    ]);
    assert_eq!(
        decl,
        constant(vec![
            key_value("A", number(4.0)),
            key_value("B", string("b")),
            key_value("C", number(5.0)),
        ])
    );
}

#[test]
fn string_plus_number_joins_texts() {
    assert_eq!(
        value_of(bin(BinaryOp::Add, string("a"), number(1.0))),
        Ok(Literal::Str("a1".to_string()))
    );
    assert_eq!(
        value_of(bin(BinaryOp::Add, number(1.5), string("px"))),
        Ok(Literal::Str("1.5px".to_string()))
    );
    assert_eq!(
        value_of(bin(BinaryOp::Add, string("a"), string("b"))),
        Ok(Literal::Str("ab".to_string()))
    );
    assert_eq!(
        value_of(bin(BinaryOp::Add, string("n"), unary(UnaryOp::Minus, number(2.0)))),
        Ok(Literal::Str("n-2".to_string()))
    );
    assert_eq!(
        value_of(bin(BinaryOp::Add, string("z"), unary(UnaryOp::Minus, number(0.0)))),
        Ok(Literal::Str("z0".to_string()))
    );
    assert_eq!(
        value_of(bin(BinaryOp::Add, bin(BinaryOp::Add, number(1.0), number(2.0)), string("px"))),
        Ok(Literal::Str("3px".to_string()))
    );
    assert_eq!(value_of(bin(BinaryOp::Sub, string("a"), number(1.0))), Err(Unresolvable));
    assert_eq!(value_of(bin(BinaryOp::Mul, string("a"), string("b"))), Err(Unresolvable));
}

#[test]
fn reference_to_a_constant_member_is_its_value() {
    let decl = lowered(vec![
        member("A", Some(number(7.0))),
        member("B", Some(ident("A"))),
        member("C", Some(bin(BinaryOp::Add, ident("B"), number(1.0)))),
        member("D", None),
    ]);
    assert_eq!(
        decl,
        constant(vec![
            key_value("A", number(7.0)),
            key_value("B", number(7.0)),
            key_value("C", number(8.0)),
            key_value("D", number(9.0)),
        ])
    );
}

#[test]
fn reference_to_a_computed_member_is_a_property_access() {
    let decl = lowered(vec![
        member("A", Some(call(ident("f"), vec![]))),
        member("B", Some(ident("A"))),
        member("C", Some(bin(BinaryOp::Add, ident("A"), ident("x")))),
        member("D", None),
    ]);
    assert_eq!(
        decl,
        constant(vec![
            key_value("A", call(ident("f"), vec![])),
            key_value("B", foo_dot("A")),
            key_value("C", bin(BinaryOp::Add, foo_dot("A"), ident("x"))),
            key_value("D", number(0.0)),
        ])
    );
}

#[test]
fn unresolvable_initializer_rewrites_constant_members_too() {
    let decl = lowered(vec![
        member("A", Some(number(1.0))),
        member("B", Some(call(ident("f"), vec![ident("A"), ident("B"), ident("y")]))),
    ]);
    assert_eq!(
        decl,
        constant(vec![
            key_value("A", number(1.0)),
            key_value("B", call(ident("f"), vec![foo_dot("A"), ident("B"), ident("y")])),
        ])
    );
}

#[test]
fn unknown_identifier_is_unresolvable() {
    assert_eq!(value_of(ident("A")), Err(Unresolvable));
    let mut values = EnumValues::new();
    values.insert("A".to_string(), None);
    assert_eq!(visitor().evaluate(num(0.0), Some(&ident("A")), &values), Err(Unresolvable));
    values.insert("A".to_string(), Some(Literal::Str("x".to_string())));
    assert_eq!(
        visitor().evaluate(num(0.0), Some(&ident("A")), &values),
        Ok(Literal::Str("x".to_string()))
    );
}

#[test]
fn default_index_is_used_without_initializer() {
    let values = EnumValues::new();
    let v = visitor();
    assert_eq!(v.evaluate(num(0.0), None, &values), Ok(Literal::Num(num(0.0))));
    assert_eq!(v.evaluate(num(41.0), None, &values), Ok(Literal::Num(num(41.0))));
    assert_eq!(v.evaluate(num(-5.0), None, &values), Ok(Literal::Num(num(-5.0))));
    assert_eq!(v.evaluate(num(2.5), None, &values), Ok(Literal::Num(num(2.5))));
    assert_eq!(
        v.evaluate(num(3.0), Some(&string("s")), &values),
        Ok(Literal::Str("s".to_string()))
    );
}

#[test]
fn literals_and_parentheses() {
    assert_eq!(value_of(number(2.5)), Ok(Literal::Num(num(2.5))));
    assert_eq!(value_of(string("s")), Ok(Literal::Str("s".to_string())));
    assert_eq!(value_of(paren(paren(number(3.0)))), Ok(Literal::Num(num(3.0))));
    assert_eq!(value_of(expr(ExprKind::Lit(Lit::Bool(true)))), Err(Unresolvable));
    assert_eq!(value_of(expr(ExprKind::Lit(Lit::BigInt("1".to_string())))), Err(Unresolvable));
    assert_eq!(value_of(expr(ExprKind::Lit(Lit::Other))), Err(Unresolvable));
}

#[test]
fn templates_without_interpolation_are_strings() {
    let plain = expr(ExprKind::Tpl(vec![Some("abc".to_string())], vec![]));
    assert_eq!(value_of(plain), Ok(Literal::Str("abc".to_string())));
    let uncooked = expr(ExprKind::Tpl(vec![None], vec![]));
    assert_eq!(value_of(uncooked), Err(Unresolvable));
    let interpolated = expr(ExprKind::Tpl(
        vec![Some("a".to_string()), Some("b".to_string())],
        vec![number(1.0)],
    ));
    assert_eq!(value_of(interpolated), Err(Unresolvable));
}

#[test]
fn unary_operators() {
    assert_eq!(number_value(unary(UnaryOp::Plus, number(2.0))), 2.0);
    assert_eq!(number_value(unary(UnaryOp::Minus, number(2.0))), -2.0);
    assert_eq!(number_value(unary(UnaryOp::Minus, unary(UnaryOp::Minus, number(2.0)))), 2.0);
    assert_eq!(number_value(unary(UnaryOp::Bang, number(0.0))), 1.0);
    assert_eq!(number_value(unary(UnaryOp::Bang, number(-0.0))), 1.0);
    assert_eq!(number_value(unary(UnaryOp::Bang, number(5.0))), 0.0);
    assert_eq!(number_value(unary(UnaryOp::Tilde, number(0.0))), -1.0);
    assert_eq!(number_value(unary(UnaryOp::Tilde, number(5.0))), -6.0);
    assert_eq!(number_value(unary(UnaryOp::Tilde, number(-1.0))), 0.0);
    assert_eq!(number_value(unary(UnaryOp::Tilde, number(4294967296.0))), -1.0);
    assert_eq!(number_value(unary(UnaryOp::Tilde, number(2147483647.0))), -2147483648.0);
    assert_eq!(number_value(unary(UnaryOp::Tilde, number(1.7))), -2.0);
    assert_eq!(value_of(unary(UnaryOp::Other, number(1.0))), Err(Unresolvable));
    assert_eq!(value_of(unary(UnaryOp::Minus, string("a"))), Err(Unresolvable));
    assert_eq!(value_of(unary(UnaryOp::Bang, string("a"))), Err(Unresolvable));
    assert_eq!(value_of(unary(UnaryOp::Tilde, string("a"))), Err(Unresolvable));
    assert_eq!(value_of(unary(UnaryOp::Plus, string("a"))), Ok(Literal::Str("a".to_string())));
    assert_eq!(value_of(unary(UnaryOp::Minus, call(ident("f"), vec![]))), Err(Unresolvable));
}

#[test]
fn arithmetic_operators() {
    assert_eq!(number_value(bin(BinaryOp::Add, number(1.5), number(2.0))), 3.5);
    assert_eq!(number_value(bin(BinaryOp::Sub, number(1.0), number(2.5))), -1.5);
    assert_eq!(number_value(bin(BinaryOp::Mul, number(3.0), number(0.5))), 1.5);
    assert_eq!(number_value(bin(BinaryOp::Div, number(1.0), number(4.0))), 0.25);
    assert_eq!(number_value(bin(BinaryOp::Div, number(1.0), number(0.0))), f64::INFINITY);
    assert!(number_value(bin(BinaryOp::Div, number(0.0), number(0.0))).is_nan());
    let nested = bin(
        BinaryOp::Mul,
        paren(bin(BinaryOp::Add, number(1.0), number(2.0))),
        bin(BinaryOp::Sub, number(10.0), number(4.0)),
    );
    assert_eq!(number_value(nested), 18.0);
}

#[test]
fn bitwise_operators() {
    assert_eq!(number_value(bin(BinaryOp::BitOr, number(1.0), number(2.0))), 3.0);
    assert_eq!(number_value(bin(BinaryOp::BitAnd, number(6.0), number(3.0))), 2.0);
    assert_eq!(number_value(bin(BinaryOp::BitXor, number(6.0), number(3.0))), 5.0);
    assert_eq!(number_value(bin(BinaryOp::LShift, number(1.0), number(4.0))), 16.0);
    assert_eq!(number_value(bin(BinaryOp::LShift, number(1.0), number(31.0))), -2147483648.0);
    assert_eq!(number_value(bin(BinaryOp::RShift, number(-16.0), number(2.0))), -4.0);
    assert_eq!(
        number_value(bin(BinaryOp::ZeroFillRShift, number(-16.0), number(2.0))),
        1073741820.0
    );
    assert_eq!(number_value(bin(BinaryOp::BitOr, number(2.9), number(0.0))), 2.0);
    assert_eq!(number_value(bin(BinaryOp::BitOr, number(4294967297.0), number(0.0))), 1.0);
    let flags = bin(
        BinaryOp::BitOr,
        bin(BinaryOp::LShift, number(1.0), number(0.0)),
        bin(BinaryOp::LShift, number(1.0), number(3.0)),
    );
    assert_eq!(number_value(flags), 9.0);
}

#[test]
fn other_operators_and_nodes_are_unresolvable() {
    assert_eq!(value_of(bin(BinaryOp::LogicalOr, number(1.0), number(2.0))), Err(Unresolvable));
    assert_eq!(value_of(bin(BinaryOp::Other, number(1.0), number(2.0))), Err(Unresolvable));
    assert_eq!(value_of(bin(BinaryOp::BitOr, string("a"), number(2.0))), Err(Unresolvable));
    assert_eq!(value_of(call(ident("f"), vec![])), Err(Unresolvable));
    assert_eq!(value_of(dot(ident("a"), "b")), Err(Unresolvable));
    assert_eq!(value_of(expr(ExprKind::Other(vec![number(1.0)]))), Err(Unresolvable));
    assert_eq!(value_of(expr(ExprKind::Object(vec![]))), Err(Unresolvable));
    assert_eq!(
        value_of(bin(BinaryOp::Add, number(1.0), call(ident("f"), vec![]))),
        Err(Unresolvable)
    );
}

#[test]
fn other_kinds_of_value_pass_through_the_table() {
    let mut values = EnumValues::new();
    values.insert("T".to_string(), Some(Literal::Bool(true)));
    values.insert("Q".to_string(), Some(Literal::Tpl("q".to_string())));
    values.insert("G".to_string(), Some(Literal::BigInt("12".to_string())));
    let v = visitor();
    assert_eq!(v.evaluate(num(0.0), Some(&ident("T")), &values), Ok(Literal::Bool(true)));
    assert_eq!(v.evaluate(num(0.0), Some(&ident("Q")), &values), Ok(Literal::Tpl("q".to_string())));
    assert_eq!(
        v.evaluate(num(0.0), Some(&unary(UnaryOp::Minus, ident("T"))), &values),
        Err(Unresolvable)
    );
    assert_eq!(
        v.evaluate(num(0.0), Some(&bin(BinaryOp::Add, ident("Q"), string("x"))), &values),
        Err(Unresolvable)
    );
    assert_eq!(make_literal(Literal::Bool(true)), expr(ExprKind::Lit(Lit::Bool(true))));
    assert_eq!(make_literal(Literal::Tpl("q".to_string())), string("q"));
    assert_eq!(
        make_literal(Literal::BigInt("12".to_string())),
        expr(ExprKind::Lit(Lit::BigInt("12".to_string())))
    );
    assert_eq!(make_literal(Literal::Num(num(2.0))), number(2.0));
    assert_eq!(make_literal(Literal::Str("s".to_string())), string("s"));
}

#[test]
fn apply_binary_on_values() {
    let v = visitor();
    assert_eq!(
        v.apply_binary(BinaryOp::Add, Literal::Num(num(1.0)), Literal::Num(num(2.0))),
        Ok(Literal::Num(num(3.0)))
    );
    assert_eq!(
        v.apply_binary(BinaryOp::Add, Literal::Bool(true), Literal::Num(num(2.0))),
        Err(Unresolvable)
    );
    assert_eq!(v.apply_arith(ArithOp::Mul, num(3.0), num(4.0)), num(12.0));
    assert_eq!(v.number_text(num(-12.5)), "-12.5");
}

#[test]
fn table_keeps_the_later_entry() {
    let mut values = EnumValues::new();
    assert!(!values.contains_key(&"A".to_string()));
    assert_eq!(values.get(&"A".to_string()), None);
    values.insert("A".to_string(), Some(Literal::Num(num(1.0))));
    values.insert("B".to_string(), None);
    values.insert("A".to_string(), Some(Literal::Num(num(2.0))));
    assert!(values.contains_key(&"A".to_string()));
    assert!(values.contains_key(&"B".to_string()));
    assert!(!values.contains_key(&"C".to_string()));
    assert_eq!(values.get(&"A".to_string()), Some(&Some(Literal::Num(num(2.0)))));
    assert_eq!(values.get(&"B".to_string()), Some(&None));
}

#[test]
fn repeated_member_names_are_kept() {
    let decl = lowered(vec![
        member("A", Some(number(1.0))),
        member("A", Some(number(5.0))),
        member("B", Some(ident("A"))),
    ]);
    assert_eq!(
        decl,
        constant(vec![
            key_value("A", number(1.0)),
            key_value("A", number(5.0)),
            key_value("B", number(5.0)),
        ])
    );
}

#[test]
fn following_index_is_one_more_than_a_number() {
    let v = visitor();
    let after = |value: Literal| f64::from_bits(v.following_index(num(4.0), &value).bits);
    assert_eq!(after(Literal::Num(num(0.0))), 1.0);
    assert_eq!(after(Literal::Num(num(9.0))), 10.0);
    assert_eq!(after(Literal::Num(num(-9.0))), -8.0);
    assert_eq!(after(Literal::Num(num(-1.0))), 0.0);
    assert_eq!(after(Literal::Num(num(2.75))), 3.75);
    assert_eq!(after(Literal::Num(num(-0.5))), 0.5);
    assert_eq!(after(Literal::Str("s".to_string())), 4.0);
    assert_eq!(after(Literal::Bool(true)), 4.0);
    assert!(after(Literal::Num(num(f64::NAN))).is_nan());
    assert_eq!(after(Literal::Num(num(f64::INFINITY))), f64::INFINITY);
    assert_eq!(after(Literal::Num(num(9007199254740990.0))), 9007199254740991.0);
    assert_eq!(after(Literal::Num(num(9007199254740991.0))), 9007199254740992.0);
    assert_eq!(after(Literal::Num(num(9007199254740992.0))), 9007199254740992.0);
    assert_eq!(after(Literal::Num(num(-9007199254740991.0))), -9007199254740990.0);
    assert_eq!(v.successor(num(6.0)), num(7.0));
    assert_eq!(v.successor(num(-0.0)).bits, 1.0f64.to_bits());
}

#[test]
fn member_without_value_or_initializer_is_invalid() {
    let values = EnumValues::new();
    assert_eq!(
        member_entry(&foo(), &member("A", None), Err(Unresolvable), &values),
        Err(InvalidEnum { enum_name: "Foo".to_string(), member: "A".to_string() })
    );
    assert_eq!(
        member_entry(&foo(), &member("A", None), Ok(Literal::Num(num(1.0))), &values),
        Ok(number(1.0))
    );
    assert_eq!(
        member_entry(&foo(), &member("A", Some(ident("x"))), Err(Unresolvable), &values),
        Ok(ident("x"))
    );
}

#[test]
fn lower_member_enters_the_member_in_the_table() {
    let v = visitor();
    let mut values = EnumValues::new();
    let (prop, next) =
        v.lower_member(&foo(), &member("A", Some(number(3.0))), &mut values, num(0.0)).unwrap();
    assert_eq!(prop, key_value("A", number(3.0)));
    assert_eq!(next, num(4.0));
    assert_eq!(values.get(&"A".to_string()), Some(&Some(Literal::Num(num(3.0)))));
    let (prop, next) =
        v.lower_member(&foo(), &member("B", Some(call(ident("A"), vec![]))), &mut values, next).unwrap();
    assert_eq!(prop, key_value("B", call(foo_dot("A"), vec![])));
    assert_eq!(next, num(4.0));
    assert_eq!(values.get(&"B".to_string()), Some(&None));
}

#[test]
fn rewriting_leaves_property_names_alone() {
    let mut values = EnumValues::new();
    values.insert("A".to_string(), None);
    values.insert("b".to_string(), None);
    let e = dot(dot(ident("A"), "b"), "A");
    assert_eq!(rewrite_expr(&e, &foo(), &values), dot(dot(foo_dot("A"), "b"), "A"));
    let computed = expr(ExprKind::Member(
        Box::new(ident("x")),
        MemberProp::Computed(Box::new(ident("A"))),
    ));
    assert_eq!(
        rewrite_expr(&computed, &foo(), &values),
        expr(ExprKind::Member(Box::new(ident("x")), MemberProp::Computed(Box::new(ident("A")))))
    );
}

#[test]
fn rewriting_reaches_every_operand() {
    let mut values = EnumValues::new();
    values.insert("A".to_string(), Some(Literal::Num(num(1.0))));
    let e = Expr {
        handle: Some(9),
        kind: ExprKind::Other(vec![
            paren(ident("A")),
            unary(UnaryOp::Minus, ident("A")),
            expr(ExprKind::Tpl(vec![Some("a".to_string()), None], vec![ident("A")])),
            expr(ExprKind::Object(vec![key_value("A", ident("A")), Prop::Other])),
            ident("B"),
            string("A"),
        ]),
    };
    let expected = Expr {
        handle: Some(9),
        kind: ExprKind::Other(vec![
            paren(foo_dot("A")),
            unary(UnaryOp::Minus, foo_dot("A")),
            expr(ExprKind::Tpl(vec![Some("a".to_string()), None], vec![foo_dot("A")])),
            expr(ExprKind::Object(vec![key_value("A", foo_dot("A")), Prop::Other])),
            ident("B"),
            string("A"),
        ]),
    };
    assert_eq!(rewrite_expr(&e, &foo(), &values), expected);
    assert_eq!(make_member(&foo(), &"A".to_string()), foo_dot("A"));
}

#[test]
fn rewriting_without_members_copies_the_expression() {
    let values = EnumValues::new();
    let e = bin(BinaryOp::Add, call(ident("f"), vec![ident("A")]), dot(ident("B"), "c"));
    assert_eq!(rewrite_expr(&e, &foo(), &values), e.duplicate());
    assert_eq!(e.duplicate(), e);
}

#[test]
fn enums_and_compiled_enums_in_one_list() {
    let mut items = vec![
        ModuleItem::Stmt(Stmt::Decl(Decl::TsEnum(enum_decl(false, vec![member("A", None)])))),
        ModuleItem::Other,
        ModuleItem::ExportDecl(Decl::TsEnum(enum_decl(true, vec![member("B", Some(string("b")))]))),
    ];
    let mut v = visitor();
    v.visit_mut_module_items(&mut items);
    assert_eq!(
        items,
        vec![
            ModuleItem::Stmt(Stmt::Decl(Decl::Var(constant(vec![key_value("A", number(0.0))])))),
            ModuleItem::Other,
            ModuleItem::ExportDecl(Decl::Var(constant(vec![key_value("B", string("b"))]))),
        ]
    );
    let once: Vec<ModuleItem> = items.iter().map(|i| i.duplicate()).collect();
    v.visit_mut_module_items(&mut items);
    assert_eq!(items, once);
}
