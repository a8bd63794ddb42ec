use enum_to_obj::ast::{
    AssignOp, AssignTarget, BinaryOp, Decl, Expr, ExprKind, FnExpr, Ident, Lit, MemberProp,
    ModuleItem, Pat, Program, Prop, Stmt, VarDecl, VarDeclKind, VarDeclarator,
};
use enum_to_obj::compiled::{
    as_call, as_export_var_decls, as_var_decls, extract_enum, extract_enum_item, is_equal_op,
    member_expr_ident_name, unwrap_paren, var_iife,
};
use enum_to_obj::enum_to_obj::{ArithOp, EnumToObjVisitor};
use enum_to_obj::number::Number;
use enum_to_obj::process_transform;
use enum_to_obj::replace::{replace_each, replace_pairs};

fn arith(op: ArithOp, a: Number, b: Number) -> Number {
    let x = f64::from_bits(a.bits);
    let y = f64::from_bits(b.bits);
    let r = match op {
        ArithOp::Add => x + y,
        ArithOp::Sub => x - y,
        ArithOp::Mul => x * y,
        ArithOp::Div => x / y,
    };
    Number { bits: r.to_bits() }
}

fn text(n: Number) -> String {
    f64::from_bits(n.bits).to_string()
}

fn visitor() -> EnumToObjVisitor<fn(ArithOp, Number, Number) -> Number, fn(Number) -> String> {
    EnumToObjVisitor::new(
        arith as fn(ArithOp, Number, Number) -> Number,
        text as fn(Number) -> String,
    )
}

fn expr(kind: ExprKind) -> Expr {
    Expr { handle: None, kind }
}

fn ident(name: &str) -> Expr {
    expr(ExprKind::Ident(name.to_string()))
}

fn string(s: &str) -> Expr {
    expr(ExprKind::Lit(Lit::Str(s.to_string())))
}

fn number(v: f64) -> Expr {
    expr(ExprKind::Lit(Lit::Num(Number { bits: v.to_bits() })))
}

fn member(obj: Expr, key: Expr) -> Expr {
    expr(ExprKind::Member(Box::new(obj), MemberProp::Computed(Box::new(key))))
}

fn assign(target: Expr, value: Expr) -> Expr {
    expr(ExprKind::Assign(AssignOp::Assign, AssignTarget::Simple(Box::new(target)), Box::new(value)))
}

fn paren(e: Expr) -> Expr {
    expr(ExprKind::Paren(Box::new(e)))
}

/// `X[X["name"] = value] = "name"`
fn dual(enum_name: &str, name: &str, value: f64) -> Stmt {
    let inner = assign(member(ident(enum_name), string(name)), number(value));
    Stmt::Expr(assign(member(ident(enum_name), inner), string(name)))
}

/// `X["name"] = value`
fn simple(enum_name: &str, name: &str, value: Expr) -> Stmt {
    Stmt::Expr(assign(member(ident(enum_name), string(name)), value))
}

fn binding(name: &str) -> Ident {
    Ident { handle: Some(7), sym: name.to_string() }
}

/// `var X;`
fn bare_var(name: &str) -> VarDecl {
    VarDecl {
        kind: VarDeclKind::Var,
        decls: vec![VarDeclarator { name: Pat::Ident(binding(name)), init: None }],
    }
}

/// `(function(param) { body })(X || (X = {}))`
fn iife(fn_name: Option<&str>, param: &str, guard_name: &str, body: Vec<Stmt>) -> Stmt {
    let function = expr(ExprKind::Fn(FnExpr {
        name: fn_name.map(|n| n.to_string()),
        params: vec![Pat::Ident(Ident { handle: None, sym: param.to_string() })],
        body: Some(body),
    }));
    let guard = expr(ExprKind::Bin(
        BinaryOp::LogicalOr,
        Box::new(ident(guard_name)),
        Box::new(paren(assign(ident(guard_name), expr(ExprKind::Object(vec![]))))),
    ));
    Stmt::Expr(expr(ExprKind::Call(Box::new(paren(function)), vec![guard])))
}

fn foo_body() -> Vec<Stmt> {
    vec![dual("Foo", "A", 0.0), dual("Foo", "B", 1.0)]
}

fn key_value(key: &str, value: Expr) -> Prop {
    Prop::KeyValue(key.to_string(), value)
}

fn foo_object() -> Expr {
    expr(ExprKind::Object(vec![
        key_value("A", number(0.0)),
        key_value("0", string("A")),
        key_value("B", number(1.0)),
        key_value("1", string("B")),
    ]))
}

fn foo_decl() -> VarDecl {
    VarDecl {
        kind: VarDeclKind::Var,
        decls: vec![VarDeclarator { name: Pat::Ident(binding("Foo")), init: Some(foo_object()) }],
    }
}

#[test]
fn normal_compiled_enum() {
    let mut items = vec![
        ModuleItem::Stmt(Stmt::Decl(Decl::Var(bare_var("Foo")))),
        ModuleItem::Stmt(iife(None, "Foo", "Foo", foo_body())),
    ];
    visitor().visit_mut_module_items(&mut items);
    assert_eq!(items, vec![ModuleItem::Stmt(Stmt::Decl(Decl::Var(foo_decl())))]);
}

#[test]
fn exported_compiled_enum() {
    let mut items = vec![
        ModuleItem::ExportDecl(Decl::Var(bare_var("Foo"))),
        ModuleItem::Stmt(iife(None, "Foo", "Foo", foo_body())),
    ];
    visitor().visit_mut_module_items(&mut items);
    assert_eq!(items, vec![ModuleItem::ExportDecl(Decl::Var(foo_decl()))]);
}

#[test]
fn named_function_is_left_alone() {
    let mut items = vec![
        ModuleItem::Stmt(Stmt::Decl(Decl::Var(bare_var("Foo")))),
        ModuleItem::Stmt(iife(Some("fill"), "Foo", "Foo", foo_body())),
    ];
    visitor().visit_mut_module_items(&mut items);
    assert_eq!(
        items,
        vec![
            ModuleItem::Stmt(Stmt::Decl(Decl::Var(bare_var("Foo")))),
            ModuleItem::Stmt(iife(Some("fill"), "Foo", "Foo", foo_body())),
        ]
    );
}

#[test]
fn mismatched_names_are_left_alone() {
    let decl = bare_var("Foo");
    assert!(var_iife(&decl, &ModuleItem::Stmt(iife(None, "Bar", "Foo", foo_body()))).is_none());
    assert!(var_iife(&decl, &ModuleItem::Stmt(iife(None, "Foo", "Bar", foo_body()))).is_none());
    assert!(var_iife(&bare_var("Bar"), &ModuleItem::Stmt(iife(None, "Foo", "Foo", foo_body())))
        .is_none());
}

#[test]
fn let_and_initialized_declarations_do_not_match() {
    let next = ModuleItem::Stmt(iife(None, "Foo", "Foo", foo_body()));
    let mut with_let = bare_var("Foo");
    with_let.kind = VarDeclKind::Let;
    assert!(var_iife(&with_let, &next).is_none());
    let mut with_init = bare_var("Foo");
    with_init.decls[0].init = Some(number(1.0));
    assert!(var_iife(&with_init, &next).is_none());
    let mut two = bare_var("Foo");
    two.decls.push(VarDeclarator { name: Pat::Ident(binding("Bar")), init: None });
    assert!(var_iife(&two, &next).is_none());
}

#[test]
fn var_iife_gives_identifier_and_body() {
    let decl = bare_var("Foo");
    let next = ModuleItem::Stmt(iife(None, "Foo", "Foo", foo_body()));
    let (id, body) = var_iife(&decl, &next).unwrap();
    assert_eq!(id, &binding("Foo"));
    assert_eq!(body, &foo_body());
}

#[test]
fn non_empty_initial_object_does_not_match() {
    let function = expr(ExprKind::Fn(FnExpr {
        name: None,
        params: vec![Pat::Ident(Ident { handle: None, sym: "Foo".to_string() })],
        body: Some(foo_body()),
    }));
    let guard = expr(ExprKind::Bin(
        BinaryOp::LogicalOr,
        Box::new(ident("Foo")),
        Box::new(assign(ident("Foo"), expr(ExprKind::Object(vec![key_value("x", number(1.0))])))),
    ));
    let call = Stmt::Expr(expr(ExprKind::Call(Box::new(function), vec![guard])));
    assert!(var_iife(&bare_var("Foo"), &ModuleItem::Stmt(call)).is_none());
}

#[test]
fn unparenthesized_forms_match() {
    let function = expr(ExprKind::Fn(FnExpr {
        name: None,
        params: vec![Pat::Ident(Ident { handle: None, sym: "Foo".to_string() })],
        body: Some(foo_body()),
    }));
    let guard = expr(ExprKind::Bin(
        BinaryOp::LogicalOr,
        Box::new(ident("Foo")),
        Box::new(assign(ident("Foo"), expr(ExprKind::Object(vec![])))),
    ));
    let call = Stmt::Expr(expr(ExprKind::Call(Box::new(function), vec![guard])));
    assert!(var_iife(&bare_var("Foo"), &ModuleItem::Stmt(call)).is_some());
}

#[test]
fn simple_form_gives_one_item() {
    let stmt = simple("Foo", "A", string("x"));
    let items = extract_enum_item(&binding("Foo"), &stmt).unwrap();
    assert_eq!(items.len(), 1);
    assert_eq!(items[0].key, &Lit::Str("A".to_string()));
    assert_eq!(items[0].value, &string("x"));
}

#[test]
fn dual_form_gives_two_items_in_order() {
    let stmt = dual("Foo", "A", 5.0);
    let items = extract_enum_item(&binding("Foo"), &stmt).unwrap();
    assert_eq!(items.len(), 2);
    assert_eq!(items[0].key, &Lit::Str("A".to_string()));
    assert_eq!(items[0].value, &number(5.0));
    assert_eq!(items[1].key, &Lit::Num(Number { bits: 5.0f64.to_bits() }));
    assert_eq!(items[1].value, &string("A"));
}

#[test]
fn dual_form_wants_number_inside_and_string_outside() {
    let id = binding("Foo");
    let inner = assign(member(ident("Foo"), string("A")), string("x"));
    let stmt = Stmt::Expr(assign(member(ident("Foo"), inner), string("A")));
    assert!(extract_enum_item(&id, &stmt).is_none());
    let inner = assign(member(ident("Foo"), string("A")), number(0.0));
    let stmt = Stmt::Expr(assign(member(ident("Foo"), inner), number(1.0)));
    assert!(extract_enum_item(&id, &stmt).is_none());
    let inner = assign(member(ident("Foo"), number(3.0)), number(0.0));
    let stmt = Stmt::Expr(assign(member(ident("Foo"), inner), string("A")));
    assert!(extract_enum_item(&id, &stmt).is_none());
}

#[test]
fn other_statements_fail_the_item() {
    let id = binding("Foo");
    assert!(extract_enum_item(&id, &Stmt::Other).is_none());
    assert!(extract_enum_item(&id, &simple("Bar", "A", number(1.0))).is_none());
    let numeric_key = Stmt::Expr(assign(member(ident("Foo"), number(1.0)), string("A")));
    assert!(extract_enum_item(&id, &numeric_key).is_none());
    let compound = Stmt::Expr(expr(ExprKind::Assign(
        AssignOp::Other,
        AssignTarget::Simple(Box::new(member(ident("Foo"), string("A")))),
        Box::new(number(1.0)),
    )));
    assert!(extract_enum_item(&id, &compound).is_none());
}

#[test]
fn one_bad_statement_rejects_the_whole_enum() {
    let id = binding("Foo");
    let body = vec![dual("Foo", "A", 0.0), Stmt::Other, dual("Foo", "B", 1.0)];
    assert!(extract_enum(&id, &body).is_none());
    let mut items = vec![
        ModuleItem::Stmt(Stmt::Decl(Decl::Var(bare_var("Foo")))),
        ModuleItem::Stmt(iife(None, "Foo", "Foo", body)),
    ];
    visitor().visit_mut_module_items(&mut items);
    assert_eq!(items.len(), 2);
    assert_eq!(items[0], ModuleItem::Stmt(Stmt::Decl(Decl::Var(bare_var("Foo")))));
}

#[test]
fn extract_enum_keeps_order_and_duplicates() {
    let id = binding("Foo");
    let body = vec![
        simple("Foo", "A", string("x")),
        dual("Foo", "B", 2.0),
        simple("Foo", "A", string("y")),
    ];
    let items = extract_enum(&id, &body).unwrap();
    assert_eq!(items.len(), 4);
    let v = visitor();
    let object = v.build_obj(&items);
    assert_eq!(
        object,
        expr(ExprKind::Object(vec![
            key_value("A", string("x")),
            key_value("B", number(2.0)),
            key_value("2", string("B")),
            key_value("A", string("y")),
        ]))
    );
    let decl = v.build_obj_decl(&id, &items);
    assert_eq!(decl.kind, VarDeclKind::Var);
    assert_eq!(decl.decls.len(), 1);
    assert_eq!(decl.decls[0].name, Pat::Ident(binding("Foo")));
    assert_eq!(decl.decls[0].init, Some(object));
}

#[test]
fn empty_body_gives_empty_object() {
    let mut items = vec![
        ModuleItem::Stmt(Stmt::Decl(Decl::Var(bare_var("Foo")))),
        ModuleItem::Stmt(iife(None, "Foo", "Foo", vec![])),
    ];
    visitor().visit_mut_module_items(&mut items);
    assert_eq!(items.len(), 1);
    match &items[0] {
        ModuleItem::Stmt(Stmt::Decl(Decl::Var(v))) => {
            assert_eq!(v.decls[0].init, Some(expr(ExprKind::Object(vec![]))));
        }
        other => panic!("unexpected item {:?}", other),
    }
}

#[test]
fn several_enums_in_one_list() {
    let other = ModuleItem::Other;
    let mut items = vec![
        ModuleItem::Stmt(Stmt::Decl(Decl::Var(bare_var("Foo")))),
        ModuleItem::Stmt(iife(None, "Foo", "Foo", foo_body())),
        ModuleItem::Other,
        ModuleItem::ExportDecl(Decl::Var(bare_var("Bar"))),
        ModuleItem::Stmt(iife(None, "Bar", "Bar", vec![simple("Bar", "K", string("v"))])),
        ModuleItem::Stmt(Stmt::Other),
        ModuleItem::Stmt(Stmt::Decl(Decl::Var(bare_var("Foo")))),
        ModuleItem::Stmt(iife(None, "Foo", "Foo", foo_body())),
    ];
    visitor().visit_mut_module_items(&mut items);
    assert_eq!(items.len(), 5);
    assert_eq!(items[0], ModuleItem::Stmt(Stmt::Decl(Decl::Var(foo_decl()))));
    assert_eq!(items[1], other);
    match &items[2] {
        ModuleItem::ExportDecl(Decl::Var(v)) => {
            assert_eq!(v.decls[0].name, Pat::Ident(binding("Bar")));
            assert_eq!(
                v.decls[0].init,
                Some(expr(ExprKind::Object(vec![key_value("K", string("v"))])))
            );
        }
        other => panic!("unexpected item {:?}", other),
    }
    assert_eq!(items[3], ModuleItem::Stmt(Stmt::Other));
    assert_eq!(items[4], ModuleItem::Stmt(Stmt::Decl(Decl::Var(foo_decl()))));
}

#[test]
fn last_item_alone_is_never_a_pair() {
    let mut items = vec![ModuleItem::Stmt(Stmt::Decl(Decl::Var(bare_var("Foo"))))];
    visitor().visit_mut_module_items(&mut items);
    assert_eq!(items, vec![ModuleItem::Stmt(Stmt::Decl(Decl::Var(bare_var("Foo"))))]);
    let mut none: Vec<ModuleItem> = vec![];
    visitor().visit_mut_module_items(&mut none);
    assert!(none.is_empty());
}

#[test]
fn running_twice_changes_nothing_more() {
    let mut items = vec![
        ModuleItem::Stmt(Stmt::Decl(Decl::Var(bare_var("Foo")))),
        ModuleItem::Stmt(Stmt::Decl(Decl::Var(bare_var("Foo")))),
        ModuleItem::Stmt(iife(None, "Foo", "Foo", foo_body())),
        ModuleItem::Stmt(iife(None, "Foo", "Foo", foo_body())),
    ];
    let mut v = visitor();
    v.visit_mut_module_items(&mut items);
    assert_eq!(items.len(), 3);
    let once: Vec<ModuleItem> = items.iter().map(|i| i.duplicate()).collect();
    v.visit_mut_module_items(&mut items);
    assert_eq!(items, once);
}

#[test]
fn statement_lists_are_rewritten_too() {
    let mut stmts = vec![
        Stmt::Other,
        Stmt::Decl(Decl::Var(bare_var("Foo"))),
        iife(None, "Foo", "Foo", foo_body()),
    ];
    visitor().visit_mut_stmts(&mut stmts);
    assert_eq!(stmts, vec![Stmt::Other, Stmt::Decl(Decl::Var(foo_decl()))]);
}

#[test]
fn process_transform_rewrites_module_and_script() {
    let mut v = visitor();
    let module = Program::Module(vec![
        ModuleItem::Stmt(Stmt::Decl(Decl::Var(bare_var("Foo")))),
        ModuleItem::Stmt(iife(None, "Foo", "Foo", foo_body())),
    ]);
    assert_eq!(
        process_transform(module, &mut v),
        Program::Module(vec![ModuleItem::Stmt(Stmt::Decl(Decl::Var(foo_decl())))])
    );
    let script = Program::Script(vec![
        Stmt::Decl(Decl::Var(bare_var("Foo"))),
        iife(None, "Foo", "Foo", foo_body()),
    ]);
    assert_eq!(
        process_transform(script, &mut v),
        Program::Script(vec![Stmt::Decl(Decl::Var(foo_decl()))])
    );
}

#[test]
fn small_accessors() {
    let item = ModuleItem::Stmt(Stmt::Decl(Decl::Var(bare_var("Foo"))));
    assert_eq!(as_var_decls(&item), Some(&bare_var("Foo")));
    assert_eq!(as_export_var_decls(&item), None);
    let exported = ModuleItem::ExportDecl(Decl::Var(bare_var("Foo")));
    assert_eq!(as_var_decls(&exported), None);
    assert_eq!(as_export_var_decls(&exported), Some(&bare_var("Foo")));
    assert!(is_equal_op(AssignOp::Assign));
    assert!(!is_equal_op(AssignOp::Other));
    assert_eq!(unwrap_paren(&paren(ident("a"))), &ident("a"));
    assert_eq!(unwrap_paren(&ident("a")), &ident("a"));
    assert_eq!(unwrap_paren(&paren(paren(ident("a")))), &paren(ident("a")));
    let m = member(ident("Foo"), string("A"));
    assert_eq!(member_expr_ident_name(&m), Some(&"Foo".to_string()));
    assert_eq!(member_expr_ident_name(&ident("Foo")), None);
    let call = expr(ExprKind::Call(Box::new(ident("f")), vec![number(1.0)]));
    let (callee, args) = as_call(&call).unwrap();
    assert_eq!(callee, &ident("f"));
    assert_eq!(args.len(), 1);
    assert!(as_call(&ident("f")).is_none());
}

#[test]
fn replace_pairs_shifts_later_positions() {
    let mut list = vec![10, 11, 12, 13, 14, 15, 16];
    replace_pairs(&mut list, vec![(0usize, 100), (3usize, 103), (5usize, 105)]);
    assert_eq!(list, vec![100, 12, 103, 105]);
    let mut untouched = vec![1, 2, 3];
    replace_pairs(&mut untouched, vec![]);
    assert_eq!(untouched, vec![1, 2, 3]);
}

#[test]
fn replace_each_keeps_the_length() {
    let mut list = vec![10, 11, 12, 13];
    replace_each(&mut list, vec![(1usize, 101), (3usize, 103)]);
    assert_eq!(list, vec![10, 101, 12, 103]);
}
