use glsl_interpreter::ast::{parse_program, program_shape_valid, Expr, NodeKind, ParseNode, Program, Stmt, TopDecl};
use glsl_interpreter::interpreter::{
    binop_rule, call_rule, input_kind, is_swizzle_field, read_slot, stmt_target, swizzle_index,
    update_slot, Arith, BinOpRule, CallRule, InputShape, Target, ValueKind,
};
use glsl_interpreter::typechecker::{check, check_add, check_compatible, check_mul, debug_text, TypeMap, TypeError};
use glsl_interpreter::types::GatorType;
use glsl_interpreter::interpreter::ValueKind::{Float, Mat4, Vec3, Vec4};

fn s(x: &str) -> String {
    x.to_string()
}

fn leaf(kind: NodeKind, text: &str) -> ParseNode {
    ParseNode { kind, text: s(text), children: vec![] }
}

fn node(kind: NodeKind, text: &str, children: Vec<ParseNode>) -> ParseNode {
    ParseNode { kind, text: s(text), children }
}

fn ident(x: &str) -> ParseNode {
    leaf(NodeKind::Ident, x)
}

fn float(x: &str) -> ParseNode {
    leaf(NodeKind::FloatLit, x)
}

/// `a - b - c` as the grammar layers it.
fn chain_a_minus_b_minus_c() -> ParseNode {
    node(
        NodeKind::Expr,
        "a - b - c",
        vec![node(
            NodeKind::AddExpr,
            "a - b - c",
            vec![
                node(NodeKind::MulExpr, "a", vec![ident("a")]),
                leaf(NodeKind::AddOp, "-"),
                node(NodeKind::MulExpr, "b", vec![ident("b")]),
                leaf(NodeKind::AddOp, "-"),
                node(NodeKind::MulExpr, "c", vec![ident("c")]),
            ],
        )],
    )
}

fn stmt(inner: ParseNode) -> ParseNode {
    node(NodeKind::Stmt, "", vec![inner])
}

fn sample_tree() -> Vec<ParseNode> {
    let assign = node(
        NodeKind::AssignStmt,
        "x = a - b - c;",
        vec![ident("x"), chain_a_minus_b_minus_c()],
    );
    let decl = node(
        NodeKind::DeclStmt,
        "Cart3.Point<World> p = -q;",
        vec![
            leaf(NodeKind::Other, "Cart3.Point<World>"),
            ident("p"),
            node(NodeKind::Unary, "-q", vec![leaf(NodeKind::Other, "-"), ident("q")]),
        ],
    );
    let compound = node(
        NodeKind::CompoundAssignStmt,
        "color.g += max(t, 0.5);",
        vec![
            ident("color"),
            leaf(NodeKind::Other, "g"),
            node(
                NodeKind::CallExpr,
                "max(t, 0.5)",
                vec![ident("max"), ident("t"), float("0.5")],
            ),
        ],
    );
    let swz = node(
        NodeKind::AssignStmt,
        "y = v.z;",
        vec![ident("y"), node(NodeKind::SwizzleExpr, "v.z", vec![ident("v"), leaf(NodeKind::Other, "z")])],
    );
    let main_fn = node(
        NodeKind::MainFn,
        "",
        vec![leaf(NodeKind::Other, "main"), stmt(assign), stmt(decl), stmt(compound), stmt(swz)],
    );
    let program = node(
        NodeKind::Program,
        "",
        vec![leaf(NodeKind::Other, "precision mediump float;"), main_fn, leaf(NodeKind::Other, "")],
    );
    vec![program]
}

fn show(e: &Expr) -> String {
    match e {
        Expr::Float(t) => t.clone(),
        Expr::Ident(n) => n.clone(),
        Expr::Swizzle { name, field } => format!("{name}.{field}"),
        Expr::BinOp { op, left, right } => format!("({} {} {})", show(left), op, show(right)),
        Expr::Call { name, args } => {
            format!("{}[{}]", name, args.iter().map(show).collect::<Vec<_>>().join(","))
        }
    }
}

#[test]
fn parse_program_reads_main_statements() {
    let tree = sample_tree();
    assert!(program_shape_valid(&tree));
    let program = parse_program(&tree);
    assert!(program.decls.is_empty());
    assert_eq!(program.stmts.len(), 4);
    match &program.stmts[0] {
        Stmt::Assign { name, expr } => {
            assert_eq!(name, "x");
            assert_eq!(show(expr), "((a - b) - c)");
        }
        other => panic!("unexpected {other:?}"),
    }
    match &program.stmts[1] {
        Stmt::Decl { ty, name, expr } => {
            assert_eq!(ty, "Cart3.Point<World>");
            assert_eq!(name, "p");
            assert_eq!(show(expr), "(-1.0 * q)");
        }
        other => panic!("unexpected {other:?}"),
    }
    match &program.stmts[2] {
        Stmt::SwizzleAssign { name, field, expr } => {
            assert_eq!(name, "color");
            assert_eq!(field, "g");
            assert_eq!(show(expr), "max[t,0.5]");
        }
        other => panic!("unexpected {other:?}"),
    }
    match &program.stmts[3] {
        Stmt::Assign { expr, .. } => assert_eq!(show(expr), "v.z"),
        other => panic!("unexpected {other:?}"),
    }
}

#[test]
fn parse_program_mul_chain_binds_left() {
    let e = node(
        NodeKind::MulExpr,
        "a * b / c",
        vec![ident("a"), leaf(NodeKind::MulOp, "*"), ident("b"), leaf(NodeKind::MulOp, "/"), ident("c")],
    );
    let assign = node(NodeKind::AssignStmt, "", vec![ident("r"), e]);
    let tree = vec![node(
        NodeKind::Program,
        "",
        vec![node(NodeKind::MainFn, "", vec![stmt(assign)])],
    )];
    let program = parse_program(&tree);
    match &program.stmts[0] {
        Stmt::Assign { expr, .. } => assert_eq!(show(expr), "((a * b) / c)"),
        other => panic!("unexpected {other:?}"),
    }
}

#[test]
fn program_shape_rejects_malformed_trees() {
    assert!(!program_shape_valid(&vec![]));
    let bad_stmt = stmt(node(NodeKind::AssignStmt, "", vec![ident("x")]));
    let tree = vec![node(NodeKind::Program, "", vec![node(NodeKind::MainFn, "", vec![bad_stmt])])];
    assert!(!program_shape_valid(&tree));
    let bad_op = stmt(node(
        NodeKind::AssignStmt,
        "",
        vec![ident("x"), node(NodeKind::AddExpr, "", vec![ident("a"), leaf(NodeKind::AddOp, ""), ident("b")])],
    ));
    let tree = vec![node(NodeKind::Program, "", vec![node(NodeKind::MainFn, "", vec![bad_op])])];
    assert!(!program_shape_valid(&tree));
    // Statements outside main() are not read, so their shape does not matter.
    let outside = vec![node(NodeKind::Program, "", vec![node(NodeKind::Stmt, "", vec![])])];
    assert!(program_shape_valid(&outside));
    assert_eq!(parse_program(&outside).stmts.len(), 0);
}

fn bin(op: char, l: Expr, r: Expr) -> Expr {
    Expr::BinOp { op, left: Box::new(l), right: Box::new(r) }
}

fn id(x: &str) -> Expr {
    Expr::Ident(s(x))
}

fn messages(program: &Program) -> Vec<String> {
    check(program).into_iter().map(|e| e.message).collect()
}

fn frames_program(stmts: Vec<Stmt>) -> Program {
    Program {
        decls: vec![
            TopDecl::Precision { qual: s("mediump"), ty: s("float") },
            TopDecl::Uniform { ty: s("Hom4.Matrix<Model, World>"), name: s("uModel") },
            TopDecl::Uniform { ty: s("Hom4.Matrix<World, View>"), name: s("uView") },
            TopDecl::Varying { ty: s("Hom4.Point<Model>"), name: s("vPos") },
            TopDecl::Varying { ty: s("Hom4.Point<World>"), name: s("vWorld") },
            TopDecl::Uniform { ty: s("vec3"), name: s("uTint") },
        ],
        stmts,
    }
}

#[test]
fn check_accepts_consistent_frames() {
    let program = frames_program(vec![
        Stmt::Decl { ty: s("Hom4.Point<World>"), name: s("w"), expr: bin('*', id("uModel"), id("vPos")) },
        Stmt::Decl {
            ty: s("Hom4.Matrix<Model, View>"),
            name: s("mv"),
            expr: bin('*', id("uModel"), id("uView")),
        },
        Stmt::Assign { name: s("w"), expr: bin('*', Expr::Float(s("2.0")), id("w")) },
        Stmt::Assign { name: s("gl_FragColor"), expr: bin('+', id("uTint"), Expr::Float(s("1.0"))) },
    ]);
    assert!(messages(&program).is_empty());
}

#[test]
fn check_reports_transform_frame_mismatch() {
    let program = frames_program(vec![Stmt::Decl {
        ty: s("Hom4.Point<World>"),
        name: s("w"),
        expr: bin('*', id("uModel"), id("vWorld")),
    }]);
    assert_eq!(
        messages(&program),
        vec![s("frame mismatch in multiplication: matrix input 'Model' but vector frame 'World'")]
    );
}

#[test]
fn check_reports_matrix_composition_mismatch() {
    let program = frames_program(vec![Stmt::Assign {
        name: s("x"),
        expr: bin('*', id("uView"), id("uModel")),
    }]);
    assert_eq!(messages(&program), vec![s("frame mismatch in matrix * matrix: 'View' != 'Model'")]);
}

#[test]
fn check_reports_addition_and_declaration_mismatch() {
    let program = frames_program(vec![Stmt::Decl {
        ty: s("Hom4.Point<Model>"),
        name: s("p"),
        expr: bin('+', id("vPos"), id("vWorld")),
    }]);
    assert_eq!(
        messages(&program),
        vec![s(
            "type mismatch in addition: Gator { scheme: \"Hom4\", subtype: Some(\"Point\"), frames: [\"Model\"] } + Gator { scheme: \"Hom4\", subtype: Some(\"Point\"), frames: [\"World\"] }"
        )]
    );
    let program = frames_program(vec![Stmt::Decl {
        ty: s("Hom4.Point<Model>"),
        name: s("p"),
        expr: id("vWorld"),
    }]);
    assert_eq!(
        messages(&program),
        vec![s(
            "type mismatch for 'p': declared Gator { scheme: \"Hom4\", subtype: Some(\"Point\"), frames: [\"Model\"] } but expression has type Gator { scheme: \"Hom4\", subtype: Some(\"Point\"), frames: [\"World\"] }"
        )]
    );
}

#[test]
fn check_reports_mixing_annotated_and_plain() {
    let program = frames_program(vec![Stmt::Assign { name: s("z"), expr: bin('*', id("uTint"), id("vPos")) }]);
    assert_eq!(
        messages(&program),
        vec![s(
            "cannot multiply Plain(\"vec3\") by Gator { scheme: \"Hom4\", subtype: Some(\"Point\"), frames: [\"Model\"] }: cannot mix annotated and unannotated types"
        )]
    );
}

#[test]
fn check_errors_come_in_order_and_unknowns_are_silent() {
    let program = frames_program(vec![
        Stmt::Assign { name: s("a"), expr: bin('*', id("uView"), id("uModel")) },
        Stmt::Assign { name: s("b"), expr: bin('+', id("undeclared"), id("vPos")) },
        Stmt::SwizzleAssign {
            name: s("c"),
            field: s("x"),
            expr: bin('*', id("uModel"), id("vWorld")),
        },
        Stmt::Assign {
            name: s("d"),
            expr: Expr::Call { name: s("f"), args: vec![bin('*', id("uView"), id("uModel"))] },
        },
    ]);
    assert_eq!(
        messages(&program),
        vec![
            s("frame mismatch in matrix * matrix: 'View' != 'Model'"),
            s("frame mismatch in multiplication: matrix input 'Model' but vector frame 'World'"),
        ]
    );
}

#[test]
fn check_plain_shader_has_no_errors() {
    let program = Program {
        decls: vec![TopDecl::Uniform { ty: s("vec4"), name: s("c") }],
        stmts: vec![
            Stmt::Decl { ty: s("vec3"), name: s("v"), expr: bin('*', id("c"), id("c")) },
            Stmt::Assign { name: s("gl_FragColor"), expr: bin('-', id("v"), Expr::Float(s("0.5"))) },
        ],
    };
    assert!(messages(&program).is_empty());
}

#[test]
fn type_map_keeps_latest_binding() {
    let mut m = TypeMap::new();
    assert_eq!(m.get(&s("x")), None);
    m.insert(s("x"), GatorType::Plain(s("float")));
    m.insert(s("y"), GatorType::Unknown);
    m.insert(s("x"), GatorType::Plain(s("vec3")));
    assert_eq!(m.get(&s("x")), Some(GatorType::Plain(s("vec3"))));
    assert_eq!(m.get(&s("y")), Some(GatorType::Unknown));
}

#[test]
fn swizzle_letters() {
    for (a, b, i) in [("x", "r", 0), ("y", "g", 1), ("z", "b", 2), ("w", "a", 3)] {
        assert_eq!(swizzle_index(a), i);
        assert_eq!(swizzle_index(b), i);
        assert!(is_swizzle_field(a) && is_swizzle_field(b));
    }
    assert!(!is_swizzle_field("q"));
    assert!(!is_swizzle_field("xy"));
    assert!(!is_swizzle_field(""));
}

#[test]
fn binop_rules() {
    assert_eq!(binop_rule('/', Float, Float), Some(BinOpRule::Scalar(Arith::Div)));
    assert_eq!(binop_rule('%', Float, Float), None);
    assert_eq!(binop_rule('*', Float, Vec3), Some(BinOpRule::ScaleVec3 { scalar_left: true }));
    assert_eq!(binop_rule('*', Vec3, Float), Some(BinOpRule::ScaleVec3 { scalar_left: false }));
    assert_eq!(binop_rule('+', Float, Vec3), None);
    assert_eq!(binop_rule('-', Vec3, Vec3), Some(BinOpRule::Vec3Sub));
    assert_eq!(binop_rule('*', Vec3, Vec3), None);
    assert_eq!(binop_rule('*', Mat4, Vec4), Some(BinOpRule::Mat4Vec4));
    assert_eq!(binop_rule('*', Mat4, Mat4), Some(BinOpRule::Mat4Mat4));
    assert_eq!(binop_rule('*', Vec4, Mat4), None);
    assert_eq!(binop_rule('+', Vec4, Vec4), None);
}

#[test]
fn call_rules() {
    assert_eq!(call_rule("vec3", &vec![Float, Float, Float]), Some(CallRule::Vec3FromFloats));
    assert_eq!(call_rule("vec3", &vec![Float, Vec3, Float]), None);
    assert_eq!(call_rule("vec3", &vec![Vec4]), Some(CallRule::Vec3FromVec4));
    assert_eq!(call_rule("vec3", &vec![]), None);
    assert_eq!(call_rule("vec4", &vec![Vec3, Float]), Some(CallRule::Vec4FromVec3));
    assert_eq!(call_rule("vec4", &vec![Float, Float, Float, Float]), Some(CallRule::Vec4FromFloats));
    assert_eq!(call_rule("vec4", &vec![Float, Float]), None);
    assert_eq!(call_rule("normalize", &vec![Vec3, Float]), Some(CallRule::Normalize));
    assert_eq!(call_rule("dot", &vec![Vec3, Vec3]), Some(CallRule::Dot));
    assert_eq!(call_rule("reflect", &vec![Vec3, Vec3]), Some(CallRule::Reflect));
    assert_eq!(call_rule("reflect", &vec![Vec3]), None);
    assert_eq!(call_rule("max", &vec![Float, Float]), Some(CallRule::Max));
    assert_eq!(call_rule("pow", &vec![Float, Vec3]), None);
    assert_eq!(call_rule("sin", &vec![Float]), None);
}

fn gator(scheme: &str, subtype: Option<&str>, frames: &[&str]) -> GatorType {
    GatorType::Gator {
        scheme: s(scheme),
        subtype: subtype.map(s),
        frames: frames.iter().map(|f| s(f)).collect(),
    }
}

#[test]
fn debug_text_matches_debug_rendering() {
    let types = vec![
        GatorType::Plain(s("vec3")),
        GatorType::Unknown,
        gator("Hom4", Some("Matrix"), &["Model", "World"]),
        gator("Cart3", None, &[]),
        gator("Cart3", Some("Po\"int"), &["W\\x", "\u{1}", "é"]),
        GatorType::Plain(s("tab\there")),
    ];
    for t in &types {
        assert_eq!(debug_text(t), format!("{:?}", t));
    }
    assert_eq!(debug_text(&gator("Cart3", None, &["A"])), "Gator { scheme: \"Cart3\", subtype: None, frames: [\"A\"] }");
}

#[test]
fn operator_rules_unknown_absorbs_and_scaling() {
    let g = gator("Cart3", Some("Point"), &["World"]);
    let f = GatorType::Plain(s("float"));
    let mut errors: Vec<TypeError> = Vec::new();
    for t in [g.clone(), f.clone(), GatorType::Unknown] {
        assert_eq!(check_add(&GatorType::Unknown, &t, &mut errors), GatorType::Unknown);
        assert_eq!(check_add(&t, &GatorType::Unknown, &mut errors), GatorType::Unknown);
        assert_eq!(check_mul(&GatorType::Unknown, &t, &mut errors), GatorType::Unknown);
        assert_eq!(check_mul(&t, &GatorType::Unknown, &mut errors), GatorType::Unknown);
    }
    assert!(errors.is_empty());
    assert_eq!(check_mul(&f, &g, &mut errors), g);
    assert_eq!(check_mul(&g, &f, &mut errors), g);
    assert!(errors.is_empty());
    assert_eq!(check_mul(&GatorType::Plain(s("vec3")), &g, &mut errors), GatorType::Unknown);
    assert_eq!(errors.len(), 1);
    assert_eq!(check_add(&g, &gator("Cart3", Some("Point"), &["Model"]), &mut errors), GatorType::Unknown);
    assert_eq!(errors.len(), 2);
    check_compatible(&GatorType::Plain(s("vec4")), &GatorType::Plain(s("float")), &s("x"), &mut errors);
    assert_eq!(errors.len(), 2);
}

#[test]
fn input_kinds() {
    assert_eq!(input_kind("light", InputShape::Number), Some(ValueKind::Float));
    assert_eq!(input_kind("light", InputShape::Array { numbers: 3 }), Some(ValueKind::Vec3));
    assert_eq!(input_kind("light", InputShape::Array { numbers: 4 }), Some(ValueKind::Vec4));
    assert_eq!(input_kind("light", InputShape::Array { numbers: 2 }), None);
    assert_eq!(input_kind("light", InputShape::Other), None);
    assert_eq!(input_kind("expected_output", InputShape::Array { numbers: 4 }), None);
    assert_eq!(input_kind("expected_output", InputShape::Number), None);
}

#[test]
fn swizzle_slots() {
    assert_eq!(read_slot(Some(Vec3), "b"), Some(2));
    assert_eq!(read_slot(Some(Vec3), "w"), None);
    assert_eq!(read_slot(Some(Vec4), "a"), Some(3));
    assert_eq!(read_slot(Some(Float), "x"), None);
    assert_eq!(read_slot(None, "x"), None);
    assert_eq!(read_slot(Some(Vec4), "q"), None);
    assert_eq!(update_slot(Some(Vec3), "g"), Some(1));
    assert_eq!(update_slot(Some(Vec3), "a"), None);
    assert_eq!(update_slot(Some(Vec4), "x"), None);
    assert_eq!(update_slot(None, "x"), None);
    assert_eq!(update_slot(Some(Mat4), "x"), None);
}

#[test]
fn statement_targets() {
    let e = Expr::Float(s("1.0"));
    assert_eq!(stmt_target(&Stmt::Assign { name: s("a"), expr: e }), Target::Value { name: s("a") });
    let e = Expr::Float(s("1.0"));
    assert_eq!(
        stmt_target(&Stmt::Decl { ty: s("vec3"), name: s("b"), expr: e }),
        Target::Declared { name: s("b"), ty: s("vec3") }
    );
    let e = Expr::Float(s("1.0"));
    assert_eq!(
        stmt_target(&Stmt::SwizzleAssign { name: s("c"), field: s("g"), expr: e }),
        Target::Component { name: s("c"), field: s("g") }
    );
}
