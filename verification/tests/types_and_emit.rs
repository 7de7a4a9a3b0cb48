use glsl_interpreter::ast::{Expr, Program, Stmt, TopDecl};
use glsl_interpreter::emitter::{emit, gator_to_glsl};
use glsl_interpreter::text::{split_str, strip_trailing_str, trim_str};
use glsl_interpreter::types::{is_plain_type_name, parse_gator_type, GatorType};

fn s(x: &str) -> String {
    x.to_string()
}

fn gator(scheme: &str, subtype: Option<&str>, frames: &[&str]) -> GatorType {
    GatorType::Gator {
        scheme: s(scheme),
        subtype: subtype.map(s),
        frames: frames.iter().map(|f| s(f)).collect(),
    }
}

#[test]
fn parse_gator_type_point_in_world() {
    assert_eq!(parse_gator_type("Cart3.Point<World>"), gator("Cart3", Some("Point"), &["World"]));
}

#[test]
fn parse_gator_type_plain_names() {
    for p in ["float", "vec2", "vec3", "vec4", "mat3", "mat4"] {
        assert_eq!(parse_gator_type(p), GatorType::Plain(s(p)));
        assert!(is_plain_type_name(p));
    }
    assert!(!is_plain_type_name("vec5"));
}

#[test]
fn parse_gator_type_unrecognized_is_unknown() {
    assert_eq!(parse_gator_type("Cart3.Point"), GatorType::Unknown);
    assert_eq!(parse_gator_type("int"), GatorType::Unknown);
    assert_eq!(parse_gator_type(""), GatorType::Unknown);
}

#[test]
fn parse_gator_type_matrix_frames_are_trimmed() {
    assert_eq!(
        parse_gator_type("Hom4.Matrix< Model ,  World >"),
        gator("Hom4", Some("Matrix"), &["Model", "World"])
    );
}

#[test]
fn parse_gator_type_without_subtype() {
    assert_eq!(parse_gator_type(" Color3 <Light>"), gator("Color3", None, &["Light"]));
}

#[test]
fn parse_gator_type_keeps_empty_frames() {
    assert_eq!(parse_gator_type("Cart3<>"), gator("Cart3", None, &[""]));
    assert_eq!(parse_gator_type("Cart3<A,>>"), gator("Cart3", None, &["A", ""]));
}

#[test]
fn gator_to_glsl_maps_schemes() {
    assert_eq!(gator_to_glsl("Cart3.Point<World>"), "vec3");
    assert_eq!(gator_to_glsl("Color3<Light>"), "vec3");
    assert_eq!(gator_to_glsl("Cart2.Vec<Screen>"), "vec2");
    assert_eq!(gator_to_glsl("Color4<Out>"), "vec4");
    assert_eq!(gator_to_glsl("Hom4.Matrix<Model,World>"), "mat4");
    assert_eq!(gator_to_glsl("Hom4.InvTrMatrix<Model,World>"), "mat4");
    assert_eq!(gator_to_glsl("Hom4.Point<World>"), "vec4");
    assert_eq!(gator_to_glsl("mat3"), "mat3");
    assert_eq!(gator_to_glsl("sampler2D"), "sampler2D");
}

#[test]
fn text_helpers() {
    assert_eq!(trim_str("  a b\t\n"), "a b");
    assert_eq!(trim_str("\u{3000}x\u{85}"), "x");
    assert_eq!(strip_trailing_str("A>>>", '>'), "A");
    assert_eq!(split_str("a,b,,c", ','), vec![s("a"), s("b"), s(""), s("c")]);
    assert_eq!(split_str("", ','), vec![s("")]);
}

#[test]
fn emit_whole_program() {
    let program = Program {
        decls: vec![
            TopDecl::Precision { qual: s("mediump"), ty: s("float") },
            TopDecl::Uniform { ty: s("Hom4.Matrix<Model,World>"), name: s("uModel") },
            TopDecl::Varying { ty: s("Cart3.Normal<World>"), name: s("vNormal") },
        ],
        stmts: vec![
            Stmt::Decl {
                ty: s("Cart3.Vec<World>"),
                name: s("n"),
                expr: Expr::Call { name: s("normalize"), args: vec![Expr::Ident(s("vNormal"))] },
            },
            Stmt::Assign {
                name: s("gl_FragColor"),
                expr: Expr::Call {
                    name: s("vec4"),
                    args: vec![
                        Expr::BinOp {
                            op: '*',
                            left: Box::new(Expr::Float(s("0.5"))),
                            right: Box::new(Expr::Ident(s("n"))),
                        },
                        Expr::Float(s("1.0")),
                    ],
                },
            },
            Stmt::SwizzleAssign {
                name: s("color"),
                field: s("g"),
                expr: Expr::Swizzle { name: s("n"), field: s("x") },
            },
        ],
    };
    assert_eq!(
        emit(&program),
        "precision mediump float;\n\
         uniform mat4 uModel;\n\
         varying vec3 vNormal;\n\
         \n\
         void main() {\n    \
         vec3 n = normalize(vNormal);\n    \
         gl_FragColor = vec4((0.5 * n), 1.0);\n    \
         color.g += n.x;\n\
         }\n"
    );
}

#[test]
fn emit_empty_program() {
    let program = Program { decls: vec![], stmts: vec![] };
    assert_eq!(emit(&program), "\nvoid main() {\n}\n");
}

#[test]
fn checker_and_emitter_agree_on_schemes() {
    for (ty, scheme, glsl) in [
        ("Cart3.Point<World>", "Cart3", "vec3"),
        ("Color3<Light>", "Color3", "vec3"),
        ("Cart2.Dir<Screen>", "Cart2", "vec2"),
        ("Color4<Out>", "Color4", "vec4"),
    ] {
        match parse_gator_type(ty) {
            GatorType::Gator { scheme: s, .. } => assert_eq!(s, scheme),
            other => panic!("unexpected {other:?}"),
        }
        assert_eq!(gator_to_glsl(ty), glsl);
    }
    for p in ["float", "vec2", "vec3", "vec4", "mat3", "mat4"] {
        assert_eq!(parse_gator_type(p), GatorType::Plain(s(p)));
        assert_eq!(gator_to_glsl(p), p);
    }
}
