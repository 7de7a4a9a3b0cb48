//! What each operation is for, stated over all inputs: the checker's rules,
//! the emitter's grouping, and the interpreter's choice of operation.
use vstd::prelude::*;

use crate::ast::{
    args_of, arity, child, expr_of, main_stmts_of, stmt_of, stmts_of, ExprModel, NodeKind, ParseNode, StmtModel,
    TopDeclModel,
};
use crate::emitter::{
    args_text, body_text, decl_text, decls_text, expr_text, glsl_type, program_text, stmt_text,
};
use crate::interpreter::{
    binop_rule_of, call_rule_of, input_kind_of, read_slot_of, swizzle_slot, target_of,
    update_slot_of, Arith, TargetModel, BinOpRule, CallRule, InputShape, ValueKind,
};
use crate::typechecker::{
    add_rule, compatible_rule, decls_env, infer_rule, mul_rule, stmt_rule, stmts_rule, TypeEnv,
};
use crate::types::{type_of_annotation, TypeModel};

verus! {

// ---------------------------------------------------------------------------
// The checker

/// Adding two operands of the same type gives that type and reports nothing.
pub proof fn law_add_same_type(t: TypeModel)
    ensures
        add_rule(t, t) == (t, Seq::<Seq<char>>::empty()),
{
}

/// Adding two different Gator types is an error: the result is unknown and
/// exactly one error is reported, whichever operand comes first.
pub proof fn law_add_different_frames(lt: TypeModel, rt: TypeModel)
    requires
        lt is Gator,
        rt is Gator,
        lt != rt,
    ensures
        add_rule(lt, rt).0 is Unknown,
        add_rule(lt, rt).1.len() == 1,
        add_rule(rt, lt).0 is Unknown,
        add_rule(rt, lt).1.len() == 1,
{
}

/// An addition either fails with an unknown result or gives the type of one
/// of its operands; it reports an error exactly when it would mix two known
/// types that are neither both plain nor equal.
pub proof fn law_add_result_is_an_operand(lt: TypeModel, rt: TypeModel)
    ensures
        add_rule(lt, rt).0 is Unknown || add_rule(lt, rt).0 == lt || add_rule(lt, rt).0 == rt,
        add_rule(lt, rt).1.len() == 1 <==> (!(lt is Unknown) && !(rt is Unknown) && !(lt is Plain
            && rt is Plain) && lt != rt),
        add_rule(lt, rt).1.len() <= 1,
{
}

/// Multiplying two plain types gives the plain type `unannotated` without error.
pub proof fn law_mul_plain(l: Seq<char>, r: Seq<char>)
    ensures
        mul_rule(TypeModel::Plain(l), TypeModel::Plain(r)) == (
            TypeModel::Plain("unannotated"@),
            Seq::<Seq<char>>::empty(),
        ),
{
}

/// A Gator value multiplied by a plain type other than `float`, on either
/// side, is an error: the result is unknown and one error is reported.
pub proof fn law_mul_mixed_is_error(g: TypeModel, p: Seq<char>)
    requires
        g is Gator,
        p != "float"@,
    ensures
        mul_rule(g, TypeModel::Plain(p)).0 is Unknown,
        mul_rule(g, TypeModel::Plain(p)).1.len() == 1,
        mul_rule(TypeModel::Plain(p), g).0 is Unknown,
        mul_rule(TypeModel::Plain(p), g).1.len() == 1,
{
}

/// Assigning a value of the declared type, or of any type to a name whose
/// type is unknown, reports nothing; assigning a known type different from a
/// declared Gator type reports one error.
pub proof fn law_assign_compatible(declared: TypeModel, inferred: TypeModel, name: Seq<char>)
    ensures
        compatible_rule(declared, declared, name) == Seq::<Seq<char>>::empty(),
        compatible_rule(TypeModel::Unknown, inferred, name) == Seq::<Seq<char>>::empty(),
        compatible_rule(declared, TypeModel::Unknown, name) == Seq::<Seq<char>>::empty(),
        declared is Gator && !(inferred is Unknown) && declared != inferred ==> compatible_rule(
            declared,
            inferred,
            name,
        ).len() == 1,
{
}

/// Declaring a name with the type of a variable it is initialized from, or
/// with the type of the sum of two variables of that type, reports nothing
/// and binds the name to that type.
pub proof fn law_declare_from_same_type(
    env: TypeEnv,
    ty: Seq<char>,
    name: Seq<char>,
    a: Seq<char>,
    b: Seq<char>,
)
    requires
        env.contains_key(a),
        env.contains_key(b),
        env[a] == type_of_annotation(ty),
        env[b] == type_of_annotation(ty),
    ensures
        ({
            let s = StmtModel::Decl { ty, name, expr: ExprModel::Ident(a) };
            stmt_rule(s, env) == (env.insert(name, type_of_annotation(ty)), Seq::<Seq<char>>::empty())
        }),
        ({
            let sum = ExprModel::BinOp {
                op: '+',
                left: Box::new(ExprModel::Ident(a)),
                right: Box::new(ExprModel::Ident(b)),
            };
            let s = StmtModel::Decl { ty, name, expr: sum };
            stmt_rule(s, env) == (env.insert(name, type_of_annotation(ty)), Seq::<Seq<char>>::empty())
        }),
{
    let t = type_of_annotation(ty);
    let e: Seq<Seq<char>> = Seq::empty();
    law_add_same_type(t);
    let sum = ExprModel::BinOp {
        op: '+',
        left: Box::new(ExprModel::Ident(a)),
        right: Box::new(ExprModel::Ident(b)),
    };
    assert(crate::typechecker::infer_rule(ExprModel::Ident(a), env) == (t, e));
    assert(crate::typechecker::infer_rule(ExprModel::Ident(b), env) == (t, e));
    assert(crate::typechecker::infer_rule(sum, env) == (t, e + e + e));
    law_assign_compatible(t, t, name);
    assert(Seq::<Seq<char>>::empty() + Seq::<Seq<char>>::empty() =~= Seq::<Seq<char>>::empty());
    assert(Seq::<Seq<char>>::empty() + Seq::<Seq<char>>::empty() + Seq::<Seq<char>>::empty()
        =~= Seq::<Seq<char>>::empty());
}

// ---------------------------------------------------------------------------
// The emitter

/// Every binary operation, whatever its operator, is written inside one pair
/// of parentheses around its left operand, the operator and its right
/// operand; so the emitted GLSL keeps the tree's grouping.
pub proof fn law_binop_parenthesized(e: ExprModel)
    requires
        e is BinOp,
    ensures
        ({
            let t = expr_text(e);
            let l = expr_text(*e->left);
            let r = expr_text(*e->right);
            let n = l.len() as int;
            let m = r.len() as int;
            &&& t.len() == l.len() + r.len() + 5
            &&& t[0] == '('
            &&& t.last() == ')'
            &&& t.subrange(1, n + 1) == l
            &&& t.subrange(n + 1, n + 4) == seq![' ', e->op, ' ']
            &&& t.subrange(n + 4, n + 4 + m) == r
        }),
{
    reveal_strlit("(");
    reveal_strlit(")");
    let t = expr_text(e);
    let l = expr_text(*e->left);
    let r = expr_text(*e->right);
    let n = l.len() as int;
    let m = r.len() as int;
    assert(t == "("@ + l + seq![' ', e->op, ' '] + r + ")"@);
    assert(t.subrange(1, n + 1) =~= l);
    assert(t.subrange(n + 1, n + 4) =~= seq![' ', e->op, ' ']);
    assert(t.subrange(n + 4, n + 4 + m) =~= r);
}

/// Every statement is written as text ending in `;`.
pub proof fn law_stmt_ends_with_semicolon(s: StmtModel)
    ensures
        stmt_text(s).len() >= 1,
        stmt_text(s).last() == ';',
{
    reveal_strlit(";");
}

// ---------------------------------------------------------------------------
// The interpreter

/// The operator symbol that a scalar operation carries out.
pub open spec fn arith_symbol(a: Arith) -> char {
    match a {
        Arith::Add => '+',
        Arith::Sub => '-',
        Arith::Mul => '*',
        Arith::Div => '/',
    }
}

/// The operator symbol that an operation carries out.
pub open spec fn rule_symbol(r: BinOpRule) -> char {
    match r {
        BinOpRule::Scalar(a) => arith_symbol(a),
        BinOpRule::ScaleVec3 { .. } => '*',
        BinOpRule::Vec3Add => '+',
        BinOpRule::Vec3Sub => '-',
        BinOpRule::Mat4Vec4 => '*',
        BinOpRule::Mat4Mat4 => '*',
    }
}

/// The kind of value an operation produces.
pub open spec fn rule_result(r: BinOpRule) -> ValueKind {
    match r {
        BinOpRule::Scalar(_) => ValueKind::Float,
        BinOpRule::ScaleVec3 { .. } => ValueKind::Vec3,
        BinOpRule::Vec3Add => ValueKind::Vec3,
        BinOpRule::Vec3Sub => ValueKind::Vec3,
        BinOpRule::Mat4Vec4 => ValueKind::Vec4,
        BinOpRule::Mat4Mat4 => ValueKind::Mat4,
    }
}

/// An operator always selects an operation that carries out that very
/// operator; on two floats every one of `+ - * /` has its scalar operation.
pub proof fn law_operator_selects_its_operation(op: char, l: ValueKind, r: ValueKind)
    ensures
        binop_rule_of(op, l, r) matches Some(rule) ==> rule_symbol(rule) == op,
        (op == '+' || op == '-' || op == '*' || op == '/') ==> (binop_rule_of(
            op,
            ValueKind::Float,
            ValueKind::Float,
        ) matches Some(BinOpRule::Scalar(a)) && arith_symbol(a) == op),
{
}

/// What an operation produces: two floats give a float, a vec3 with a float
/// or a vec3 gives a vec3, a mat4 applied to a vec4 gives a vec4, and two
/// mat4s give a mat4; a vec3 is only added, subtracted or scaled.
pub proof fn law_operation_kinds(op: char, l: ValueKind, r: ValueKind)
    ensures
        binop_rule_of(op, l, r) matches Some(rule) ==> {
            &&& (l == ValueKind::Float && r == ValueKind::Float) ==> rule_result(rule) == ValueKind::Float
            &&& (l == ValueKind::Vec3 || r == ValueKind::Vec3) ==> rule_result(rule) == ValueKind::Vec3
            &&& r == ValueKind::Vec4 ==> rule_result(rule) == ValueKind::Vec4 && l == ValueKind::Mat4
            &&& (l == ValueKind::Mat4 && r == ValueKind::Mat4) ==> rule_result(rule) == ValueKind::Mat4
        },
        (l == ValueKind::Vec3 && r == ValueKind::Vec3) ==> (binop_rule_of(op, l, r) is Some <==> (op
            == '+' || op == '-')),
{
}

/// The built-in function whose computation a call rule is.
pub open spec fn rule_name(r: CallRule) -> Seq<char> {
    match r {
        CallRule::Vec3FromFloats => "vec3"@,
        CallRule::Vec3FromVec4 => "vec3"@,
        CallRule::Vec4FromVec3 => "vec4"@,
        CallRule::Vec4FromFloats => "vec4"@,
        CallRule::Normalize => "normalize"@,
        CallRule::Dot => "dot"@,
        CallRule::Reflect => "reflect"@,
        CallRule::Max => "max"@,
        CallRule::Pow => "pow"@,
    }
}

/// A call never resolves to the computation of another built-in.
pub proof fn law_call_keeps_its_name(name: Seq<char>, kinds: Seq<ValueKind>)
    ensures
        call_rule_of(name, kinds) matches Some(r) ==> rule_name(r) == name,
{
}

/// Every built-in, called with the arguments it documents, gets its computation.
pub proof fn law_builtins_resolve(kinds: Seq<ValueKind>)
    ensures
        kinds.len() >= 2 && kinds[0] == ValueKind::Float && kinds[1] == ValueKind::Float ==> {
            &&& call_rule_of("pow"@, kinds) == Some(CallRule::Pow)
            &&& call_rule_of("max"@, kinds) == Some(CallRule::Max)
        },
        kinds.len() >= 2 && kinds[0] == ValueKind::Vec3 && kinds[1] == ValueKind::Vec3 ==> {
            &&& call_rule_of("dot"@, kinds) == Some(CallRule::Dot)
            &&& call_rule_of("reflect"@, kinds) == Some(CallRule::Reflect)
        },
        kinds.len() >= 1 && kinds[0] == ValueKind::Vec3 ==> call_rule_of("normalize"@, kinds)
            == Some(CallRule::Normalize),
        kinds == seq![ValueKind::Float, ValueKind::Float, ValueKind::Float] ==> call_rule_of(
            "vec3"@,
            kinds,
        ) == Some(CallRule::Vec3FromFloats),
        kinds == seq![ValueKind::Vec4] ==> call_rule_of("vec3"@, kinds) == Some(
            CallRule::Vec3FromVec4,
        ),
        kinds == seq![ValueKind::Vec3, ValueKind::Float] ==> call_rule_of("vec4"@, kinds) == Some(
            CallRule::Vec4FromVec3,
        ),
        kinds == seq![ValueKind::Float, ValueKind::Float, ValueKind::Float, ValueKind::Float]
            ==> call_rule_of("vec4"@, kinds) == Some(CallRule::Vec4FromFloats),
{
    reveal_strlit("vec3");
    reveal_strlit("vec4");
    reveal_strlit("normalize");
    reveal_strlit("dot");
    reveal_strlit("reflect");
    reveal_strlit("max");
    reveal_strlit("pow");
    assert("vec3"@[3] != "vec4"@[3]);
    assert("dot"@[0] != "max"@[0]);
    assert("dot"@[0] != "pow"@[0]);
    assert("max"@[0] != "pow"@[0]);
    assert("reflect"@ != "vec3"@ && "reflect"@ != "vec4"@ && "reflect"@ != "normalize"@ && "reflect"@
        != "dot"@) by {
        assert("reflect"@.len() != "vec3"@.len());
        assert("reflect"@.len() != "normalize"@.len());
        assert("reflect"@.len() != "dot"@.len());
    }
    if kinds == seq![ValueKind::Float, ValueKind::Float, ValueKind::Float, ValueKind::Float] {
        assert(kinds[0] == ValueKind::Float && kinds[1] == ValueKind::Float && kinds[2]
            == ValueKind::Float && kinds[3] == ValueKind::Float);
    }
    if kinds == seq![ValueKind::Float, ValueKind::Float, ValueKind::Float] {
        assert(kinds[0] == ValueKind::Float && kinds[1] == ValueKind::Float && kinds[2]
            == ValueKind::Float);
    }
}

/// The one-letter fields in order of the components they select.
pub open spec fn position_letters() -> Seq<char> {
    seq!['x', 'y', 'z', 'w']
}

/// The one-letter fields in order of the colour channels they select.
pub open spec fn colour_letters() -> Seq<char> {
    seq!['r', 'g', 'b', 'a']
}

/// Each swizzle letter selects the component at its position in `xyzw`, and
/// in `rgba`; no other field selects a component.
pub proof fn law_swizzle_letters(i: int, f: Seq<char>)
    ensures
        0 <= i < 4 ==> swizzle_slot(seq![position_letters()[i]]) == Some(i as nat)
            && swizzle_slot(seq![colour_letters()[i]]) == Some(i as nat),
        swizzle_slot(f) matches Some(k) ==> k < 4 && (f == seq![position_letters()[k as int]] || f
            == seq![colour_letters()[k as int]]),
{
    if 0 <= i < 4 {
        let p = position_letters()[i];
        let c = colour_letters()[i];
        assert(seq![p] =~= seq![p]);
        if i == 0 {
            assert(seq![p] =~= seq!['x']);
            assert(seq![c] =~= seq!['r']);
        } else if i == 1 {
            assert(seq![p] =~= seq!['y']);
            assert(seq![c] =~= seq!['g']);
            assert(seq![p] != seq!['x'] && seq![p] != seq!['r']) by {
                assert(seq![p][0] != seq!['x'][0]);
                assert(seq![p][0] != seq!['r'][0]);
            }
            assert(seq![c] != seq!['x'] && seq![c] != seq!['r']) by {
                assert(seq![c][0] != seq!['x'][0]);
                assert(seq![c][0] != seq!['r'][0]);
            }
        } else if i == 2 {
            assert(seq![p] =~= seq!['z']);
            assert(seq![c] =~= seq!['b']);
            assert(seq![p] != seq!['x'] && seq![p] != seq!['r'] && seq![p] != seq!['y'] && seq![p]
                != seq!['g']) by {
                assert(seq![p][0] != seq!['x'][0]);
                assert(seq![p][0] != seq!['r'][0]);
                assert(seq![p][0] != seq!['y'][0]);
                assert(seq![p][0] != seq!['g'][0]);
            }
            assert(seq![c] != seq!['x'] && seq![c] != seq!['r'] && seq![c] != seq!['y'] && seq![c]
                != seq!['g']) by {
                assert(seq![c][0] != seq!['x'][0]);
                assert(seq![c][0] != seq!['r'][0]);
                assert(seq![c][0] != seq!['y'][0]);
                assert(seq![c][0] != seq!['g'][0]);
            }
        } else {
            assert(seq![p] =~= seq!['w']);
            assert(seq![c] =~= seq!['a']);
            assert(seq![p] != seq!['x'] && seq![p] != seq!['r'] && seq![p] != seq!['y'] && seq![p]
                != seq!['g'] && seq![p] != seq!['z'] && seq![p] != seq!['b']) by {
                assert(seq![p][0] != seq!['x'][0]);
                assert(seq![p][0] != seq!['r'][0]);
                assert(seq![p][0] != seq!['y'][0]);
                assert(seq![p][0] != seq!['g'][0]);
                assert(seq![p][0] != seq!['z'][0]);
                assert(seq![p][0] != seq!['b'][0]);
            }
            assert(seq![c] != seq!['x'] && seq![c] != seq!['r'] && seq![c] != seq!['y'] && seq![c]
                != seq!['g'] && seq![c] != seq!['z'] && seq![c] != seq!['b']) by {
                assert(seq![c][0] != seq!['x'][0]);
                assert(seq![c][0] != seq!['r'][0]);
                assert(seq![c][0] != seq!['y'][0]);
                assert(seq![c][0] != seq!['g'][0]);
                assert(seq![c][0] != seq!['z'][0]);
                assert(seq![c][0] != seq!['b'][0]);
            }
        }
    }
}

/// A vec3 is read and updated in each of its three components, at the index
/// its letter names; a vec4 is read in all four. A slot is only ever the
/// one the field's letter names, and only a vec3 is updated.
pub proof fn law_component_slots(current: Option<ValueKind>, f: Seq<char>)
    ensures
        (swizzle_slot(f) matches Some(i) && i < 3) ==> update_slot_of(Some(ValueKind::Vec3), f)
            == swizzle_slot(f) && read_slot_of(Some(ValueKind::Vec3), f) == swizzle_slot(f),
        swizzle_slot(f) matches Some(i) ==> read_slot_of(Some(ValueKind::Vec4), f) == Some(i),
        update_slot_of(current, f) matches Some(i) ==> swizzle_slot(f) == Some(i) && i < 3
            && current == Some(ValueKind::Vec3),
        read_slot_of(current, f) matches Some(i) ==> swizzle_slot(f) == Some(i),
{
}

/// The number of components of a kind of value.
pub open spec fn components(k: ValueKind) -> nat {
    match k {
        ValueKind::Float => 1,
        ValueKind::Vec3 => 3,
        ValueKind::Vec4 => 4,
        ValueKind::Mat4 => 16,
    }
}

/// An input array is loaded as the vector with as many components as it
/// holds numbers, a number as a float; the `expected_output` entry is never loaded.
pub proof fn law_inputs_keep_their_size(key: Seq<char>, shape: InputShape)
    ensures
        input_kind_of("expected_output"@, shape) is None,
        shape is Array && input_kind_of(key, shape) is Some ==> components(
            input_kind_of(key, shape)->0,
        ) == shape->numbers,
        key != "expected_output"@ && shape is Array && (shape->numbers == 3 || shape->numbers == 4)
            ==> input_kind_of(key, shape) is Some,
        key != "expected_output"@ ==> (shape == InputShape::Number <==> input_kind_of(key, shape)
            == Some(ValueKind::Float)),
{
}

// ---------------------------------------------------------------------------
// Sequences of declarations and statements

/// Checking statements one after another: the messages of `a + b` are those
/// of `a` followed by those of `b` checked with the bindings `a` leaves.
pub proof fn law_check_in_sequence(a: Seq<StmtModel>, b: Seq<StmtModel>, env: TypeEnv)
    ensures
        stmts_rule(a + b, env) == ({
            let (env1, m1) = stmts_rule(a, env);
            let (env2, m2) = stmts_rule(b, env1);
            (env2, m1 + m2)
        }),
    decreases b.len(),
{
    if b.len() == 0 {
        assert(a + b =~= a);
        let m1 = stmts_rule(a, env).1;
        assert(m1 + Seq::<Seq<char>>::empty() =~= m1);
    } else {
        law_check_in_sequence(a, b.drop_last(), env);
        assert((a + b).drop_last() =~= a + b.drop_last());
        assert((a + b).last() == b.last());
        let (env1, m1) = stmts_rule(a, env);
        let m2 = stmts_rule(b.drop_last(), env1).1;
        let m3 = stmt_rule(b.last(), stmts_rule(b.drop_last(), env1).0).1;
        assert(m1 + m2 + m3 =~= m1 + (m2 + m3));
    }
}

/// `gl_FragColor` starts out as a `vec4`; every uniform and varying is
/// bound to the type of its annotation, the latest declaration of a name
/// winning; a precision declaration binds nothing.
pub proof fn law_declarations_bind(ds: Seq<TopDeclModel>, d: TopDeclModel)
    ensures
        decls_env(Seq::empty()) == Map::<Seq<char>, TypeModel>::empty().insert(
            "gl_FragColor"@,
            TypeModel::Plain("vec4"@),
        ),
        d matches TopDeclModel::Uniform { ty, name } ==> decls_env(ds.push(d)) == decls_env(
            ds,
        ).insert(name, type_of_annotation(ty)),
        d matches TopDeclModel::Varying { ty, name } ==> decls_env(ds.push(d)) == decls_env(
            ds,
        ).insert(name, type_of_annotation(ty)),
        d is Precision ==> decls_env(ds.push(d)) == decls_env(ds),
{
    assert(ds.push(d).drop_last() =~= ds);
}

/// A literal and a swizzle read are floats, a call is of unknown type, and
/// a name has the type it is bound to (unknown if unbound); none of these
/// reports anything.
pub proof fn law_infer_leaves(env: TypeEnv, text: Seq<char>, name: Seq<char>, field: Seq<char>, args: Seq<ExprModel>)
    ensures
        infer_rule(ExprModel::Float(text), env) == (TypeModel::Plain("float"@), Seq::<Seq<char>>::empty()),
        infer_rule(ExprModel::Swizzle { name, field }, env) == (
            TypeModel::Plain("float"@),
            Seq::<Seq<char>>::empty(),
        ),
        infer_rule(ExprModel::Call { name, args }, env) == (
            TypeModel::Unknown,
            Seq::<Seq<char>>::empty(),
        ),
        env.contains_key(name) ==> infer_rule(ExprModel::Ident(name), env) == (
            env[name],
            Seq::<Seq<char>>::empty(),
        ),
        !env.contains_key(name) ==> infer_rule(ExprModel::Ident(name), env) == (
            TypeModel::Unknown,
            Seq::<Seq<char>>::empty(),
        ),
{
}

/// Emitting statements one after another: the body of `a + b` is the body
/// of `a` followed by the body of `b`, one indented line per statement.
pub proof fn law_emit_in_sequence(a: Seq<StmtModel>, b: Seq<StmtModel>, s: StmtModel)
    ensures
        body_text(a + b) == body_text(a) + body_text(b),
        body_text(seq![s]) == seq![' ', ' ', ' ', ' '] + stmt_text(s) + seq!['\n'],
    decreases b.len(),
{
    reveal_strlit("    ");
    reveal_strlit("\n");
    if b.len() == 0 {
        assert(a + b =~= a);
        assert(body_text(a) + body_text(b) =~= body_text(a));
    } else {
        law_emit_in_sequence(a, b.drop_last(), s);
        assert((a + b).drop_last() =~= a + b.drop_last());
        assert((a + b).last() == b.last());
        assert(body_text(a) + body_text(b) =~= body_text(a) + body_text(b.drop_last()) + "    "@
            + stmt_text(b.last()) + "\n"@);
    }
    assert(seq![s].drop_last() =~= Seq::<StmtModel>::empty());
    assert(seq![s].last() == s);
    assert("    "@ =~= seq![' ', ' ', ' ', ' ']);
    assert("\n"@ =~= seq!['\n']);
    assert(body_text(Seq::<StmtModel>::empty()) =~= Seq::<char>::empty());
    assert(body_text(seq![s]) =~= seq![' ', ' ', ' ', ' '] + stmt_text(s) + seq!['\n']);
}

/// Emitting declarations one after another, each on a line of its own that
/// starts with its keyword and ends with `;` and a newline; a uniform or
/// varying is written with the GLSL type of its annotation.
pub proof fn law_declarations_emitted(a: Seq<TopDeclModel>, b: Seq<TopDeclModel>, d: TopDeclModel)
    ensures
        decls_text(a + b) == decls_text(a) + decls_text(b),
        decl_text(d).len() >= 2,
        decl_text(d).subrange(decl_text(d).len() - 2, decl_text(d).len() as int) == seq![';', '\n'],
        d matches TopDeclModel::Uniform { ty, name } ==> decl_text(d) == seq!['u', 'n', 'i', 'f', 'o', 'r', 'm', ' ']
            + glsl_type(ty) + seq![' '] + name + seq![';', '\n'],
        d matches TopDeclModel::Varying { ty, name } ==> decl_text(d) == seq!['v', 'a', 'r', 'y', 'i', 'n', 'g', ' ']
            + glsl_type(ty) + seq![' '] + name + seq![';', '\n'],
    decreases b.len(),
{
    reveal_strlit("uniform ");
    reveal_strlit("varying ");
    reveal_strlit("precision ");
    reveal_strlit(" ");
    reveal_strlit(";\n");
    if b.len() == 0 {
        assert(a + b =~= a);
        assert(decls_text(a) + decls_text(b) =~= decls_text(a));
    } else {
        law_declarations_emitted(a, b.drop_last(), d);
        assert((a + b).drop_last() =~= a + b.drop_last());
        assert((a + b).last() == b.last());
        assert(decls_text(a) + decls_text(b) =~= decls_text(a) + decls_text(b.drop_last())
            + decl_text(b.last()));
    }
    let t = decl_text(d);
    assert(t.subrange(t.len() - 2, t.len() as int) =~= seq![';', '\n']);
    match d {
        TopDeclModel::Uniform { ty, name } => {
            assert(t =~= seq!['u', 'n', 'i', 'f', 'o', 'r', 'm', ' '] + glsl_type(ty) + seq![' ']
                + name + seq![';', '\n']);
        },
        TopDeclModel::Varying { ty, name } => {
            assert(t =~= seq!['v', 'a', 'r', 'y', 'i', 'n', 'g', ' '] + glsl_type(ty) + seq![' ']
                + name + seq![';', '\n']);
        },
        _ => {},
    }
}

// ---------------------------------------------------------------------------
// Reading the parse tree

/// A call node's arguments are its children after the name, read in order.
pub proof fn law_call_args_in_order(n: ParseNode, i: int)
    requires
        1 <= i <= arity(n),
    ensures
        args_of(n, i).len() == arity(n) - i,
        forall|k: int| 0 <= k < arity(n) - i ==> #[trigger] args_of(n, i)[k] == expr_of(child(n, i + k)),
    decreases arity(n) - i,
{
    if i < arity(n) {
        law_call_args_in_order(n, i + 1);
        assert forall|k: int| 0 <= k < arity(n) - i implies #[trigger] args_of(n, i)[k] == expr_of(
            child(n, i + k),
        ) by {
            if k > 0 {
                assert(args_of(n, i)[k] == args_of(n, i + 1)[k - 1]);
            }
        }
    }
}

/// Reading the top-level nodes one after another: the statements of `a + b`
/// are those of `a` followed by those of `b`; a node that is not `main()`
/// contributes none, and `main()` contributes its statements in order.
pub proof fn law_main_statements_in_order(a: Seq<ParseNode>, b: Seq<ParseNode>, n: ParseNode)
    ensures
        main_stmts_of(a + b) == main_stmts_of(a) + main_stmts_of(b),
        n.kind != NodeKind::MainFn ==> main_stmts_of(seq![n]) == Seq::<StmtModel>::empty(),
        n.kind == NodeKind::MainFn ==> main_stmts_of(seq![n]) == stmts_of(n.children@),
    decreases b.len(),
{
    if b.len() == 0 {
        assert(a + b =~= a);
        assert(main_stmts_of(a) + main_stmts_of(b) =~= main_stmts_of(a));
    } else {
        law_main_statements_in_order(a, b.drop_last(), n);
        assert((a + b).drop_last() =~= a + b.drop_last());
        assert((a + b).last() == b.last());
        if b.last().kind == NodeKind::MainFn {
            assert(main_stmts_of(a) + main_stmts_of(b) =~= main_stmts_of(a) + main_stmts_of(
                b.drop_last(),
            ) + stmts_of(b.last().children@));
        }
    }
    assert(seq![n].drop_last() =~= Seq::<ParseNode>::empty());
    assert(seq![n].last() == n);
    assert(main_stmts_of(Seq::<ParseNode>::empty()) =~= Seq::<StmtModel>::empty());
    assert(Seq::<StmtModel>::empty() + stmts_of(n.children@) =~= stmts_of(n.children@));
}

// ---------------------------------------------------------------------------
// The interpreter's built-ins

/// A built-in is only chosen for arguments it can compute on: `vec3` from
/// exactly three floats or from a vec4, `vec4` from a vec3 and a float or
/// exactly four floats, `normalize` from a vec3, `dot` and `reflect` from two
/// vec3s, `max` and `pow` from two floats.
pub proof fn law_builtin_arguments_fit(name: Seq<char>, kinds: Seq<ValueKind>)
    ensures
        call_rule_of(name, kinds) matches Some(r) ==> match r {
            CallRule::Vec3FromFloats => kinds.len() == 3 && forall|i: int|
                0 <= i < 3 ==> kinds[i] == ValueKind::Float,
            CallRule::Vec3FromVec4 => kinds.len() >= 1 && kinds[0] == ValueKind::Vec4,
            CallRule::Vec4FromVec3 => kinds == seq![ValueKind::Vec3, ValueKind::Float],
            CallRule::Vec4FromFloats => kinds.len() == 4 && forall|i: int|
                0 <= i < 4 ==> kinds[i] == ValueKind::Float,
            CallRule::Normalize => kinds.len() >= 1 && kinds[0] == ValueKind::Vec3,
            CallRule::Dot | CallRule::Reflect => kinds.len() >= 2 && kinds[0] == ValueKind::Vec3
                && kinds[1] == ValueKind::Vec3,
            CallRule::Max | CallRule::Pow => kinds.len() >= 2 && kinds[0] == ValueKind::Float
                && kinds[1] == ValueKind::Float,
        },
{
    if call_rule_of(name, kinds) == Some(CallRule::Vec4FromVec3) {
        assert(kinds =~= seq![ValueKind::Vec3, ValueKind::Float]);
    }
}

/// A declaration binds its name to its annotation's type, whatever its
/// expression; an assignment or a component update binds nothing.
pub proof fn law_statements_bind(env: TypeEnv, ty: Seq<char>, name: Seq<char>, field: Seq<char>, e: ExprModel)
    ensures
        stmt_rule(StmtModel::Decl { ty, name, expr: e }, env).0 == env.insert(
            name,
            type_of_annotation(ty),
        ),
        stmt_rule(StmtModel::Assign { name, expr: e }, env).0 == env,
        stmt_rule(StmtModel::SwizzleAssign { name, field, expr: e }, env).0 == env,
{
}

/// A call is written as its name and its arguments in parentheses, the
/// arguments separated by `", "`.
pub proof fn law_call_text(name: Seq<char>, args: Seq<ExprModel>, x: ExprModel)
    ensures
        expr_text(ExprModel::Call { name, args }) == name + seq!['('] + args_text(args) + seq![')'],
        args_text(Seq::empty()) == Seq::<char>::empty(),
        args_text(seq![x]) == expr_text(x),
        args.len() > 0 ==> args_text(args.push(x)) == args_text(args) + seq![',', ' '] + expr_text(x),
{
    reveal_strlit("(");
    reveal_strlit(")");
    reveal_strlit(", ");
    assert("("@ =~= seq!['(']);
    assert(")"@ =~= seq![')']);
    assert(", "@ =~= seq![',', ' ']);
    assert(args.push(x).drop_last() =~= args);
    assert(seq![x][0] == x);
}

/// A leading `-` multiplies its operand by `-1.0`; the `expr` and `primary`
/// layers stand for their only operand.
pub proof fn law_negation_and_layers(n: ParseNode)
    requires
        arity(n) >= 1,
    ensures
        n.kind == NodeKind::Unary && arity(n) >= 2 && child(n, 0).text@ == seq!['-'] ==> expr_of(n)
            == (ExprModel::BinOp {
            op: '*',
            left: Box::new(ExprModel::Float(seq!['-', '1', '.', '0'])),
            right: Box::new(expr_of(child(n, 1))),
        }),
        n.kind == NodeKind::Unary && child(n, 0).text@ != seq!['-'] ==> expr_of(n) == expr_of(
            child(n, 0),
        ),
        n.kind == NodeKind::Expr || n.kind == NodeKind::Primary ==> expr_of(n) == expr_of(
            child(n, 0),
        ),
{
    reveal_strlit("-");
    reveal_strlit("-1.0");
    assert("-"@ =~= seq!['-']);
    assert("-1.0"@ =~= seq!['-', '1', '.', '0']);
}

/// A statement node reads as the statement its inner node spells: the name
/// is written to, a declaration's type is its first part, a component
/// update's field is its second part, and the value is its last part.
pub proof fn law_statement_parts(n: ParseNode)
    requires
        arity(n) >= 1,
    ensures
        ({
            let inner = child(n, 0);
            &&& inner.kind == NodeKind::AssignStmt ==> stmt_of(n) == (StmtModel::Assign {
                name: child(inner, 0).text@,
                expr: expr_of(child(inner, 1)),
            })
            &&& inner.kind == NodeKind::DeclStmt ==> stmt_of(n) == (StmtModel::Decl {
                ty: child(inner, 0).text@,
                name: child(inner, 1).text@,
                expr: expr_of(child(inner, 2)),
            })
            &&& inner.kind == NodeKind::CompoundAssignStmt ==> stmt_of(n) == (
            StmtModel::SwizzleAssign {
                name: child(inner, 0).text@,
                field: child(inner, 1).text@,
                expr: expr_of(child(inner, 2)),
            })
        }),
{
}

/// A statement stores its result under the name it writes to: an assignment
/// into that name, a declaration into that name with its type recorded, a
/// component update into one component of that name.
pub proof fn law_statement_targets(s: StmtModel)
    ensures
        s matches StmtModel::Assign { name, .. } ==> target_of(s) == (TargetModel::Value { name }),
        s matches StmtModel::Decl { ty, name, .. } ==> target_of(s) == (TargetModel::Declared {
            name,
            ty,
        }),
        s matches StmtModel::SwizzleAssign { name, field, .. } ==> target_of(s) == (
        TargetModel::Component { name, field }),
{
}

/// A statement is written as GLSL: an assignment `name = e;`, a declaration
/// `T name = e;` with `T` the GLSL type of its annotation, a component
/// update `name.field += e;`.
pub proof fn law_statement_text(ty: Seq<char>, name: Seq<char>, field: Seq<char>, e: ExprModel)
    ensures
        stmt_text(StmtModel::Assign { name, expr: e }) == name + seq![' ', '=', ' '] + expr_text(e)
            + seq![';'],
        stmt_text(StmtModel::Decl { ty, name, expr: e }) == glsl_type(ty) + seq![' '] + name + seq![
            ' ',
            '=',
            ' ',
        ] + expr_text(e) + seq![';'],
        stmt_text(StmtModel::SwizzleAssign { name, field, expr: e }) == name + seq!['.'] + field
            + seq![' ', '+', '=', ' '] + expr_text(e) + seq![';'],
{
    reveal_strlit(" = ");
    reveal_strlit(" ");
    reveal_strlit(";");
    reveal_strlit(".");
    reveal_strlit(" += ");
    assert(" = "@ =~= seq![' ', '=', ' ']);
    assert(" "@ =~= seq![' ']);
    assert(";"@ =~= seq![';']);
    assert("."@ =~= seq!['.']);
    assert(" += "@ =~= seq![' ', '+', '=', ' ']);
}

/// Literals and names are written as they are held, a swizzle as `name.field`.
pub proof fn law_leaf_text(text: Seq<char>, name: Seq<char>, field: Seq<char>)
    ensures
        expr_text(ExprModel::Float(text)) == text,
        expr_text(ExprModel::Ident(name)) == name,
        expr_text(ExprModel::Swizzle { name, field }) == name + seq!['.'] + field,
{
    reveal_strlit(".");
    assert("."@ =~= seq!['.']);
}

/// A program is written as its declaration lines, a blank line, then
/// `void main() {`, the body lines, and `}`.
pub proof fn law_program_layout(decls: Seq<TopDeclModel>, stmts: Seq<StmtModel>)
    ensures
        program_text(decls, stmts) == decls_text(decls) + seq!['\n'] + seq![
            'v',
            'o',
            'i',
            'd',
            ' ',
            'm',
            'a',
            'i',
            'n',
            '(',
            ')',
            ' ',
            '{',
            '\n',
        ] + body_text(stmts) + seq!['}', '\n'],
{
    reveal_strlit("\n");
    reveal_strlit("void main() {\n");
    reveal_strlit("}\n");
    assert("\n"@ =~= seq!['\n']);
    assert("void main() {\n"@ =~= seq!['v', 'o', 'i', 'd', ' ', 'm', 'a', 'i', 'n', '(', ')', ' ', '{', '\n']);
    assert("}\n"@ =~= seq!['}', '\n']);
}

/// Subtraction is checked exactly like addition; the messages of both
/// operands come first, in order, for every operator; an operator other
/// than `+ - *` gives an unknown type and adds nothing of its own.
pub proof fn law_infer_operators(env: TypeEnv, op: char, l: ExprModel, r: ExprModel)
    ensures
        infer_rule(ExprModel::BinOp { op: '-', left: Box::new(l), right: Box::new(r) }, env)
            == infer_rule(ExprModel::BinOp { op: '+', left: Box::new(l), right: Box::new(r) }, env),
        ({
            let m = infer_rule(ExprModel::BinOp { op, left: Box::new(l), right: Box::new(r) }, env).1;
            let ml = infer_rule(l, env).1;
            let mr = infer_rule(r, env).1;
            m.len() >= ml.len() + mr.len() && m.take(ml.len() + mr.len() as int) == ml + mr
        }),
        op != '+' && op != '-' && op != '*' ==> infer_rule(
            ExprModel::BinOp { op, left: Box::new(l), right: Box::new(r) },
            env,
        ) == (TypeModel::Unknown, infer_rule(l, env).1 + infer_rule(r, env).1),
{
    let e = ExprModel::BinOp { op, left: Box::new(l), right: Box::new(r) };
    let ml = infer_rule(l, env).1;
    let mr = infer_rule(r, env).1;
    let m = infer_rule(e, env).1;
    let k = ml.len() + mr.len() as int;
    if op == '+' || op == '-' {
        let x = add_rule(infer_rule(l, env).0, infer_rule(r, env).0).1;
        assert(m == ml + mr + x);
        assert(m.take(k) =~= ml + mr);
    } else if op == '*' {
        let x = mul_rule(infer_rule(l, env).0, infer_rule(r, env).0).1;
        assert(m == ml + mr + x);
        assert(m.take(k) =~= ml + mr);
    } else {
        assert(m.take(k) =~= ml + mr);
    }
}

/// Inside `main()`, the statement nodes are read one after another, in order;
/// other nodes contribute nothing.
pub proof fn law_body_statements_in_order(a: Seq<ParseNode>, b: Seq<ParseNode>)
    ensures
        stmts_of(a + b) == stmts_of(a) + stmts_of(b),
    decreases b.len(),
{
    if b.len() == 0 {
        assert(a + b =~= a);
        assert(stmts_of(a) + stmts_of(b) =~= stmts_of(a));
    } else {
        law_body_statements_in_order(a, b.drop_last());
        assert((a + b).drop_last() =~= a + b.drop_last());
        assert((a + b).last() == b.last());
        if b.last().kind == NodeKind::Stmt {
            assert(stmts_of(a) + stmts_of(b) =~= (stmts_of(a) + stmts_of(b.drop_last())).push(
                stmt_of(b.last()),
            ));
        }
    }
}

} // verus!
