//! Writes a program back out as plain GLSL: Gator type annotations are
//! replaced by the GLSL types they stand for, and every binary operation is
//! parenthesized.
use vstd::prelude::*;

use crate::ast::{Expr, ExprModel, Program, Stmt, StmtModel, TopDecl, TopDeclModel};
use crate::text::{push_char, starts_with, str_eq, str_starts_with};
use crate::types::is_plain_name;

verus! {

/// The characters of `s` before its first `a` or `b` (all of `s` if neither occurs).
pub open spec fn head_before(s: Seq<char>, a: char, b: char) -> Seq<char>
    decreases s.len(),
{
    if s.len() == 0 {
        s
    } else if s[0] == a || s[0] == b {
        Seq::empty()
    } else {
        seq![s[0]] + head_before(s.drop_first(), a, b)
    }
}

/// The GLSL type that a Gator type annotation stands for. Plain GLSL types
/// stay as they are; otherwise the scheme (the part before the first `<` or
/// `.`) decides: `Cart3` and `Color3` are `vec3`, `Cart2` is `vec2`,
/// `Color4` is `vec4`, `Hom4` is `mat4` for its `Matrix` and `InvTrMatrix`
/// subtypes and `vec4` otherwise; an unknown scheme is written as it stands.
pub open spec fn glsl_type(ty: Seq<char>) -> Seq<char> {
    if is_plain_name(ty) {
        ty
    } else {
        let base = head_before(ty, '<', '.');
        if base == "Cart3"@ || base == "Color3"@ {
            "vec3"@
        } else if base == "Cart2"@ {
            "vec2"@
        } else if base == "Color4"@ {
            "vec4"@
        } else if base == "Hom4"@ {
            if starts_with(ty, "Hom4.Matrix"@) || starts_with(ty, "Hom4.InvTrMatrix"@) {
                "mat4"@
            } else {
                "vec4"@
            }
        } else {
            ty
        }
    }
}

/// The GLSL line of a top-level declaration.
pub open spec fn decl_text(d: TopDeclModel) -> Seq<char> {
    match d {
        TopDeclModel::Precision { qual, ty } => "precision "@ + qual + " "@ + ty + ";\n"@,
        TopDeclModel::Uniform { ty, name } => "uniform "@ + glsl_type(ty) + " "@ + name + ";\n"@,
        TopDeclModel::Varying { ty, name } => "varying "@ + glsl_type(ty) + " "@ + name + ";\n"@,
    }
}

/// The GLSL text of an expression: literals and names as written, swizzles
/// as `name.field`, binary operations as `(left op right)`, calls as
/// `name(arg, arg, ...)`.
pub open spec fn expr_text(e: ExprModel) -> Seq<char>
    decreases e,
{
    match e {
        ExprModel::Float(t) => t,
        ExprModel::Ident(n) => n,
        ExprModel::Swizzle { name, field } => name + "."@ + field,
        ExprModel::BinOp { op, left, right } => "("@ + expr_text(*left) + seq![' ', op, ' ']
            + expr_text(*right) + ")"@,
        ExprModel::Call { name, args } => name + "("@ + args_text(args) + ")"@,
    }
}

/// The texts of `args`, separated by `", "`.
pub open spec fn args_text(args: Seq<ExprModel>) -> Seq<char>
    decreases args,
{
    if args.len() == 0 {
        Seq::empty()
    } else if args.len() == 1 {
        expr_text(args[0])
    } else {
        args_text(args.drop_last()) + ", "@ + expr_text(args.last())
    }
}

/// The GLSL text of a statement, ending in `;`.
pub open spec fn stmt_text(s: StmtModel) -> Seq<char> {
    match s {
        StmtModel::Assign { name, expr } => name + " = "@ + expr_text(expr) + ";"@,
        StmtModel::Decl { ty, name, expr } => glsl_type(ty) + " "@ + name + " = "@ + expr_text(
            expr,
        ) + ";"@,
        StmtModel::SwizzleAssign { name, field, expr } => name + "."@ + field + " += "@
            + expr_text(expr) + ";"@,
    }
}

/// The declaration lines, one after another.
pub open spec fn decls_text(ds: Seq<TopDeclModel>) -> Seq<char>
    decreases ds.len(),
{
    if ds.len() == 0 {
        Seq::empty()
    } else {
        decls_text(ds.drop_last()) + decl_text(ds.last())
    }
}

/// The body lines of `main()`, each indented by four spaces.
pub open spec fn body_text(ss: Seq<StmtModel>) -> Seq<char>
    decreases ss.len(),
{
    if ss.len() == 0 {
        Seq::empty()
    } else {
        body_text(ss.drop_last()) + "    "@ + stmt_text(ss.last()) + "\n"@
    }
}

/// The GLSL source of a whole program: the declarations, a blank line, then
/// `void main() { ... }` with one statement per line.
pub open spec fn program_text(decls: Seq<TopDeclModel>, stmts: Seq<StmtModel>) -> Seq<char> {
    decls_text(decls) + "\n"@ + "void main() {\n"@ + body_text(stmts) + "}\n"@
}

/// The characters of `s` before its first `a` or `b`.
fn str_head_before(s: &str, a: char, b: char) -> (r: String)
    ensures
        r@ == head_before(s@, a, b),
{
    let n = s.unicode_len();
    let mut i: usize = 0;
    assert(s@.take(0) + head_before(s@.skip(0), a, b) =~= head_before(s@, a, b)) by {
        assert(s@.skip(0) =~= s@);
    }
    while i < n && s.get_char(i) != a && s.get_char(i) != b
        invariant
            n == s@.len(),
            i <= n,
            head_before(s@, a, b) == s@.take(i as int) + head_before(s@.skip(i as int), a, b),
        decreases n - i,
    {
        assert(s@.skip(i as int).drop_first() =~= s@.skip(i + 1));
        assert(s@.take(i + 1) =~= s@.take(i as int) + seq![s@[i as int]]);
        i = i + 1;
    }
    proof {
        if i == n {
            assert(s@.skip(i as int) =~= Seq::<char>::empty());
        }
        assert(head_before(s@.skip(i as int), a, b) =~= Seq::<char>::empty());
        assert(s@.take(i as int) =~= s@.subrange(0, i as int));
    }
    crate::text::substring(s, 0, i)
}

/// Maps a Gator type annotation to its plain GLSL equivalent.
pub fn gator_to_glsl(ty: &str) -> (r: String)
    ensures
        r@ == glsl_type(ty@),
{
    if crate::types::is_plain_type_name(ty) {
        return String::from_str(ty);
    }
    let base = str_head_before(ty, '<', '.');
    let b = base.as_str();
    if str_eq(b, "Cart3") || str_eq(b, "Color3") {
        String::from_str("vec3")
    } else if str_eq(b, "Cart2") {
        String::from_str("vec2")
    } else if str_eq(b, "Color4") {
        String::from_str("vec4")
    } else if str_eq(b, "Hom4") {
        if str_starts_with(ty, "Hom4.Matrix") || str_starts_with(ty, "Hom4.InvTrMatrix") {
            String::from_str("mat4")
        } else {
            String::from_str("vec4")
        }
    } else {
        String::from_str(ty)
    }
}

/// Writes the GLSL line of a top-level declaration.
pub fn emit_top_decl(out: &mut String, decl: &TopDecl)
    ensures
        final(out)@ == old(out)@ + decl_text(decl@),
{
    match decl {
        TopDecl::Precision { qual, ty } => {
            out.append("precision ");
            out.append(qual.as_str());
            out.append(" ");
            out.append(ty.as_str());
            out.append(";\n");
        },
        TopDecl::Uniform { ty, name } => {
            let glsl = gator_to_glsl(ty.as_str());
            out.append("uniform ");
            out.append(glsl.as_str());
            out.append(" ");
            out.append(name.as_str());
            out.append(";\n");
        },
        TopDecl::Varying { ty, name } => {
            let glsl = gator_to_glsl(ty.as_str());
            out.append("varying ");
            out.append(glsl.as_str());
            out.append(" ");
            out.append(name.as_str());
            out.append(";\n");
        },
    }
}

/// Writes the GLSL text of an expression.
pub fn emit_expr(out: &mut String, expr: &Expr)
    ensures
        final(out)@ == old(out)@ + expr_text(expr@),
    decreases expr,
{
    match expr {
        Expr::Float(t) => {
            out.append(t.as_str());
        },
        Expr::Ident(name) => {
            out.append(name.as_str());
        },
        Expr::Swizzle { name, field } => {
            out.append(name.as_str());
            out.append(".");
            out.append(field.as_str());
        },
        Expr::BinOp { op, left, right } => {
            out.append("(");
            emit_expr(out, left);
            push_char(out, ' ');
            push_char(out, *op);
            push_char(out, ' ');
            emit_expr(out, right);
            out.append(")");
        },
        Expr::Call { name, args } => {
            let ghost start = out@;
            let ghost models = expr@->args;
            out.append(name.as_str());
            out.append("(");
            let mut i: usize = 0;
            assert(models.take(0) =~= Seq::<ExprModel>::empty());
            while i < args.len()
                invariant
                    *expr == (Expr::Call { name: *name, args: *args }),
                    i <= args@.len(),
                    models.len() == args@.len(),
                    forall|k: int| 0 <= k < args@.len() ==> #[trigger] models[k] == args@[k]@,
                    out@ == start + name@ + "("@ + args_text(models.take(i as int)),
                decreases args@.len() - i,
            {
                assert(models.take(i + 1).drop_last() =~= models.take(i as int));
                assert(models.take(i + 1).last() == args@[i as int]@);
                if i > 0 {
                    out.append(", ");
                }
                proof {
                    assert(expr->args == *args);
                    assert(decreases_to!(*expr => expr->args));
                    assert(decreases_to!(*args => args@));
                    assert(decreases_to!(args@ => args@[i as int]));
                }
                emit_expr(out, &args[i]);
                i = i + 1;
            }
            assert(models.take(i as int) =~= models);
            out.append(")");
        },
    }
}

/// Writes the GLSL text of a statement.
pub fn emit_stmt(out: &mut String, stmt: &Stmt)
    ensures
        final(out)@ == old(out)@ + stmt_text(stmt@),
{
    match stmt {
        Stmt::Assign { name, expr } => {
            out.append(name.as_str());
            out.append(" = ");
            emit_expr(out, expr);
            out.append(";");
        },
        Stmt::Decl { ty, name, expr } => {
            let glsl = gator_to_glsl(ty.as_str());
            out.append(glsl.as_str());
            out.append(" ");
            out.append(name.as_str());
            out.append(" = ");
            emit_expr(out, expr);
            out.append(";");
        },
        Stmt::SwizzleAssign { name, field, expr } => {
            out.append(name.as_str());
            out.append(".");
            out.append(field.as_str());
            out.append(" += ");
            emit_expr(out, expr);
            out.append(";");
        },
    }
}

/// Writes a whole program as GLSL source.
pub fn emit(program: &Program) -> (out: String)
    ensures
        out@ == program_text(program@.decls, program@.stmts),
{
    let mut out = String::new();
    let ghost decls = program@.decls;
    let ghost stmts = program@.stmts;
    let mut i: usize = 0;
    assert(decls.take(0) =~= Seq::<TopDeclModel>::empty());
    while i < program.decls.len()
        invariant
            decls == program@.decls,
            i <= program.decls@.len(),
            out@ == decls_text(decls.take(i as int)),
        decreases program.decls@.len() - i,
    {
        assert(decls.take(i + 1).drop_last() =~= decls.take(i as int));
        emit_top_decl(&mut out, &program.decls[i]);
        i = i + 1;
    }
    assert(decls.take(i as int) =~= decls);
    out.append("\n");
    out.append("void main() {\n");
    let ghost head = out@;
    let mut j: usize = 0;
    assert(stmts.take(0) =~= Seq::<StmtModel>::empty());
    while j < program.stmts.len()
        invariant
            stmts == program@.stmts,
            j <= program.stmts@.len(),
            out@ == head + body_text(stmts.take(j as int)),
        decreases program.stmts@.len() - j,
    {
        assert(stmts.take(j + 1).drop_last() =~= stmts.take(j as int));
        out.append("    ");
        emit_stmt(&mut out, &program.stmts[j]);
        out.append("\n");
        j = j + 1;
    }
    assert(stmts.take(j as int) =~= stmts);
    out.append("}\n");
    out
}

} // verus!
