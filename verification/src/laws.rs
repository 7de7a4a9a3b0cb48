//! Properties that hold across the checker, the emitter and the interpreter.
use vstd::prelude::*;

use crate::ast::{ExprModel, StmtModel, TopDeclModel};
use crate::emitter::{glsl_type, head_before};
use crate::interpreter::{binop_rule_of, BinOpRule, ValueKind};
use crate::text::{
    first_index, is_white_space, lemma_first_index_bounds, lemma_first_index_is, split_on,
    strip_trailing, trim, trim_end, trim_start,
};
use crate::types::is_plain_name;
use crate::typechecker::{
    add_rule, check_messages, compatible_rule, decls_env, infer_rule, mul_rule, stmt_rule,
    stmts_rule, TypeEnv,
};
use crate::types::{type_of_annotation, TypeModel};

verus! {

/// A plain GLSL type is read by the checker as that plain type and written
/// by the emitter unchanged.
pub proof fn law_plain_types_agree(ty: Seq<char>)
    ensures
        type_of_annotation(ty) is Plain ==> type_of_annotation(ty) == TypeModel::Plain(ty)
            && glsl_type(ty) == ty,
{
}

/// `first_index` finds no `c` before the position it returns.
proof fn lemma_first_index_least(s: Seq<char>, c: char)
    ensures
        first_index(s, c) matches Some(i) ==> forall|j: int| 0 <= j < i ==> s[j] != c,
        first_index(s, c) is None ==> forall|j: int| 0 <= j < s.len() ==> s[j] != c,
    decreases s.len(),
{
    lemma_first_index_bounds(s, c);
    if s.len() > 0 && s[0] != c {
        lemma_first_index_least(s.drop_first(), c);
        if let Some(i) = first_index(s, c) {
            assert forall|j: int| 0 <= j < i implies s[j] != c by {
                if j > 0 {
                    assert(s[j] == s.drop_first()[j - 1]);
                }
            }
        } else {
            assert forall|j: int| 0 <= j < s.len() implies s[j] != c by {
                if j > 0 {
                    assert(s[j] == s.drop_first()[j - 1]);
                }
            }
        }
    }
}

/// `head_before` stops at the first `a` or `b`.
proof fn lemma_head_before_prefix(s: Seq<char>, a: char, b: char, k: int)
    requires
        0 <= k <= s.len(),
        forall|j: int| 0 <= j < k ==> s[j] != a && s[j] != b,
        k < s.len() ==> s[k] == a || s[k] == b,
    ensures
        head_before(s, a, b) == s.take(k),
    decreases k,
{
    if k == 0 {
        if s.len() == 0 {
            assert(s.take(0) =~= s);
        } else {
            assert(s.take(0) =~= Seq::<char>::empty());
        }
    } else {
        let t = s.drop_first();
        assert forall|j: int| 0 <= j < k - 1 implies t[j] != a && t[j] != b by {
            assert(t[j] == s[j + 1]);
        }
        lemma_head_before_prefix(t, a, b, k - 1);
        assert(s.take(k) =~= seq![s[0]] + t.take(k - 1));
    }
}

/// The emitter and the checker read the same scheme off an annotation that
/// the checker takes for a Gator type and that has no blanks before its
/// `<`; so `Cart3` and `Color3` annotations are emitted as `vec3`, `Cart2`
/// as `vec2` and `Color4` as `vec4`.
pub proof fn law_scheme_agrees(ty: Seq<char>)
    requires
        type_of_annotation(ty) is Gator,
        first_index(ty, '<') matches Some(lt) && trim(ty.take(lt)) == ty.take(lt),
    ensures
        head_before(ty, '<', '.') == type_of_annotation(ty)->scheme,
        type_of_annotation(ty)->scheme == "Cart3"@ || type_of_annotation(ty)->scheme
            == "Color3"@ ==> glsl_type(ty) == "vec3"@,
        type_of_annotation(ty)->scheme == "Cart2"@ ==> glsl_type(ty) == "vec2"@,
        type_of_annotation(ty)->scheme == "Color4"@ ==> glsl_type(ty) == "vec4"@,
{
    reveal_strlit("Cart3");
    reveal_strlit("Color3");
    reveal_strlit("Cart2");
    reveal_strlit("Color4");
    reveal_strlit("Hom4");
    assert("Cart2"@[4] != "Cart3"@[4]);
    assert("Cart2"@[1] != "Color3"@[1]);
    assert("Color4"@[1] != "Cart3"@[1]);
    assert("Color4"@[5] != "Color3"@[5]);
    assert("Color4"@[1] != "Cart2"@[1]);
    let lt = first_index(ty, '<')->0;
    let part = ty.take(lt);
    lemma_first_index_bounds(ty, '<');
    lemma_first_index_least(ty, '<');
    lemma_first_index_bounds(part, '.');
    lemma_first_index_least(part, '.');
    match first_index(part, '.') {
        Some(dot) => {
            assert forall|j: int| 0 <= j < dot implies ty[j] != '<' && ty[j] != '.' by {
                assert(ty[j] == part[j]);
            }
            assert(ty[dot] == part[dot]);
            lemma_head_before_prefix(ty, '<', '.', dot);
            assert(part.take(dot) =~= ty.take(dot));
        },
        None => {
            assert forall|j: int| 0 <= j < lt implies ty[j] != '<' && ty[j] != '.' by {
                assert(ty[j] == part[j]);
            }
            lemma_head_before_prefix(ty, '<', '.', lt);
        },
    }
}

/// An unknown operand makes the result of `+`, `-` and `*` unknown, and no
/// error is reported for it.
pub proof fn law_unknown_absorbs(t: TypeModel)
    ensures
        add_rule(TypeModel::Unknown, t) == (TypeModel::Unknown, Seq::<Seq<char>>::empty()),
        add_rule(t, TypeModel::Unknown) == (TypeModel::Unknown, Seq::<Seq<char>>::empty()),
        mul_rule(TypeModel::Unknown, t) == (TypeModel::Unknown, Seq::<Seq<char>>::empty()),
        mul_rule(t, TypeModel::Unknown) == (TypeModel::Unknown, Seq::<Seq<char>>::empty()),
{
}

/// Scaling by a `float`, on either side, keeps a Gator value's type and frame.
pub proof fn law_scaling_keeps_frame(g: TypeModel)
    requires
        g is Gator,
    ensures
        mul_rule(TypeModel::Plain("float"@), g) == (g, Seq::<Seq<char>>::empty()),
        mul_rule(g, TypeModel::Plain("float"@)) == (g, Seq::<Seq<char>>::empty()),
{
}

/// A transformation from frame `a` to frame `b`, applied to a vector in `a`,
/// gives the same kind of vector in `b`.
pub proof fn law_transform_moves_frame(m: TypeModel, v: TypeModel)
    requires
        m is Gator,
        v is Gator,
        m->frames.len() == 2,
        v->frames == seq![m->frames[0]],
    ensures
        mul_rule(m, v) == (
            TypeModel::Gator { scheme: v->scheme, subtype: v->subtype, frames: seq![m->frames[1]] },
            Seq::<Seq<char>>::empty(),
        ),
{
}

/// Transformations `a -> b` and `b -> c` compose to `a -> c`.
pub proof fn law_transforms_compose(m1: TypeModel, m2: TypeModel)
    requires
        m1 is Gator,
        m2 is Gator,
        m1->frames.len() == 2,
        m2->frames.len() == 2,
        m1->frames[1] == m2->frames[0],
    ensures
        mul_rule(m1, m2) == (
            TypeModel::Gator {
                scheme: m1->scheme,
                subtype: m1->subtype,
                frames: seq![m1->frames[0], m2->frames[1]],
            },
            Seq::<Seq<char>>::empty(),
        ),
{
}

/// Applying a transformation to a vector in another frame is an error: the
/// result is unknown and exactly one error is reported.
pub proof fn law_frame_mismatch_reported(m: TypeModel, v: TypeModel)
    requires
        m is Gator,
        v is Gator,
        m->frames.len() == 2,
        v->frames.len() == 1,
        v->frames[0] != m->frames[0],
    ensures
        mul_rule(m, v).0 is Unknown,
        mul_rule(m, v).1.len() == 1,
{
}

/// Any plain type is assignable to any plain variable; GLSL itself checks those.
pub proof fn law_plain_assignable(declared: Seq<char>, inferred: Seq<char>, name: Seq<char>)
    ensures
        compatible_rule(TypeModel::Plain(declared), TypeModel::Plain(inferred), name)
            == Seq::<Seq<char>>::empty(),
{
}

/// No name is bound to a Gator type.
pub open spec fn env_unannotated(env: TypeEnv) -> bool {
    forall|k: Seq<char>| #[trigger] env.contains_key(k) ==> !(env[k] is Gator)
}

proof fn lemma_infer_unannotated(e: ExprModel, env: TypeEnv)
    requires
        env_unannotated(env),
    ensures
        !(infer_rule(e, env).0 is Gator),
        infer_rule(e, env).1 == Seq::<Seq<char>>::empty(),
    decreases e,
{
    if let ExprModel::BinOp { op, left, right } = e {
        lemma_infer_unannotated(*left, env);
        lemma_infer_unannotated(*right, env);
        assert(Seq::<Seq<char>>::empty() + Seq::<Seq<char>>::empty() + Seq::<Seq<char>>::empty()
            =~= Seq::<Seq<char>>::empty());
    }
}

/// Every declaration among `ds` has an annotation that is not a Gator type.
pub open spec fn decls_unannotated(ds: Seq<TopDeclModel>) -> bool {
    forall|i: int|
        0 <= i < ds.len() ==> match #[trigger] ds[i] {
            TopDeclModel::Uniform { ty, .. } => !(type_of_annotation(ty) is Gator),
            TopDeclModel::Varying { ty, .. } => !(type_of_annotation(ty) is Gator),
            TopDeclModel::Precision { .. } => true,
        }
}

/// Every declaration statement among `ss` has an annotation that is not a Gator type.
pub open spec fn stmts_unannotated(ss: Seq<StmtModel>) -> bool {
    forall|i: int|
        0 <= i < ss.len() ==> match #[trigger] ss[i] {
            StmtModel::Decl { ty, .. } => !(type_of_annotation(ty) is Gator),
            _ => true,
        }
}

proof fn lemma_decls_env_unannotated(ds: Seq<TopDeclModel>)
    requires
        decls_unannotated(ds),
    ensures
        env_unannotated(decls_env(ds)),
    decreases ds.len(),
{
    if ds.len() > 0 {
        let init = ds.drop_last();
        assert forall|i: int| 0 <= i < init.len() implies match #[trigger] init[i] {
            TopDeclModel::Uniform { ty, .. } => !(type_of_annotation(ty) is Gator),
            TopDeclModel::Varying { ty, .. } => !(type_of_annotation(ty) is Gator),
            TopDeclModel::Precision { .. } => true,
        } by {
            assert(init[i] == ds[i]);
        }
        lemma_decls_env_unannotated(init);
        assert(ds.last() == ds[ds.len() - 1]);
    }
}

proof fn lemma_stmts_unannotated(ss: Seq<StmtModel>, env: TypeEnv)
    requires
        env_unannotated(env),
        stmts_unannotated(ss),
    ensures
        env_unannotated(stmts_rule(ss, env).0),
        stmts_rule(ss, env).1 == Seq::<Seq<char>>::empty(),
    decreases ss.len(),
{
    if ss.len() > 0 {
        let init = ss.drop_last();
        assert forall|i: int| 0 <= i < init.len() implies match #[trigger] init[i] {
            StmtModel::Decl { ty, .. } => !(type_of_annotation(ty) is Gator),
            _ => true,
        } by {
            assert(init[i] == ss[i]);
        }
        lemma_stmts_unannotated(init, env);
        let env1 = stmts_rule(init, env).0;
        let last = ss.last();
        assert(last == ss[ss.len() - 1]);
        match last {
            StmtModel::Decl { ty, name, expr } => {
                lemma_infer_unannotated(expr, env1);
            },
            StmtModel::Assign { name, expr } => {
                lemma_infer_unannotated(expr, env1);
            },
            StmtModel::SwizzleAssign { expr, .. } => {
                lemma_infer_unannotated(expr, env1);
            },
        }
        assert(stmt_rule(last, env1).1 =~= Seq::<Seq<char>>::empty());
        assert(Seq::<Seq<char>>::empty() + Seq::<Seq<char>>::empty() =~= Seq::<
            Seq<char>,
        >::empty());
    }
}

/// A shader without Gator annotations passes the checker without errors.
pub proof fn law_unannotated_program_passes(decls: Seq<TopDeclModel>, stmts: Seq<StmtModel>)
    requires
        decls_unannotated(decls),
        stmts_unannotated(stmts),
    ensures
        check_messages(decls, stmts) == Seq::<Seq<char>>::empty(),
{
    lemma_decls_env_unannotated(decls);
    lemma_stmts_unannotated(stmts, decls_env(decls));
}

/// A float scales a vec3 from either side, and only under `*`.
pub proof fn law_scaling_commutes(op: char)
    ensures
        binop_rule_of(op, ValueKind::Float, ValueKind::Vec3) is Some <==> op == '*',
        binop_rule_of(op, ValueKind::Vec3, ValueKind::Float) is Some <==> op == '*',
        op == '*' ==> binop_rule_of(op, ValueKind::Float, ValueKind::Vec3) == Some(
            BinOpRule::ScaleVec3 { scalar_left: true },
        ) && binop_rule_of(op, ValueKind::Vec3, ValueKind::Float) == Some(
            BinOpRule::ScaleVec3 { scalar_left: false },
        ),
{
}

/// `+`, `-` and `*` report at most one error each, and only with an unknown result.
pub proof fn law_operators_report_at_most_once(lt: TypeModel, rt: TypeModel)
    ensures
        add_rule(lt, rt).1.len() <= 1,
        add_rule(lt, rt).1.len() == 1 ==> add_rule(lt, rt).0 is Unknown,
        mul_rule(lt, rt).1.len() <= 1,
        mul_rule(lt, rt).1.len() == 1 ==> mul_rule(lt, rt).0 is Unknown,
{
}

/// A name that can stand in an annotation as a scheme, subtype or frame: no
/// white space and none of the characters `<`, `>`, `.`, `,`.
pub open spec fn annotation_word(w: Seq<char>) -> bool {
    forall|i: int|
        0 <= i < w.len() ==> {
            let c = #[trigger] w[i];
            &&& c != '<'
            &&& c != '>'
            &&& c != '.'
            &&& c != ','
            &&& !is_white_space(c)
        }
}

/// The annotation `scheme.subtype<frames>` written out.
pub open spec fn annotation_text(scheme: Seq<char>, subtype: Seq<char>, frames: Seq<char>) -> Seq<
    char,
> {
    scheme + seq!['.'] + subtype + seq!['<'] + frames + seq!['>']
}

proof fn lemma_plain_names_have_no_angle(s: Seq<char>, i: int)
    requires
        is_plain_name(s),
        0 <= i < s.len(),
    ensures
        s[i] != '<',
        s[i] != '.',
{
    reveal_strlit("float");
    reveal_strlit("vec2");
    reveal_strlit("vec3");
    reveal_strlit("vec4");
    reveal_strlit("mat3");
    reveal_strlit("mat4");
}

proof fn lemma_trim_word(w: Seq<char>)
    requires
        w.len() == 0 || (!is_white_space(w[0]) && !is_white_space(w.last())),
    ensures
        trim(w) == w,
{
    assert(trim_start(w) == w);
    assert(trim_end(w) == w);
}

proof fn lemma_no_char(w: Seq<char>, c: char)
    requires
        forall|i: int| 0 <= i < w.len() ==> w[i] != c,
    ensures
        first_index(w, c) is None,
        split_on(w, c) == seq![w],
{
    lemma_first_index_is(w, c, w.len() as int);
}

/// An annotation written from a scheme, a subtype and one frame, or two
/// frames separated by a comma, is read back as exactly that Gator type.
pub proof fn law_annotation_round_trip(scheme: Seq<char>, subtype: Seq<char>, f1: Seq<char>, f2: Seq<char>)
    requires
        annotation_word(scheme),
        annotation_word(subtype),
        annotation_word(f1),
        annotation_word(f2),
    ensures
        type_of_annotation(annotation_text(scheme, subtype, f1)) == (TypeModel::Gator {
            scheme,
            subtype: Some(subtype),
            frames: seq![f1],
        }),
        type_of_annotation(annotation_text(scheme, subtype, f1 + seq![','] + f2)) == (
        TypeModel::Gator { scheme, subtype: Some(subtype), frames: seq![f1, f2] }),
{
    lemma_no_char(f1, ',');
    if f1.len() > 0 {
        assert(f1.last() == f1[f1.len() - 1]);
    }
    if f2.len() > 0 {
        assert(f2.last() == f2[f2.len() - 1]);
    }
    lemma_trim_word(f1);
    lemma_trim_word(f2);
    lemma_round_trip_frames(scheme, subtype, f1, seq![f1]);
    let fs = f1 + seq![','] + f2;
    assert forall|i: int| 0 <= i < f1.len() implies fs[i] != ',' by {
        assert(fs[i] == f1[i]);
    }
    lemma_first_index_is(fs, ',', f1.len() as int);
    assert(fs.take(f1.len() as int) =~= f1);
    assert(fs.skip(f1.len() as int + 1) =~= f2);
    lemma_no_char(f2, ',');
    assert(split_on(fs, ',') =~= seq![f1, f2]);
    assert forall|i: int| 0 <= i < fs.len() implies {
        let c = #[trigger] fs[i];
        c != '<' && c != '>' && c != '.' && (c == ',' || !is_white_space(c))
    } by {
        if i < f1.len() {
            assert(fs[i] == f1[i]);
        } else if i > f1.len() {
            assert(fs[i] == f2[i - f1.len() - 1]);
        }
    }
    lemma_round_trip_frames(scheme, subtype, fs, seq![f1, f2]);
}

/// The round trip for any frame list whose comma-split pieces are `pieces`.
proof fn lemma_round_trip_frames(
    scheme: Seq<char>,
    subtype: Seq<char>,
    fs: Seq<char>,
    pieces: Seq<Seq<char>>,
)
    requires
        annotation_word(scheme),
        annotation_word(subtype),
        forall|i: int|
            0 <= i < fs.len() ==> {
                let c = #[trigger] fs[i];
                c != '<' && c != '>' && c != '.' && (c == ',' || !is_white_space(c))
            },
        split_on(fs, ',') == pieces,
        forall|k: int| 0 <= k < pieces.len() ==> trim(#[trigger] pieces[k]) == pieces[k],
    ensures
        type_of_annotation(annotation_text(scheme, subtype, fs)) == (TypeModel::Gator {
            scheme,
            subtype: Some(subtype),
            frames: pieces,
        }),
{
    let ty = annotation_text(scheme, subtype, fs);
    let head = scheme + seq!['.'] + subtype;
    let lt = head.len() as int;
    assert(ty[lt] == '<');
    assert forall|j: int| 0 <= j < lt implies ty[j] != '<' by {
        assert(ty[j] == head[j]);
        if j < scheme.len() {
            assert(head[j] == scheme[j]);
        } else if j > scheme.len() {
            assert(head[j] == subtype[j - scheme.len() - 1]);
        }
    }
    lemma_first_index_is(ty, '<', lt);
    if is_plain_name(ty) {
        lemma_plain_names_have_no_angle(ty, lt);
    }
    assert(ty.take(lt) =~= head);
    assert forall|j: int| 0 <= j < scheme.len() implies head[j] != '.' by {
        assert(head[j] == scheme[j]);
    }
    lemma_first_index_is(head, '.', scheme.len() as int);
    if head.len() > 0 {
        if scheme.len() > 0 {
            assert(head[0] == scheme[0]);
        }
        if subtype.len() > 0 {
            assert(head.last() == subtype.last());
        }
    }
    lemma_trim_word(head);
    assert(head.take(scheme.len() as int) =~= scheme);
    assert(head.skip(scheme.len() as int + 1) =~= subtype);
    let tail = fs + seq!['>'];
    assert(ty.skip(lt + 1) =~= tail);
    assert(tail.drop_last() =~= fs);
    assert(strip_trailing(tail, '>') == strip_trailing(fs, '>'));
    assert(strip_trailing(fs, '>') == fs);
    assert(pieces.map_values(|p: Seq<char>| trim(p)) =~= pieces);
}

/// The GLSL type written for an annotation follows its scheme, the word
/// before the first `.` or `<`: `Cart3` and `Color3` give `vec3`, `Cart2`
/// gives `vec2`, `Color4` gives `vec4`, and `Hom4` gives `mat4` for its
/// `Matrix` and `InvTrMatrix` subtypes and `vec4` for any other.
pub proof fn law_glsl_type_by_scheme(ty: Seq<char>, scheme: Seq<char>)
    requires
        annotation_word(scheme),
        scheme.len() < ty.len(),
        ty.take(scheme.len() as int) == scheme,
        ty[scheme.len() as int] == '<' || ty[scheme.len() as int] == '.',
    ensures
        head_before(ty, '<', '.') == scheme,
        scheme == "Cart3"@ || scheme == "Color3"@ ==> glsl_type(ty) == "vec3"@,
        scheme == "Cart2"@ ==> glsl_type(ty) == "vec2"@,
        scheme == "Color4"@ ==> glsl_type(ty) == "vec4"@,
        scheme != "Cart3"@ && scheme != "Color3"@ && scheme != "Cart2"@ && scheme != "Color4"@
            && scheme != "Hom4"@ ==> glsl_type(ty) == ty,
        scheme == "Hom4"@ ==> glsl_type(ty) == (if crate::text::starts_with(ty, "Hom4.Matrix"@)
            || crate::text::starts_with(ty, "Hom4.InvTrMatrix"@) {
            "mat4"@
        } else {
            "vec4"@
        }),
{
    let k = scheme.len() as int;
    assert forall|j: int| 0 <= j < k implies ty[j] != '<' && ty[j] != '.' by {
        assert(ty[j] == ty.take(k)[j]);
    }
    lemma_head_before_prefix(ty, '<', '.', k);
    if is_plain_name(ty) {
        lemma_plain_names_have_no_angle(ty, k);
    }
    reveal_strlit("Cart3");
    reveal_strlit("Color3");
    reveal_strlit("Cart2");
    reveal_strlit("Color4");
    reveal_strlit("Hom4");
    assert("Cart2"@[4] != "Cart3"@[4]);
    assert("Cart2"@[1] != "Color3"@[1]);
    assert("Color4"@[1] != "Cart3"@[1]);
    assert("Color4"@[5] != "Color3"@[5]);
    assert("Color4"@[1] != "Cart2"@[1]);
    assert("Hom4"@.len() != "Cart3"@.len() && "Hom4"@.len() != "Color3"@.len());
    assert("Hom4"@.len() != "Cart2"@.len() && "Hom4"@.len() != "Color4"@.len());
}

proof fn lemma_trim_start_index(s: Seq<char>) -> (a: int)
    ensures
        0 <= a <= s.len(),
        trim_start(s) == s.skip(a),
        forall|i: int| 0 <= i < a ==> is_white_space(#[trigger] s[i]),
        a < s.len() ==> !is_white_space(s[a]),
    decreases s.len(),
{
    if s.len() > 0 && is_white_space(s[0]) {
        let a1 = lemma_trim_start_index(s.drop_first());
        assert(s.drop_first().skip(a1) =~= s.skip(a1 + 1));
        assert forall|i: int| 0 <= i < a1 + 1 implies is_white_space(#[trigger] s[i]) by {
            if i > 0 {
                assert(s[i] == s.drop_first()[i - 1]);
            }
        }
        if a1 + 1 < s.len() {
            assert(s[a1 + 1] == s.drop_first()[a1]);
        }
        a1 + 1
    } else {
        assert(s.skip(0) =~= s);
        0
    }
}

proof fn lemma_trim_end_index(s: Seq<char>) -> (b: int)
    ensures
        0 <= b <= s.len(),
        trim_end(s) == s.take(b),
        forall|i: int| b <= i < s.len() ==> is_white_space(#[trigger] s[i]),
        b > 0 ==> !is_white_space(s[b - 1]),
    decreases s.len(),
{
    if s.len() > 0 && is_white_space(s.last()) {
        let b1 = lemma_trim_end_index(s.drop_last());
        assert(s.drop_last().take(b1) =~= s.take(b1));
        assert forall|i: int| b1 <= i < s.len() implies is_white_space(#[trigger] s[i]) by {
            if i < s.len() - 1 {
                assert(s[i] == s.drop_last()[i]);
            }
        }
        if b1 > 0 {
            assert(s[b1 - 1] == s.drop_last()[b1 - 1]);
        }
        b1
    } else {
        assert(s.take(s.len() as int) =~= s);
        s.len() as int
    }
}

/// Trimming removes exactly the white space at both ends: the result is the
/// part of `s` between a white-space prefix and a white-space suffix, and it
/// neither begins nor ends with white space.
pub proof fn law_trim_removes_end_blanks(s: Seq<char>) -> (bounds: (int, int))
    ensures
        0 <= bounds.0 <= bounds.1 <= s.len(),
        trim(s) == s.subrange(bounds.0, bounds.1),
        forall|i: int| 0 <= i < bounds.0 ==> is_white_space(#[trigger] s[i]),
        forall|i: int| bounds.1 <= i < s.len() ==> is_white_space(#[trigger] s[i]),
        trim(s).len() > 0 ==> !is_white_space(trim(s)[0]) && !is_white_space(trim(s).last()),
{
    let a = lemma_trim_start_index(s);
    let u = s.skip(a);
    let b = lemma_trim_end_index(u);
    assert(u.take(b) =~= s.subrange(a, a + b));
    assert forall|i: int| a + b <= i < s.len() implies is_white_space(#[trigger] s[i]) by {
        assert(s[i] == u[i - a]);
    }
    let t = trim(s);
    if t.len() > 0 {
        assert(t[0] == s[a]);
        assert(t.last() == u[b - 1]);
    }
    (a, a + b)
}

/// The pieces joined back with `c` between them.
pub open spec fn join_with(pieces: Seq<Seq<char>>, c: char) -> Seq<char>
    decreases pieces.len(),
{
    if pieces.len() <= 1 {
        if pieces.len() == 1 {
            pieces[0]
        } else {
            Seq::empty()
        }
    } else {
        pieces[0] + seq![c] + join_with(pieces.drop_first(), c)
    }
}

/// Splitting on `c` gives at least one piece, no piece holds `c`, and
/// joining the pieces with `c` gives back the string.
pub proof fn law_split_rejoins(s: Seq<char>, c: char)
    ensures
        split_on(s, c).len() >= 1,
        forall|k: int, i: int|
            0 <= k < split_on(s, c).len() && 0 <= i < split_on(s, c)[k].len() ==> #[trigger] split_on(
                s,
                c,
            )[k][i] != c,
        join_with(split_on(s, c), c) == s,
    decreases s.len(),
{
    lemma_first_index_bounds(s, c);
    lemma_first_index_least(s, c);
    match first_index(s, c) {
        None => {},
        Some(i) => {
            let rest = s.skip(i + 1);
            law_split_rejoins(rest, c);
            let ps = split_on(s, c);
            assert(ps == seq![s.take(i)] + split_on(rest, c));
            assert(ps.drop_first() =~= split_on(rest, c));
            assert forall|k: int, j: int| 0 <= k < ps.len() && 0 <= j < ps[k].len() implies #[trigger] ps[k][j]
                != c by {
                if k > 0 {
                    assert(ps[k] == split_on(rest, c)[k - 1]);
                }
            }
            assert(s.take(i) + seq![c] + rest =~= s);
        },
    }
}

/// An annotation written from a scheme and one frame, with no subtype, is
/// read back as that Gator type without a subtype.
pub proof fn law_annotation_round_trip_without_subtype(scheme: Seq<char>, f: Seq<char>)
    requires
        annotation_word(scheme),
        annotation_word(f),
    ensures
        type_of_annotation(scheme + seq!['<'] + f + seq!['>']) == (TypeModel::Gator {
            scheme,
            subtype: None,
            frames: seq![f],
        }),
{
    let ty = scheme + seq!['<'] + f + seq!['>'];
    let lt = scheme.len() as int;
    assert(ty[lt] == '<');
    assert forall|j: int| 0 <= j < lt implies ty[j] != '<' by {
        assert(ty[j] == scheme[j]);
    }
    lemma_first_index_is(ty, '<', lt);
    if is_plain_name(ty) {
        lemma_plain_names_have_no_angle(ty, lt);
    }
    assert(ty.take(lt) =~= scheme);
    if scheme.len() > 0 {
        assert(scheme.last() == scheme[scheme.len() - 1]);
    }
    lemma_trim_word(scheme);
    lemma_no_char(scheme, '.');
    let tail = f + seq!['>'];
    assert(ty.skip(lt + 1) =~= tail);
    assert(tail.drop_last() =~= f);
    assert(strip_trailing(tail, '>') == strip_trailing(f, '>'));
    assert(strip_trailing(f, '>') == f);
    lemma_no_char(f, ',');
    if f.len() > 0 {
        assert(f.last() == f[f.len() - 1]);
    }
    lemma_trim_word(f);
    assert(seq![f].map_values(|p: Seq<char>| trim(p)) =~= seq![f]);
}

} // verus!
