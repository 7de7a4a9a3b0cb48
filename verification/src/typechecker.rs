//! The frame checker: infers the Gator type of every expression in `main()`
//! and reports the operations that mix coordinate frames.
use vstd::prelude::*;

use crate::ast::{Expr, ExprModel, Program, Stmt, StmtModel, TopDecl, TopDeclModel};
use crate::types::{parse_gator_type, strings_view, type_of_annotation, GatorType, TypeModel};

verus! {

/// One problem the checker found.
#[derive(Debug)]
pub struct TypeError {
    pub message: String,
}

/// The text that `{:?}` gives for a string: the string in double quotes,
/// with quotes, backslashes and non-printable characters escaped.
pub uninterp spec fn str_debug_text(s: Seq<char>) -> Seq<char>;

/// Renders a string with `{:?}`, as `<str as Debug>` writes it.
/// Its contract names the text; which characters std escapes, and how, is not stated.
#[verifier::external_body]
fn str_debug(s: &str) -> (r: String)
    ensures
        r@ == str_debug_text(s@),
{
    format!("{:?}", s)
}

/// The rendered frames of a Gator type, separated by `", "`.
pub open spec fn frames_debug_text(frames: Seq<Seq<char>>) -> Seq<char>
    decreases frames.len(),
{
    if frames.len() == 0 {
        Seq::empty()
    } else if frames.len() == 1 {
        str_debug_text(frames[0])
    } else {
        frames_debug_text(frames.drop_last()) + ", "@ + str_debug_text(frames.last())
    }
}

/// The text that `{:?}` gives for a type: `Plain("vec3")`,
/// `Gator { scheme: "Cart3", subtype: Some("Point"), frames: ["World"] }`
/// (`subtype: None` without a subtype), or `Unknown`.
pub open spec fn type_debug_text(t: TypeModel) -> Seq<char> {
    match t {
        TypeModel::Plain(p) => "Plain("@ + str_debug_text(p) + ")"@,
        TypeModel::Gator { scheme, subtype, frames } => "Gator { scheme: "@ + str_debug_text(
            scheme,
        ) + ", subtype: "@ + match subtype {
            Some(sub) => "Some("@ + str_debug_text(sub) + ")"@,
            None => "None"@,
        } + ", frames: ["@ + frames_debug_text(frames) + "] }"@,
        TypeModel::Unknown => "Unknown"@,
    }
}

/// Renders a type as `{:?}` does.
pub fn debug_text(t: &GatorType) -> (r: String)
    ensures
        r@ == type_debug_text(t@),
{
    match t {
        GatorType::Plain(p) => {
            let mut r = String::from_str("Plain(");
            let q = str_debug(p.as_str());
            r.append(q.as_str());
            r.append(")");
            r
        },
        GatorType::Gator { scheme, subtype, frames } => {
            let mut r = String::from_str("Gator { scheme: ");
            let q = str_debug(scheme.as_str());
            r.append(q.as_str());
            r.append(", subtype: ");
            match subtype {
                Some(sub) => {
                    r.append("Some(");
                    let q = str_debug(sub.as_str());
                    r.append(q.as_str());
                    r.append(")");
                },
                None => {
                    r.append("None");
                },
            }
            r.append(", frames: [");
            let ghost head = r@;
            let ghost fs = strings_view(frames@);
            let mut i: usize = 0;
            assert(fs.take(0) =~= Seq::<Seq<char>>::empty());
            assert(head + frames_debug_text(fs.take(0)) =~= head);
            while i < frames.len()
                invariant
                    fs == strings_view(frames@),
                    i <= frames@.len(),
                    r@ == head + frames_debug_text(fs.take(i as int)),
                decreases frames@.len() - i,
            {
                assert(fs.take(i + 1).drop_last() =~= fs.take(i as int));
                assert(fs.take(i + 1).last() == frames@[i as int]@);
                if i > 0 {
                    r.append(", ");
                }
                let q = str_debug(frames[i].as_str());
                r.append(q.as_str());
                i = i + 1;
            }
            assert(fs.take(i as int) =~= fs);
            r.append("] }");
            r
        },
        GatorType::Unknown => String::from_str("Unknown"),
    }
}

/// The types known so far, by variable name.
pub type TypeEnv = Map<Seq<char>, TypeModel>;

/// The binding that a list of (name, type) entries makes: later entries
/// replace earlier ones.
pub open spec fn entries_env(s: Seq<(String, GatorType)>) -> TypeEnv
    decreases s.len(),
{
    if s.len() == 0 {
        Map::empty()
    } else {
        entries_env(s.drop_last()).insert(s.last().0@, s.last().1@)
    }
}

/// A map from variable names to their types.
pub struct TypeMap {
    entries: Vec<(String, GatorType)>,
}

impl View for TypeMap {
    type V = TypeEnv;

    closed spec fn view(&self) -> TypeEnv {
        entries_env(self.entries@)
    }
}

proof fn lemma_entries_env_found(s: Seq<(String, GatorType)>, i: int, k: Seq<char>)
    requires
        0 <= i < s.len(),
        s[i].0@ == k,
        forall|j: int| i < j < s.len() ==> (#[trigger] s[j]).0@ != k,
    ensures
        entries_env(s).contains_key(k),
        entries_env(s)[k] == s[i].1@,
    decreases s.len(),
{
    if i < s.len() - 1 {
        lemma_entries_env_found(s.drop_last(), i, k);
    }
}

proof fn lemma_entries_env_absent(s: Seq<(String, GatorType)>, k: Seq<char>)
    requires
        forall|j: int| 0 <= j < s.len() ==> (#[trigger] s[j]).0@ != k,
    ensures
        !entries_env(s).contains_key(k),
    decreases s.len(),
{
    if s.len() > 0 {
        lemma_entries_env_absent(s.drop_last(), k);
    }
}

impl TypeMap {
    /// A map with no names.
    pub fn new() -> (m: TypeMap)
        ensures
            m@ == Map::<Seq<char>, TypeModel>::empty(),
    {
        TypeMap { entries: Vec::new() }
    }

    /// Binds `name` to `ty`, replacing any earlier binding.
    pub fn insert(&mut self, name: String, ty: GatorType)
        ensures
            final(self)@ == old(self)@.insert(name@, ty@),
    {
        let ghost before = self.entries@;
        self.entries.push((name, ty));
        assert(self.entries@.drop_last() =~= before);
    }

    /// A copy of the type bound to `name`, if any.
    pub fn get(&self, name: &String) -> (r: Option<GatorType>)
        ensures
            match r {
                Some(t) => self@.contains_key(name@) && t@ == self@[name@],
                None => !self@.contains_key(name@),
            },
    {
        let mut i: usize = self.entries.len();
        while i > 0
            invariant
                i <= self.entries@.len(),
                forall|j: int| i <= j < self.entries@.len() ==> (#[trigger] self.entries@[j]).0@
                    != name@,
            decreases i,
        {
            i = i - 1;
            if self.entries[i].0 == *name {
                proof {
                    lemma_entries_env_found(self.entries@, i as int, name@);
                }
                return Some(self.entries[i].1.copy());
            }
        }
        proof {
            lemma_entries_env_absent(self.entries@, name@);
        }
        None
    }
}

/// Result type and messages of the addition rule: unknown operands give an
/// unknown result; two plain types add to the left one; two equal types add
/// to that type; anything else is a mismatch.
pub open spec fn add_rule(lt: TypeModel, rt: TypeModel) -> (TypeModel, Seq<Seq<char>>) {
    if lt is Unknown || rt is Unknown {
        (TypeModel::Unknown, Seq::empty())
    } else if lt is Plain && rt is Plain {
        (lt, Seq::empty())
    } else if lt == rt {
        (lt, Seq::empty())
    } else {
        (
            TypeModel::Unknown,
            seq![
                "type mismatch in addition: "@ + type_debug_text(lt) + " + "@ + type_debug_text(
                    rt,
                ),
            ],
        )
    }
}

/// Result type and messages of the multiplication rule. A `float` scales a
/// Gator value and keeps its frame; two plain types give the plain type
/// `unannotated`; a transformation `<A, B>` applied to a vector `<A>` gives
/// that vector in `<B>`; transformations `<A, B>` and `<B, C>` compose to
/// `<A, C>`; other Gator pairs give an unknown type; mismatched frames, and
/// a Gator type with a non-`float` plain type, are errors.
pub open spec fn mul_rule(lt: TypeModel, rt: TypeModel) -> (TypeModel, Seq<Seq<char>>) {
    if lt is Unknown || rt is Unknown {
        (TypeModel::Unknown, Seq::empty())
    } else if lt is Plain && rt is Gator && lt->Plain_0 == "float"@ {
        (rt, Seq::empty())
    } else if lt is Gator && rt is Plain && rt->Plain_0 == "float"@ {
        (lt, Seq::empty())
    } else if lt is Plain && rt is Plain {
        (TypeModel::Plain("unannotated"@), Seq::empty())
    } else if lt is Gator && rt is Gator {
        let lf = lt->frames;
        let rf = rt->frames;
        if lf.len() == 2 && rf.len() == 1 {
            if lf[0] == rf[0] {
                (
                    TypeModel::Gator {
                        scheme: rt->scheme,
                        subtype: rt->subtype,
                        frames: seq![lf[1]],
                    },
                    Seq::empty(),
                )
            } else {
                (
                    TypeModel::Unknown,
                    seq![
                        "frame mismatch in multiplication: matrix input '"@ + lf[0]
                            + "' but vector frame '"@ + rf[0] + "'"@,
                    ],
                )
            }
        } else if lf.len() == 2 && rf.len() == 2 {
            if lf[1] == rf[0] {
                (
                    TypeModel::Gator {
                        scheme: lt->scheme,
                        subtype: lt->subtype,
                        frames: seq![lf[0], rf[1]],
                    },
                    Seq::empty(),
                )
            } else {
                (
                    TypeModel::Unknown,
                    seq!["frame mismatch in matrix * matrix: '"@ + lf[1] + "' != '"@ + rf[0] + "'"@],
                )
            }
        } else {
            (TypeModel::Unknown, Seq::empty())
        }
    } else {
        (
            TypeModel::Unknown,
            seq![
                "cannot multiply "@ + type_debug_text(lt) + " by "@ + type_debug_text(rt)
                    + ": cannot mix annotated and unannotated types"@,
            ],
        )
    }
}

/// Messages of the assignment rule: an unknown type on either side, two plain
/// types (GLSL checks those) or two equal types are fine; anything else is a
/// mismatch for `name`.
pub open spec fn compatible_rule(declared: TypeModel, inferred: TypeModel, name: Seq<char>) -> Seq<
    Seq<char>,
> {
    if declared is Unknown || inferred is Unknown {
        Seq::empty()
    } else if declared is Plain && inferred is Plain {
        Seq::empty()
    } else if declared == inferred {
        Seq::empty()
    } else {
        seq![
            "type mismatch for '"@ + name + "': declared "@ + type_debug_text(declared)
                + " but expression has type "@ + type_debug_text(inferred),
        ]
    }
}

/// The inferred type of an expression, and the messages found inside it, in
/// the order the checker reports them (left operand, right operand, then
/// the operation itself). Literals and swizzles are `float`; names have
/// their bound type; calls, and operators other than `+ - *`, are unknown.
pub open spec fn infer_rule(e: ExprModel, env: TypeEnv) -> (TypeModel, Seq<Seq<char>>)
    decreases e,
{
    match e {
        ExprModel::Float(_) => (TypeModel::Plain("float"@), Seq::empty()),
        ExprModel::Ident(name) => if env.contains_key(name) {
            (env[name], Seq::empty())
        } else {
            (TypeModel::Unknown, Seq::empty())
        },
        ExprModel::Swizzle { .. } => (TypeModel::Plain("float"@), Seq::empty()),
        ExprModel::Call { .. } => (TypeModel::Unknown, Seq::empty()),
        ExprModel::BinOp { op, left, right } => {
            let (lt, le) = infer_rule(*left, env);
            let (rt, re) = infer_rule(*right, env);
            if op == '+' || op == '-' {
                let (t, m) = add_rule(lt, rt);
                (t, le + re + m)
            } else if op == '*' {
                let (t, m) = mul_rule(lt, rt);
                (t, le + re + m)
            } else {
                (TypeModel::Unknown, le + re)
            }
        },
    }
}

/// The bindings after a statement, and the messages it gives. A declaration
/// checks its expression against its annotation and binds the name to the
/// annotation; an assignment checks against the name's known type, if any;
/// a swizzle update only checks its expression.
pub open spec fn stmt_rule(s: StmtModel, env: TypeEnv) -> (TypeEnv, Seq<Seq<char>>) {
    match s {
        StmtModel::Decl { ty, name, expr } => {
            let declared = type_of_annotation(ty);
            let (inferred, msgs) = infer_rule(expr, env);
            (env.insert(name, declared), msgs + compatible_rule(declared, inferred, name))
        },
        StmtModel::Assign { name, expr } => {
            let (inferred, msgs) = infer_rule(expr, env);
            if env.contains_key(name) {
                (env, msgs + compatible_rule(env[name], inferred, name))
            } else {
                (env, msgs)
            }
        },
        StmtModel::SwizzleAssign { expr, .. } => (env, infer_rule(expr, env).1),
    }
}

/// The bindings of the top-level declarations: `gl_FragColor` is a `vec4`,
/// and every uniform and varying has its annotated type.
pub open spec fn decls_env(ds: Seq<TopDeclModel>) -> TypeEnv
    decreases ds.len(),
{
    if ds.len() == 0 {
        Map::empty().insert("gl_FragColor"@, TypeModel::Plain("vec4"@))
    } else {
        let env = decls_env(ds.drop_last());
        match ds.last() {
            TopDeclModel::Uniform { ty, name } => env.insert(name, type_of_annotation(ty)),
            TopDeclModel::Varying { ty, name } => env.insert(name, type_of_annotation(ty)),
            TopDeclModel::Precision { .. } => env,
        }
    }
}

/// The bindings and messages after the statements `ss`, in order, from `env`.
pub open spec fn stmts_rule(ss: Seq<StmtModel>, env: TypeEnv) -> (TypeEnv, Seq<Seq<char>>)
    decreases ss.len(),
{
    if ss.len() == 0 {
        (env, Seq::empty())
    } else {
        let (env1, msgs1) = stmts_rule(ss.drop_last(), env);
        let (env2, msgs2) = stmt_rule(ss.last(), env1);
        (env2, msgs1 + msgs2)
    }
}

/// Every message that checking a program gives, in order.
pub open spec fn check_messages(decls: Seq<TopDeclModel>, stmts: Seq<StmtModel>) -> Seq<
    Seq<char>,
> {
    stmts_rule(stmts, decls_env(decls)).1
}

/// The messages of a list of errors.
pub open spec fn messages(errors: Seq<TypeError>) -> Seq<Seq<char>> {
    errors.map_values(|e: TypeError| e.message@)
}

/// Appends an error with the given message.
fn report(errors: &mut Vec<TypeError>, message: String)
    ensures
        messages(final(errors)@) == messages(old(errors)@).push(message@),
{
    let ghost before = errors@;
    errors.push(TypeError { message });
    assert(messages(errors@) =~= messages(before).push(message@));
}

/// The addition rule; a mismatch is reported to `errors`.
pub fn check_add(lt: &GatorType, rt: &GatorType, errors: &mut Vec<TypeError>) -> (t: GatorType)
    ensures
        t@ == add_rule(lt@, rt@).0,
        messages(final(errors)@) == messages(old(errors)@) + add_rule(lt@, rt@).1,
{
    match (lt, rt) {
        (GatorType::Unknown, _) | (_, GatorType::Unknown) => {
            assert(messages(errors@) =~= messages(errors@) + Seq::<Seq<char>>::empty());
            GatorType::Unknown
        },
        (GatorType::Plain(_), GatorType::Plain(_)) => {
            assert(messages(errors@) =~= messages(errors@) + Seq::<Seq<char>>::empty());
            lt.copy()
        },
        _ => {
            if lt.same_as(rt) {
                assert(messages(errors@) =~= messages(errors@) + Seq::<Seq<char>>::empty());
                lt.copy()
            } else {
                let mut message = String::from_str("type mismatch in addition: ");
                let l = debug_text(lt);
                let r = debug_text(rt);
                message.append(l.as_str());
                message.append(" + ");
                message.append(r.as_str());
                report(errors, message);
                GatorType::Unknown
            }
        },
    }
}

/// The multiplication rule; a frame mismatch, or mixing annotated and
/// unannotated types, is reported to `errors`.
pub fn check_mul(lt: &GatorType, rt: &GatorType, errors: &mut Vec<TypeError>) -> (t: GatorType)
    ensures
        t@ == mul_rule(lt@, rt@).0,
        messages(final(errors)@) == messages(old(errors)@) + mul_rule(lt@, rt@).1,
{
    let ghost start = messages(errors@);
    assert(start + Seq::<Seq<char>>::empty() =~= start);
    let left_float = match lt {
        GatorType::Plain(s) => crate::text::str_eq(s.as_str(), "float"),
        _ => false,
    };
    let right_float = match rt {
        GatorType::Plain(s) => crate::text::str_eq(s.as_str(), "float"),
        _ => false,
    };
    match (lt, rt) {
        (GatorType::Unknown, _) | (_, GatorType::Unknown) => GatorType::Unknown,
        (GatorType::Plain(_), GatorType::Gator { .. }) if left_float => rt.copy(),
        (GatorType::Gator { .. }, GatorType::Plain(_)) if right_float => lt.copy(),
        (GatorType::Plain(_), GatorType::Plain(_)) => GatorType::Plain(
            String::from_str("unannotated"),
        ),
        (
            GatorType::Gator { scheme: ls, subtype: lsub, frames: lf },
            GatorType::Gator { scheme: rs, subtype: rsub, frames: rf },
        ) => {
            proof {
                assert(lt@->frames == strings_view(lf@));
                assert(rt@->frames == strings_view(rf@));
            }
            if lf.len() == 2 && rf.len() == 1 {
                assert(strings_view(lf@)[0] == lf@[0]@);
                assert(strings_view(lf@)[1] == lf@[1]@);
                assert(strings_view(rf@)[0] == rf@[0]@);
                if lf[0] == rf[0] {
                    let mut frames: Vec<String> = Vec::new();
                    frames.push(lf[1].clone());
                    let t = GatorType::Gator {
                        scheme: rs.clone(),
                        subtype: match rsub {
                            Some(x) => Some(x.clone()),
                            None => None,
                        },
                        frames,
                    };
                    assert(t@->frames =~= seq![lf@[1]@]);
                    t
                } else {
                    let mut message = String::from_str(
                        "frame mismatch in multiplication: matrix input '",
                    );
                    message.append(lf[0].as_str());
                    message.append("' but vector frame '");
                    message.append(rf[0].as_str());
                    message.append("'");
                    report(errors, message);
                    assert(messages(errors@) =~= start + mul_rule(lt@, rt@).1);
                    GatorType::Unknown
                }
            } else if lf.len() == 2 && rf.len() == 2 {
                assert(strings_view(lf@)[0] == lf@[0]@);
                assert(strings_view(lf@)[1] == lf@[1]@);
                assert(strings_view(rf@)[0] == rf@[0]@);
                assert(strings_view(rf@)[1] == rf@[1]@);
                if lf[1] == rf[0] {
                    let mut frames: Vec<String> = Vec::new();
                    frames.push(lf[0].clone());
                    frames.push(rf[1].clone());
                    let t = GatorType::Gator {
                        scheme: ls.clone(),
                        subtype: match lsub {
                            Some(x) => Some(x.clone()),
                            None => None,
                        },
                        frames,
                    };
                    assert(t@->frames =~= seq![lf@[0]@, rf@[1]@]);
                    t
                } else {
                    let mut message = String::from_str("frame mismatch in matrix * matrix: '");
                    message.append(lf[1].as_str());
                    message.append("' != '");
                    message.append(rf[0].as_str());
                    message.append("'");
                    report(errors, message);
                    assert(messages(errors@) =~= start + mul_rule(lt@, rt@).1);
                    GatorType::Unknown
                }
            } else {
                GatorType::Unknown
            }
        },
        _ => {
            let mut message = String::from_str("cannot multiply ");
            let l = debug_text(lt);
            let r = debug_text(rt);
            message.append(l.as_str());
            message.append(" by ");
            message.append(r.as_str());
            message.append(": cannot mix annotated and unannotated types");
            report(errors, message);
            assert(messages(errors@) =~= start + mul_rule(lt@, rt@).1);
            GatorType::Unknown
        },
    }
}

/// The assignment rule; a mismatch for `name` is reported to `errors`.
pub fn check_compatible(
    declared: &GatorType,
    inferred: &GatorType,
    name: &String,
    errors: &mut Vec<TypeError>,
)
    ensures
        messages(final(errors)@) == messages(old(errors)@) + compatible_rule(
            declared@,
            inferred@,
            name@,
        ),
{
    let ghost start = messages(errors@);
    assert(start + Seq::<Seq<char>>::empty() =~= start);
    match (declared, inferred) {
        (_, GatorType::Unknown) | (GatorType::Unknown, _) => {},
        (GatorType::Plain(_), GatorType::Plain(_)) => {},
        _ => {
            if !declared.same_as(inferred) {
                let mut message = String::from_str("type mismatch for '");
                message.append(name.as_str());
                message.append("': declared ");
                let d = debug_text(declared);
                message.append(d.as_str());
                message.append(" but expression has type ");
                let i = debug_text(inferred);
                message.append(i.as_str());
                report(errors, message);
                assert(messages(errors@) =~= start + compatible_rule(
                    declared@,
                    inferred@,
                    name@,
                ));
            }
        },
    }
}

/// Infers the type of an expression; what it finds wrong inside is reported to `errors`.
fn infer(expr: &Expr, type_map: &TypeMap, errors: &mut Vec<TypeError>) -> (t: GatorType)
    ensures
        t@ == infer_rule(expr@, type_map@).0,
        messages(final(errors)@) == messages(old(errors)@) + infer_rule(expr@, type_map@).1,
    decreases expr,
{
    let ghost start = messages(errors@);
    assert(start + Seq::<Seq<char>>::empty() =~= start);
    match expr {
        Expr::Float(_) => GatorType::Plain(String::from_str("float")),
        Expr::Ident(name) => match type_map.get(name) {
            Some(t) => t,
            None => GatorType::Unknown,
        },
        Expr::Swizzle { .. } => GatorType::Plain(String::from_str("float")),
        Expr::Call { .. } => GatorType::Unknown,
        Expr::BinOp { op, left, right } => {
            let lt = infer(left, type_map, errors);
            let ghost after_left = messages(errors@);
            let rt = infer(right, type_map, errors);
            let ghost after_right = messages(errors@);
            if *op == '+' || *op == '-' {
                let t = check_add(&lt, &rt, errors);
                assert(messages(errors@) =~= start + infer_rule(expr@, type_map@).1);
                t
            } else if *op == '*' {
                let t = check_mul(&lt, &rt, errors);
                assert(messages(errors@) =~= start + infer_rule(expr@, type_map@).1);
                t
            } else {
                assert(messages(errors@) =~= start + infer_rule(expr@, type_map@).1);
                GatorType::Unknown
            }
        },
    }
}

/// Checks one statement and records what it declares.
fn check_stmt(stmt: &Stmt, type_map: &mut TypeMap, errors: &mut Vec<TypeError>)
    ensures
        final(type_map)@ == stmt_rule(stmt@, old(type_map)@).0,
        messages(final(errors)@) == messages(old(errors)@) + stmt_rule(stmt@, old(type_map)@).1,
{
    let ghost start = messages(errors@);
    match stmt {
        Stmt::Decl { ty, name, expr } => {
            let declared = parse_gator_type(ty.as_str());
            let inferred = infer(expr, type_map, errors);
            check_compatible(&declared, &inferred, name, errors);
            assert(messages(errors@) =~= start + stmt_rule(stmt@, old(type_map)@).1);
            type_map.insert(name.clone(), declared);
        },
        Stmt::Assign { name, expr } => {
            let inferred = infer(expr, type_map, errors);
            match type_map.get(name) {
                Some(declared) => {
                    check_compatible(&declared, &inferred, name, errors);
                    assert(messages(errors@) =~= start + stmt_rule(stmt@, old(type_map)@).1);
                },
                None => {},
            }
        },
        Stmt::SwizzleAssign { expr, .. } => {
            infer(expr, type_map, errors);
        },
    }
}

/// Builds the type map from the top-level declarations, then checks each
/// statement of `main()` in order; returns every problem found.
pub fn check(program: &Program) -> (errors: Vec<TypeError>)
    ensures
        messages(errors@) == check_messages(program@.decls, program@.stmts),
{
    let mut errors: Vec<TypeError> = Vec::new();
    let mut type_map = TypeMap::new();
    type_map.insert(String::from_str("gl_FragColor"), GatorType::Plain(String::from_str("vec4")));
    let ghost decls = program@.decls;
    let ghost stmts = program@.stmts;
    let mut i: usize = 0;
    assert(decls.take(0) =~= Seq::<TopDeclModel>::empty());
    while i < program.decls.len()
        invariant
            decls == program@.decls,
            i <= program.decls@.len(),
            type_map@ == decls_env(decls.take(i as int)),
        decreases program.decls@.len() - i,
    {
        assert(decls.take(i + 1).drop_last() =~= decls.take(i as int));
        match &program.decls[i] {
            TopDecl::Uniform { ty, name } => {
                type_map.insert(name.clone(), parse_gator_type(ty.as_str()));
            },
            TopDecl::Varying { ty, name } => {
                type_map.insert(name.clone(), parse_gator_type(ty.as_str()));
            },
            TopDecl::Precision { .. } => {},
        }
        i = i + 1;
    }
    assert(decls.take(i as int) =~= decls);
    let ghost env0 = type_map@;
    let mut j: usize = 0;
    assert(stmts.take(0) =~= Seq::<StmtModel>::empty());
    assert(messages(errors@) =~= Seq::<Seq<char>>::empty());
    while j < program.stmts.len()
        invariant
            stmts == program@.stmts,
            j <= program.stmts@.len(),
            type_map@ == stmts_rule(stmts.take(j as int), env0).0,
            messages(errors@) == stmts_rule(stmts.take(j as int), env0).1,
        decreases program.stmts@.len() - j,
    {
        assert(stmts.take(j + 1).drop_last() =~= stmts.take(j as int));
        check_stmt(&program.stmts[j], &mut type_map, &mut errors);
        j = j + 1;
    }
    assert(stmts.take(j as int) =~= stmts);
    errors
}

} // verus!
