//! The decisions of the shader interpreter: which component a swizzle
//! selects, and which computation an operator or a built-in function
//! performs on the kinds of values it is given. The arithmetic itself is
//! carried out on floating-point values by the program around the library.
use vstd::prelude::*;

use crate::ast::{Stmt, StmtModel};
use crate::text::str_eq;

verus! {

/// The kinds of runtime values the interpreter works with.
#[derive(Debug, Clone, Copy, PartialEq, Eq, Structural)]
pub enum ValueKind {
    Float,
    Vec3,
    Vec4,
    Mat4,
}

/// The four arithmetic operations on scalars.
#[derive(Debug, Clone, Copy, PartialEq, Eq, Structural)]
pub enum Arith {
    Add,
    Sub,
    Mul,
    Div,
}

/// What a binary operator computes on its two operands.
#[derive(Debug, Clone, Copy, PartialEq, Eq, Structural)]
pub enum BinOpRule {
    /// Scalar arithmetic on two floats.
    Scalar(Arith),
    /// A vec3 scaled component-wise by a float; `scalar_left` tells on which
    /// side the float stands.
    ScaleVec3 { scalar_left: bool },
    /// Component-wise sum of two vec3s.
    Vec3Add,
    /// Component-wise difference of two vec3s.
    Vec3Sub,
    /// A mat4 applied to a vec4: each component is a row dotted with the vector.
    Mat4Vec4,
    /// The product of two mat4s.
    Mat4Mat4,
}

/// What a call of a built-in function computes on its arguments.
#[derive(Debug, Clone, Copy, PartialEq, Eq, Structural)]
pub enum CallRule {
    /// `vec3(float, float, float)`
    Vec3FromFloats,
    /// `vec3(vec4)`: the vector without its `w`.
    Vec3FromVec4,
    /// `vec4(vec3, float)`: a vec3 lifted to homogeneous form.
    Vec4FromVec3,
    /// `vec4(float, float, float, float)`
    Vec4FromFloats,
    /// `normalize(vec3)`: the vector divided by its length.
    Normalize,
    /// `dot(vec3, vec3)`
    Dot,
    /// `reflect(I, N) = I - 2 * dot(N, I) * N` on vec3s.
    Reflect,
    /// `max(float, float)`
    Max,
    /// `pow(float, float)`
    Pow,
}

/// The computation of `l op r` for operands of kinds `l` and `r`; `None`
/// where the interpreter has no such operation.
pub open spec fn binop_rule_of(op: char, l: ValueKind, r: ValueKind) -> Option<BinOpRule> {
    match (l, r) {
        (ValueKind::Float, ValueKind::Float) => if op == '+' {
            Some(BinOpRule::Scalar(Arith::Add))
        } else if op == '-' {
            Some(BinOpRule::Scalar(Arith::Sub))
        } else if op == '*' {
            Some(BinOpRule::Scalar(Arith::Mul))
        } else if op == '/' {
            Some(BinOpRule::Scalar(Arith::Div))
        } else {
            None
        },
        (ValueKind::Float, ValueKind::Vec3) => if op == '*' {
            Some(BinOpRule::ScaleVec3 { scalar_left: true })
        } else {
            None
        },
        (ValueKind::Vec3, ValueKind::Float) => if op == '*' {
            Some(BinOpRule::ScaleVec3 { scalar_left: false })
        } else {
            None
        },
        (ValueKind::Vec3, ValueKind::Vec3) => if op == '+' {
            Some(BinOpRule::Vec3Add)
        } else if op == '-' {
            Some(BinOpRule::Vec3Sub)
        } else {
            None
        },
        (ValueKind::Mat4, ValueKind::Vec4) => if op == '*' {
            Some(BinOpRule::Mat4Vec4)
        } else {
            None
        },
        (ValueKind::Mat4, ValueKind::Mat4) => if op == '*' {
            Some(BinOpRule::Mat4Mat4)
        } else {
            None
        },
        _ => None,
    }
}

/// Whether every argument is a float.
pub open spec fn all_floats(kinds: Seq<ValueKind>) -> bool {
    forall|i: int| 0 <= i < kinds.len() ==> kinds[i] == ValueKind::Float
}

/// The computation of the built-in `name` on arguments of the given kinds;
/// `None` where the interpreter has no such function or the arguments do not fit it.
/// `vec3` takes three floats or (when not given three arguments) a vec4 first;
/// `vec4` takes a vec3 and a float, or four floats; `normalize` reads its
/// first argument, `dot`, `reflect`, `max` and `pow` their first two.
pub open spec fn call_rule_of(name: Seq<char>, kinds: Seq<ValueKind>) -> Option<CallRule> {
    if name == "vec3"@ {
        if kinds.len() == 3 {
            if all_floats(kinds) {
                Some(CallRule::Vec3FromFloats)
            } else {
                None
            }
        } else if kinds.len() >= 1 && kinds[0] == ValueKind::Vec4 {
            Some(CallRule::Vec3FromVec4)
        } else {
            None
        }
    } else if name == "vec4"@ {
        if kinds.len() == 2 && kinds[0] == ValueKind::Vec3 && kinds[1] == ValueKind::Float {
            Some(CallRule::Vec4FromVec3)
        } else if all_floats(kinds) && kinds.len() == 4 {
            Some(CallRule::Vec4FromFloats)
        } else {
            None
        }
    } else if name == "normalize"@ {
        if kinds.len() >= 1 && kinds[0] == ValueKind::Vec3 {
            Some(CallRule::Normalize)
        } else {
            None
        }
    } else if name == "dot"@ || name == "reflect"@ {
        if kinds.len() >= 2 && kinds[0] == ValueKind::Vec3 && kinds[1] == ValueKind::Vec3 {
            if name == "dot"@ {
                Some(CallRule::Dot)
            } else {
                Some(CallRule::Reflect)
            }
        } else {
            None
        }
    } else if name == "max"@ || name == "pow"@ {
        if kinds.len() >= 2 && kinds[0] == ValueKind::Float && kinds[1] == ValueKind::Float {
            if name == "max"@ {
                Some(CallRule::Max)
            } else {
                Some(CallRule::Pow)
            }
        } else {
            None
        }
    } else {
        None
    }
}

/// Which computation `l op r` performs on operands of kinds `l` and `r`.
pub fn binop_rule(op: char, l: ValueKind, r: ValueKind) -> (rule: Option<BinOpRule>)
    ensures
        rule == binop_rule_of(op, l, r),
{
    match (l, r) {
        (ValueKind::Float, ValueKind::Float) => if op == '+' {
            Some(BinOpRule::Scalar(Arith::Add))
        } else if op == '-' {
            Some(BinOpRule::Scalar(Arith::Sub))
        } else if op == '*' {
            Some(BinOpRule::Scalar(Arith::Mul))
        } else if op == '/' {
            Some(BinOpRule::Scalar(Arith::Div))
        } else {
            None
        },
        (ValueKind::Float, ValueKind::Vec3) if op == '*' => Some(
            BinOpRule::ScaleVec3 { scalar_left: true },
        ),
        (ValueKind::Vec3, ValueKind::Float) if op == '*' => Some(
            BinOpRule::ScaleVec3 { scalar_left: false },
        ),
        (ValueKind::Vec3, ValueKind::Vec3) => if op == '+' {
            Some(BinOpRule::Vec3Add)
        } else if op == '-' {
            Some(BinOpRule::Vec3Sub)
        } else {
            None
        },
        (ValueKind::Mat4, ValueKind::Vec4) if op == '*' => Some(BinOpRule::Mat4Vec4),
        (ValueKind::Mat4, ValueKind::Mat4) if op == '*' => Some(BinOpRule::Mat4Mat4),
        _ => None,
    }
}

/// Whether every argument is a float.
fn floats_only(kinds: &Vec<ValueKind>) -> (r: bool)
    ensures
        r == all_floats(kinds@),
{
    let mut i: usize = 0;
    while i < kinds.len()
        invariant
            i <= kinds@.len(),
            forall|j: int| 0 <= j < i ==> kinds@[j] == ValueKind::Float,
        decreases kinds@.len() - i,
    {
        if kinds[i] != ValueKind::Float {
            return false;
        }
        i = i + 1;
    }
    true
}

/// Which computation a call of the built-in `name` performs on arguments of
/// the given kinds.
pub fn call_rule(name: &str, kinds: &Vec<ValueKind>) -> (rule: Option<CallRule>)
    ensures
        rule == call_rule_of(name@, kinds@),
{
    let n = kinds.len();
    if str_eq(name, "vec3") {
        if n == 3 {
            if floats_only(kinds) {
                Some(CallRule::Vec3FromFloats)
            } else {
                None
            }
        } else if n >= 1 && kinds[0] == ValueKind::Vec4 {
            Some(CallRule::Vec3FromVec4)
        } else {
            None
        }
    } else if str_eq(name, "vec4") {
        if n == 2 && kinds[0] == ValueKind::Vec3 && kinds[1] == ValueKind::Float {
            Some(CallRule::Vec4FromVec3)
        } else if floats_only(kinds) && n == 4 {
            Some(CallRule::Vec4FromFloats)
        } else {
            None
        }
    } else if str_eq(name, "normalize") {
        if n >= 1 && kinds[0] == ValueKind::Vec3 {
            Some(CallRule::Normalize)
        } else {
            None
        }
    } else if str_eq(name, "dot") || str_eq(name, "reflect") {
        if n >= 2 && kinds[0] == ValueKind::Vec3 && kinds[1] == ValueKind::Vec3 {
            if str_eq(name, "dot") {
                Some(CallRule::Dot)
            } else {
                Some(CallRule::Reflect)
            }
        } else {
            None
        }
    } else if str_eq(name, "max") || str_eq(name, "pow") {
        if n >= 2 && kinds[0] == ValueKind::Float && kinds[1] == ValueKind::Float {
            if str_eq(name, "max") {
                Some(CallRule::Max)
            } else {
                Some(CallRule::Pow)
            }
        } else {
            None
        }
    } else {
        None
    }
}

/// The index that a one-letter swizzle field selects, if the field is one.
/// Both the position letters `xyzw` and the colour letters `rgba` are accepted.
pub open spec fn swizzle_slot(field: Seq<char>) -> Option<nat> {
    if field == seq!['x'] || field == seq!['r'] {
        Some(0)
    } else if field == seq!['y'] || field == seq!['g'] {
        Some(1)
    } else if field == seq!['z'] || field == seq!['b'] {
        Some(2)
    } else if field == seq!['w'] || field == seq!['a'] {
        Some(3)
    } else {
        None
    }
}

/// Maps a swizzle letter to the vector component it selects.
pub fn swizzle_index(field: &str) -> (idx: usize)
    requires
        swizzle_slot(field@) is Some,
    ensures
        idx == swizzle_slot(field@)->0,
{
    let c = field.get_char(0);
    proof {
        assert(field@ =~= seq![c]);
    }
    if c == 'x' || c == 'r' {
        0
    } else if c == 'y' || c == 'g' {
        1
    } else if c == 'z' || c == 'b' {
        2
    } else {
        3
    }
}

/// Whether `field` is one of the swizzle letters `xyzw` / `rgba`.
pub fn is_swizzle_field(field: &str) -> (r: bool)
    ensures
        r == (swizzle_slot(field@) is Some),
{
    if field.unicode_len() != 1 {
        return false;
    }
    let c = field.get_char(0);
    assert(field@ =~= seq![c]);
    c == 'x' || c == 'r' || c == 'y' || c == 'g' || c == 'z' || c == 'b' || c == 'w' || c == 'a'
}

/// How an input value looks to the loader: a number, an array holding the
/// given count of numbers (other entries not counted), or anything else.
#[derive(Debug, Clone, Copy, PartialEq, Eq, Structural)]
pub enum InputShape {
    Number,
    Array { numbers: usize },
    Other,
}

/// The kind of value an input becomes: a number is a float, an array of three
/// numbers a vec3, of four a vec4; the `expected_output` entry, and every
/// other input, is not loaded.
pub open spec fn input_kind_of(key: Seq<char>, shape: InputShape) -> Option<ValueKind> {
    if key == "expected_output"@ {
        None
    } else {
        match shape {
            InputShape::Number => Some(ValueKind::Float),
            InputShape::Array { numbers } => if numbers == 3 {
                Some(ValueKind::Vec3)
            } else if numbers == 4 {
                Some(ValueKind::Vec4)
            } else {
                None
            },
            InputShape::Other => None,
        }
    }
}

/// The kind of value the input under `key` becomes, if it is loaded.
pub fn input_kind(key: &str, shape: InputShape) -> (r: Option<ValueKind>)
    ensures
        r == input_kind_of(key@, shape),
{
    if str_eq(key, "expected_output") {
        return None;
    }
    match shape {
        InputShape::Number => Some(ValueKind::Float),
        InputShape::Array { numbers } => if numbers == 3 {
            Some(ValueKind::Vec3)
        } else if numbers == 4 {
            Some(ValueKind::Vec4)
        } else {
            None
        },
        InputShape::Other => None,
    }
}

/// The component that reading `name.field` selects, given the kind of the
/// value bound to `name` (`None` if unbound): a vec3 has components
/// `x y z` / `r g b`, a vec4 also `w` / `a`; anything else cannot be read.
pub open spec fn read_slot_of(current: Option<ValueKind>, field: Seq<char>) -> Option<nat> {
    match (current, swizzle_slot(field)) {
        (Some(ValueKind::Vec3), Some(i)) => if i < 3 {
            Some(i)
        } else {
            None
        },
        (Some(ValueKind::Vec4), Some(i)) => Some(i),
        _ => None,
    }
}

/// The component that `name.field += e` updates, given the kind of the value
/// bound to `name` (`None` if unbound): only a vec3 is updated, in one of
/// `x y z` / `r g b`.
pub open spec fn update_slot_of(current: Option<ValueKind>, field: Seq<char>) -> Option<nat> {
    match (current, swizzle_slot(field)) {
        (Some(ValueKind::Vec3), Some(i)) => if i < 3 {
            Some(i)
        } else {
            None
        },
        _ => None,
    }
}

/// The component that reading `name.field` selects.
pub fn read_slot(current: Option<ValueKind>, field: &str) -> (r: Option<usize>)
    ensures
        match r {
            Some(i) => read_slot_of(current, field@) == Some(i as nat),
            None => read_slot_of(current, field@) is None,
        },
{
    if !is_swizzle_field(field) {
        return None;
    }
    let i = swizzle_index(field);
    match current {
        Some(ValueKind::Vec3) => if i < 3 {
            Some(i)
        } else {
            None
        },
        Some(ValueKind::Vec4) => Some(i),
        _ => None,
    }
}

/// The component that `name.field += e` updates.
pub fn update_slot(current: Option<ValueKind>, field: &str) -> (r: Option<usize>)
    ensures
        match r {
            Some(i) => update_slot_of(current, field@) == Some(i as nat),
            None => update_slot_of(current, field@) is None,
        },
{
    if !is_swizzle_field(field) {
        return None;
    }
    let i = swizzle_index(field);
    match current {
        Some(ValueKind::Vec3) => if i < 3 {
            Some(i)
        } else {
            None
        },
        _ => None,
    }
}

/// Where a statement stores its result.
#[derive(Debug, PartialEq)]
pub enum Target {
    /// The value is bound to `name`.
    Value { name: String },
    /// The value is bound to `name`, and `name` is recorded with its declared type.
    Declared { name: String, ty: String },
    /// The value is added to one component of the vector bound to `name`.
    Component { name: String, field: String },
}

/// The mathematical value of a `Target`.
pub enum TargetModel {
    Value { name: Seq<char> },
    Declared { name: Seq<char>, ty: Seq<char> },
    Component { name: Seq<char>, field: Seq<char> },
}

impl View for Target {
    type V = TargetModel;

    open spec fn view(&self) -> TargetModel {
        match self {
            Target::Value { name } => TargetModel::Value { name: name@ },
            Target::Declared { name, ty } => TargetModel::Declared { name: name@, ty: ty@ },
            Target::Component { name, field } => TargetModel::Component {
                name: name@,
                field: field@,
            },
        }
    }
}

/// Where a statement stores its result: an assignment binds its name, a
/// declaration binds its name and records its type, a swizzle update adds to
/// one component.
pub open spec fn target_of(s: StmtModel) -> TargetModel {
    match s {
        StmtModel::Assign { name, .. } => TargetModel::Value { name },
        StmtModel::Decl { ty, name, .. } => TargetModel::Declared { name, ty },
        StmtModel::SwizzleAssign { name, field, .. } => TargetModel::Component { name, field },
    }
}

/// Where a statement stores its result.
pub fn stmt_target(stmt: &Stmt) -> (t: Target)
    ensures
        t@ == target_of(stmt@),
{
    match stmt {
        Stmt::Assign { name, .. } => Target::Value { name: name.clone() },
        Stmt::Decl { ty, name, .. } => Target::Declared { name: name.clone(), ty: ty.clone() },
        Stmt::SwizzleAssign { name, field, .. } => Target::Component {
            name: name.clone(),
            field: field.clone(),
        },
    }
}

} // verus!
