//! Gator types: plain GLSL types, and geometry types annotated with the
//! coordinate frames they live in (`Cart3.Point<World>`).
use vstd::prelude::*;

use crate::text::{
    find_char, first_index, split_on, split_str, str_eq, strip_trailing, strip_trailing_str,
    substring, trim, trim_str,
};

verus! {

/// The type of a variable or an expression, as the type checker sees it.
#[derive(Debug, Clone, PartialEq)]
pub enum GatorType {
    /// A GLSL type with no frame annotation (`float`, `vec3`, ...).
    Plain(String),
    /// A geometric type: its scheme (`Cart3`), its optional subtype (`Point`)
    /// and its frames (`<World>`, or `<Model, World>` for a transformation).
    Gator { scheme: String, subtype: Option<String>, frames: Vec<String> },
    /// A type that could not be determined.
    Unknown,
}

/// The mathematical value of a `GatorType`: its strings as character sequences.
pub enum TypeModel {
    Plain(Seq<char>),
    Gator { scheme: Seq<char>, subtype: Option<Seq<char>>, frames: Seq<Seq<char>> },
    Unknown,
}

/// The character sequences of a list of strings.
pub open spec fn strings_view(v: Seq<String>) -> Seq<Seq<char>> {
    v.map_values(|s: String| s@)
}

impl View for GatorType {
    type V = TypeModel;

    open spec fn view(&self) -> TypeModel {
        match self {
            GatorType::Plain(p) => TypeModel::Plain(p@),
            GatorType::Gator { scheme, subtype, frames } => TypeModel::Gator {
                scheme: scheme@,
                subtype: match subtype {
                    Some(s) => Some(s@),
                    None => None,
                },
                frames: strings_view(frames@),
            },
            GatorType::Unknown => TypeModel::Unknown,
        }
    }
}

/// The names of the GLSL types that carry no frame annotation.
pub open spec fn is_plain_name(s: Seq<char>) -> bool {
    ||| s == "float"@
    ||| s == "vec2"@
    ||| s == "vec3"@
    ||| s == "vec4"@
    ||| s == "mat3"@
    ||| s == "mat4"@
}

/// How a type annotation reads: a plain name is `Plain`; `Scheme.Sub<F1, F2>`
/// or `Scheme<F1>` is a `Gator` type whose frames are the comma-separated
/// pieces between the first `<` and the trailing `>`s, each trimmed; anything
/// else is `Unknown`.
pub open spec fn type_of_annotation(ty: Seq<char>) -> TypeModel {
    if is_plain_name(ty) {
        TypeModel::Plain(ty)
    } else {
        match first_index(ty, '<') {
            None => TypeModel::Unknown,
            Some(lt) => {
                let type_part = trim(ty.take(lt));
                let frames_str = strip_trailing(ty.skip(lt + 1), '>');
                let frames = split_on(frames_str, ',').map_values(|p: Seq<char>| trim(p));
                match first_index(type_part, '.') {
                    Some(dot) => TypeModel::Gator {
                        scheme: type_part.take(dot),
                        subtype: Some(type_part.skip(dot + 1)),
                        frames,
                    },
                    None => TypeModel::Gator { scheme: type_part, subtype: None, frames },
                }
            },
        }
    }
}

/// Whether `s` names one of the plain GLSL types.
pub fn is_plain_type_name(s: &str) -> (r: bool)
    ensures
        r == is_plain_name(s@),
{
    str_eq(s, "float") || str_eq(s, "vec2") || str_eq(s, "vec3") || str_eq(s, "vec4") || str_eq(
        s,
        "mat3",
    ) || str_eq(s, "mat4")
}

/// Reads a type annotation from the source: `"Cart3.Point<World>"` is a
/// Gator type, `"vec3"` is plain, anything unrecognized is `Unknown`.
pub fn parse_gator_type(ty: &str) -> (t: GatorType)
    ensures
        t@ == type_of_annotation(ty@),
{
    if is_plain_type_name(ty) {
        return GatorType::Plain(String::from_str(ty));
    }
    let n = ty.unicode_len();
    match find_char(ty, '<') {
        None => GatorType::Unknown,
        Some(lt) => {
            proof {
                crate::text::lemma_first_index_bounds(ty@, '<');
            }
            let head = substring(ty, 0, lt);
            let type_part = trim_str(head.as_str());
            let tail = substring(ty, lt + 1, n);
            assert(tail@ =~= ty@.skip(lt + 1));
            assert(head@ =~= ty@.take(lt as int));
            let frames_str = strip_trailing_str(tail.as_str(), '>');
            let pieces = split_str(frames_str.as_str(), ',');
            let mut frames: Vec<String> = Vec::new();
            let mut i: usize = 0;
            while i < pieces.len()
                invariant
                    i <= pieces@.len(),
                    frames@.len() == i,
                    strings_view(pieces@) == split_on(frames_str@, ','),
                    strings_view(frames@) == strings_view(pieces@).take(i as int).map_values(
                        |p: Seq<char>| trim(p),
                    ),
                decreases pieces@.len() - i,
            {
                let f = trim_str(pieces[i].as_str());
                let ghost before = frames@;
                frames.push(f);
                proof {
                    assert(strings_view(pieces@)[i as int] == pieces@[i as int]@);
                    assert(frames@ == before.push(f));
                    assert forall|k: int| 0 <= k < i implies #[trigger] strings_view(frames@)[k]
                        == strings_view(before)[k] by {
                        assert(frames@[k] == before[k]);
                    }
                    assert(strings_view(frames@) =~= strings_view(pieces@).take(
                        i + 1,
                    ).map_values(|p: Seq<char>| trim(p)));
                }
                i = i + 1;
            }
            assert(strings_view(pieces@).take(i as int) =~= strings_view(pieces@));
            let m = type_part.as_str().unicode_len();
            match find_char(type_part.as_str(), '.') {
                Some(dot) => {
                    proof {
                        crate::text::lemma_first_index_bounds(type_part@, '.');
                    }
                    let scheme = substring(type_part.as_str(), 0, dot);
                    let subtype = substring(type_part.as_str(), dot + 1, m);
                    assert(scheme@ =~= type_part@.take(dot as int));
                    assert(subtype@ =~= type_part@.skip(dot + 1));
                    GatorType::Gator { scheme, subtype: Some(subtype), frames }
                },
                None => GatorType::Gator { scheme: type_part, subtype: None, frames },
            }
        },
    }
}

/// A copy of a list of strings.
fn copy_strings(v: &Vec<String>) -> (r: Vec<String>)
    ensures
        strings_view(r@) == strings_view(v@),
{
    let mut r: Vec<String> = Vec::new();
    let mut i: usize = 0;
    while i < v.len()
        invariant
            i <= v@.len(),
            r@.len() == i,
            forall|k: int| 0 <= k < i ==> #[trigger] r@[k]@ == v@[k]@,
        decreases v@.len() - i,
    {
        r.push(v[i].clone());
        i = i + 1;
    }
    assert(strings_view(r@) =~= strings_view(v@));
    r
}

/// Whether two lists of strings hold the same strings in the same order.
fn same_strings(a: &Vec<String>, b: &Vec<String>) -> (r: bool)
    ensures
        r == (strings_view(a@) == strings_view(b@)),
{
    if a.len() != b.len() {
        assert(strings_view(a@).len() != strings_view(b@).len());
        return false;
    }
    let mut i: usize = 0;
    while i < a.len()
        invariant
            a@.len() == b@.len(),
            i <= a@.len(),
            forall|k: int| 0 <= k < i ==> #[trigger] a@[k]@ == b@[k]@,
        decreases a@.len() - i,
    {
        if a[i] != b[i] {
            assert(strings_view(a@)[i as int] != strings_view(b@)[i as int]);
            return false;
        }
        i = i + 1;
    }
    assert(strings_view(a@) =~= strings_view(b@));
    true
}

impl GatorType {
    /// A copy of this type.
    pub fn copy(&self) -> (r: GatorType)
        ensures
            r@ == self@,
    {
        match self {
            GatorType::Plain(p) => GatorType::Plain(p.clone()),
            GatorType::Gator { scheme, subtype, frames } => {
                let sub = match subtype {
                    Some(s) => Some(s.clone()),
                    None => None,
                };
                GatorType::Gator { scheme: scheme.clone(), subtype: sub, frames: copy_strings(frames) }
            },
            GatorType::Unknown => GatorType::Unknown,
        }
    }

    /// Whether two types are the same type.
    pub fn same_as(&self, other: &GatorType) -> (r: bool)
        ensures
            r == (self@ == other@),
    {
        match (self, other) {
            (GatorType::Plain(a), GatorType::Plain(b)) => *a == *b,
            (
                GatorType::Gator { scheme: s1, subtype: t1, frames: f1 },
                GatorType::Gator { scheme: s2, subtype: t2, frames: f2 },
            ) => {
                let same_sub = match (t1, t2) {
                    (Some(x), Some(y)) => *x == *y,
                    (None, None) => true,
                    _ => false,
                };
                *s1 == *s2 && same_sub && same_strings(f1, f2)
            },
            (GatorType::Unknown, GatorType::Unknown) => true,
            _ => false,
        }
    }
}

} // verus!
