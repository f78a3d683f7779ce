//! The mapping from a native type to its schema identifier and its
//! annotation token. It is total: a type that is not recognized, or that
//! cannot be resolved, maps to the unknown identifier and to `any`.

use vstd::prelude::*;
use vstd::string::*;

use crate::registry::TypeScope;
use crate::schema::{PrimitiveKind, SchemaTypeId};
use crate::shape::{TypeRef, TypeRefView};
use crate::text::same_text;

verus! {

/// The primitive kind that the type name `name` stands for, if it stands for
/// one. The names of byte sequences are recognized only where `bytes` is set.
pub open spec fn primitive_kind(name: Seq<char>, bytes: bool) -> Option<PrimitiveKind> {
    if name == "u8"@ {
        Some(PrimitiveKind::U8)
    } else if name == "u16"@ {
        Some(PrimitiveKind::U16)
    } else if name == "u32"@ {
        Some(PrimitiveKind::U32)
    } else if name == "u64"@ {
        Some(PrimitiveKind::U64)
    } else if name == "u128"@ {
        Some(PrimitiveKind::U128)
    } else if name == "usize"@ {
        Some(PrimitiveKind::USize)
    } else if name == "i8"@ {
        Some(PrimitiveKind::I8)
    } else if name == "i16"@ {
        Some(PrimitiveKind::I16)
    } else if name == "i32"@ {
        Some(PrimitiveKind::I32)
    } else if name == "i64"@ {
        Some(PrimitiveKind::I64)
    } else if name == "i128"@ {
        Some(PrimitiveKind::I128)
    } else if name == "isize"@ {
        Some(PrimitiveKind::ISize)
    } else if name == "bool"@ {
        Some(PrimitiveKind::Bool)
    } else if name == "String"@ || name == "str"@ {
        Some(PrimitiveKind::Str)
    } else if bytes && (name == "Bytes"@ || name == "ByteBuf"@) {
        Some(PrimitiveKind::Bytes)
    } else {
        None
    }
}

/// The annotation token of a primitive kind.
pub open spec fn primitive_token(kind: PrimitiveKind) -> Seq<char> {
    match kind {
        PrimitiveKind::Unit => "any"@,
        PrimitiveKind::Bool => "boolean"@,
        PrimitiveKind::Str => "string"@,
        PrimitiveKind::Bytes => "any"@,
        _ => "number"@,
    }
}

/// Decides `primitive_kind` for a concrete name.
pub fn primitive_of(name: &str, bytes: bool) -> (kind: Option<PrimitiveKind>)
    ensures
        kind == primitive_kind(name@, bytes),
{
    if same_text(name, "u8") {
        Some(PrimitiveKind::U8)
    } else if same_text(name, "u16") {
        Some(PrimitiveKind::U16)
    } else if same_text(name, "u32") {
        Some(PrimitiveKind::U32)
    } else if same_text(name, "u64") {
        Some(PrimitiveKind::U64)
    } else if same_text(name, "u128") {
        Some(PrimitiveKind::U128)
    } else if same_text(name, "usize") {
        Some(PrimitiveKind::USize)
    } else if same_text(name, "i8") {
        Some(PrimitiveKind::I8)
    } else if same_text(name, "i16") {
        Some(PrimitiveKind::I16)
    } else if same_text(name, "i32") {
        Some(PrimitiveKind::I32)
    } else if same_text(name, "i64") {
        Some(PrimitiveKind::I64)
    } else if same_text(name, "i128") {
        Some(PrimitiveKind::I128)
    } else if same_text(name, "isize") {
        Some(PrimitiveKind::ISize)
    } else if same_text(name, "bool") {
        Some(PrimitiveKind::Bool)
    } else if same_text(name, "String") || same_text(name, "str") {
        Some(PrimitiveKind::Str)
    } else if bytes && (same_text(name, "Bytes") || same_text(name, "ByteBuf")) {
        Some(PrimitiveKind::Bytes)
    } else {
        None
    }
}

/// The annotation token of `kind`.
pub fn token_of(kind: PrimitiveKind) -> (token: &'static str)
    ensures
        token@ == primitive_token(kind),
{
    match kind {
        PrimitiveKind::Unit => "any",
        PrimitiveKind::Bool => "boolean",
        PrimitiveKind::Str => "string",
        PrimitiveKind::Bytes => "any",
        _ => "number",
    }
}

/// What a type is resolved against: the named types that are known, and
/// whether byte sequences are recognized.
pub struct EnvView {
    pub scope: Map<Seq<char>, SchemaTypeId>,
    pub bytes: bool,
}

/// The environment of one derivation: a scope, together with the type that
/// is being derived and the identifier that it is about to receive, so that
/// the type can refer to itself.
pub struct Env<'a> {
    pub scope: &'a TypeScope,
    pub own_name: &'a str,
    pub own_id: SchemaTypeId,
    pub bytes: bool,
}

impl<'a> View for Env<'a> {
    type V = EnvView;

    open spec fn view(&self) -> EnvView {
        EnvView { scope: self.scope@.insert(self.own_name@, self.own_id), bytes: self.bytes }
    }
}

impl<'a> Env<'a> {
    /// The identifier under which `name` is known, if it is.
    pub fn lookup(&self, name: &str) -> (found: Option<SchemaTypeId>)
        ensures
            match found {
                Some(id) => self@.scope.contains_key(name@) && self@.scope[name@] == id,
                None => !self@.scope.contains_key(name@),
            },
    {
        if same_text(name, self.own_name) {
            Some(self.own_id)
        } else {
            self.scope.lookup(name)
        }
    }
}

/// What a type resolves to: the identifier for the schema and the token for
/// the annotation.
pub struct Resolved {
    pub id: SchemaTypeId,
    pub token: Seq<char>,
}

/// A `Resolved` with its token as a string.
pub struct ResolvedType {
    pub id: SchemaTypeId,
    pub token: String,
}

impl View for ResolvedType {
    type V = Resolved;

    open spec fn view(&self) -> Resolved {
        Resolved { id: self.id, token: self.token@ }
    }
}

/// Whether `ty` is the type of owned or of unsized text.
pub open spec fn is_text(ty: TypeRefView) -> bool {
    ty matches TypeRefView::Path { name, .. } && (name == "String"@ || name == "str"@)
}

/// What resolves to nothing known.
pub open spec fn unresolved() -> Resolved {
    Resolved { id: SchemaTypeId::unknown(), token: "any"@ }
}

/// Text, owned or borrowed.
pub open spec fn resolved_text() -> Resolved {
    Resolved { id: SchemaTypeId::Primitive(PrimitiveKind::Str), token: "string"@ }
}

/// The identifier and the token of `ty`.
///
/// - A slice or an array of `T` has no identifier of its own; its token is
///   `Array<..>` around the token of `T`.
/// - A path is told by its name. A primitive name gives its kind and the
///   token of that kind. `Cow` of text is text. `Option` of `T` has no
///   identifier of its own; its token is the token of `T` followed by `?`.
///   Any other name that the scope knows gives the identifier it is known
///   under, and the name itself as its token.
/// - A reference to text is text.
/// - Everything else is unresolved.
///
/// For a sequence and for an `Option` the two results differ in what they
/// say: the token is precise, while the identifier is the unknown one,
/// because the schema has no kind for either.
pub open spec fn resolve(ty: TypeRefView, env: EnvView) -> Resolved
    decreases ty,
{
    match ty {
        TypeRefView::Slice(elem) => Resolved {
            id: SchemaTypeId::unknown(),
            token: "Array<"@ + resolve(*elem, env).token + ">"@,
        },
        TypeRefView::Array(elem) => Resolved {
            id: SchemaTypeId::unknown(),
            token: "Array<"@ + resolve(*elem, env).token + ">"@,
        },
        TypeRefView::Path { name, arg } => match primitive_kind(name, env.bytes) {
            Some(kind) => Resolved {
                id: SchemaTypeId::Primitive(kind),
                token: primitive_token(kind),
            },
            None => if name == "Cow"@ {
                match arg {
                    Some(inner) => if is_text(*inner) {
                        resolved_text()
                    } else {
                        unresolved()
                    },
                    None => unresolved(),
                }
            } else if name == "Option"@ {
                match arg {
                    Some(inner) => Resolved {
                        id: SchemaTypeId::unknown(),
                        token: resolve(*inner, env).token + "?"@,
                    },
                    None => unresolved(),
                }
            } else if env.scope.contains_key(name) {
                Resolved { id: env.scope[name], token: name }
            } else {
                unresolved()
            },
        },
        TypeRefView::Reference(target) => if is_text(*target) {
            resolved_text()
        } else {
            unresolved()
        },
        _ => unresolved(),
    }
}

/// Decides `is_text` for a concrete type.
pub fn check_text(ty: &TypeRef) -> (yes: bool)
    ensures
        yes == is_text(ty@),
{
    match ty {
        TypeRef::Path { name, arg } => same_text(name.as_str(), "String") || same_text(
            name.as_str(),
            "str",
        ),
        _ => false,
    }
}

fn unresolved_type() -> (r: ResolvedType)
    ensures
        r@ == unresolved(),
{
    ResolvedType {
        id: SchemaTypeId::Primitive(PrimitiveKind::Unit),
        token: String::from_str("any"),
    }
}

fn text_type() -> (r: ResolvedType)
    ensures
        r@ == resolved_text(),
{
    ResolvedType {
        id: SchemaTypeId::Primitive(PrimitiveKind::Str),
        token: String::from_str("string"),
    }
}

fn sequence_type(elem: &TypeRef, env: &Env) -> (r: ResolvedType)
    ensures
        r.id == SchemaTypeId::unknown(),
        r.token@ == "Array<"@ + resolve(elem@, env@).token + ">"@,
    decreases elem, 2nat,
{
    let inner = resolve_type(elem, env);
    let mut token = String::from_str("Array<");
    token.append(inner.token.as_str());
    token.append(">");
    ResolvedType { id: SchemaTypeId::Primitive(PrimitiveKind::Unit), token }
}

/// Resolves `ty` in `env`, in one pass for both results.
pub fn resolve_type(ty: &TypeRef, env: &Env) -> (r: ResolvedType)
    ensures
        r@ == resolve(ty@, env@),
    decreases ty, 1nat,
{
    match ty {
        TypeRef::Slice(elem) => sequence_type(&**elem, env),
        TypeRef::Array(elem) => sequence_type(&**elem, env),
        TypeRef::Path { name, arg } => {
            match primitive_of(name.as_str(), env.bytes) {
                Some(kind) => ResolvedType {
                    id: SchemaTypeId::Primitive(kind),
                    token: String::from_str(token_of(kind)),
                },
                None => {
                    if same_text(name.as_str(), "Cow") {
                        match arg {
                            Some(inner) => if check_text(&**inner) {
                                text_type()
                            } else {
                                unresolved_type()
                            },
                            None => unresolved_type(),
                        }
                    } else if same_text(name.as_str(), "Option") {
                        match arg {
                            Some(inner) => {
                                let mut token = resolve_type(&**inner, env).token;
                                token.append("?");
                                ResolvedType {
                                    id: SchemaTypeId::Primitive(PrimitiveKind::Unit),
                                    token,
                                }
                            },
                            None => unresolved_type(),
                        }
                    } else {
                        match env.lookup(name.as_str()) {
                            Some(id) => ResolvedType { id, token: name.clone() },
                            None => unresolved_type(),
                        }
                    }
                },
            }
        },
        TypeRef::Reference(target) => if check_text(&**target) {
            text_type()
        } else {
            unresolved_type()
        },
        _ => unresolved_type(),
    }
}

/// The annotation token of `ty` in `env`.
pub fn type_to_ts(ty: &TypeRef, env: &Env) -> (token: String)
    ensures
        token@ == resolve(ty@, env@).token,
{
    resolve_type(ty, env).token
}

} // verus!
