//! The surface model of an interface declaration: the top-level
//! directives, the declared methods with their annotations, and the
//! declaration itself. The compiler consumes one declaration and emits one
//! proxy definition; a declaration is never reused.

use vstd::prelude::*;

verus! {

/// The value side of a top-level directive, as the surface syntax gives
/// it: directive values must be string literals, and anything else is kept
/// only far enough to be rejected.
#[derive(Clone, Debug)]
pub enum DirectiveValue {
    /// A string-literal value.
    Text(String),
    /// A value of any other shape; always a fatal compile error.
    NonText,
}

/// One top-level directive argument of a declaration.
#[derive(Clone, Debug)]
pub enum DirectiveArg {
    /// A `key = value` directive.
    KeyValue { key: String, value: DirectiveValue },
    /// An argument that is not a `key = value` pair; always a fatal
    /// compile error.
    Malformed,
}

/// A declared parameter of a method, beyond the receiver.
#[derive(Clone, Debug)]
pub struct Param {
    /// The parameter's name.
    pub name: String,
    /// The parameter's declared type, carried verbatim.
    pub ty: String,
}

/// One declared method of an interface, immutable once parsed.
#[derive(Clone, Debug)]
pub struct MethodDecl {
    /// The declared method name.
    pub name: String,
    /// The ordered parameters beyond the receiver.
    pub params: Vec<Param>,
    /// The declared return type, carried verbatim.
    pub return_type: String,
    /// Whether the method is annotated as a property accessor.
    pub is_property: bool,
    /// An explicit wire-name override, if the method carries one.
    pub wire_name_override: Option<String>,
    /// Documentation text, copied verbatim onto the generated member.
    pub doc: String,
}

/// A whole interface declaration: the local name and the ordered methods.
/// The top-level directives travel beside it as [`DirectiveArg`]s.
#[derive(Clone, Debug)]
pub struct InterfaceDeclaration {
    /// The declaration's local name `N`, from which the default interface
    /// name `org.freedesktop.N` and object path `/org/freedesktop/N` are
    /// derived.
    pub local_name: String,
    /// Documentation text, copied verbatim onto the generated proxy.
    pub doc: String,
    /// The declared methods, in declaration order.
    pub methods: Vec<MethodDecl>,
}

} // verus!
