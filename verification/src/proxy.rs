//! The compiler's output: a proxy definition with its resolved naming, its
//! generated members, and the transport action each member issues when
//! called.
//!
//! A member never interprets what it forwards: a remote call sends all its
//! arguments, in order, as one payload; a property setter sends its last
//! argument; a property getter and introspection send nothing. The
//! argument payload type is a type parameter of [`ProxyAction`], so the
//! dispatch rules are proved for every payload type at once.

use vstd::prelude::*;

use crate::decl::Param;

verus! {

/// How a generated member reaches the transport.
#[derive(Clone, Copy, Debug, PartialEq, Eq, Structural)]
pub enum MemberKind {
    /// A remote method call: forwards all arguments to `invoke`.
    Call,
    /// A property getter: forwards to `get`.
    Getter,
    /// A property setter: forwards its value argument to `set`.
    Setter,
    /// The introspection member: forwards to `introspect`.
    Introspect,
}

/// One generated member of a proxy.
#[derive(Clone, Debug)]
pub struct Member {
    /// The member's name on the generated proxy: the declared method name,
    /// or `introspect` for the synthesized introspection member.
    pub source_name: String,
    /// The resolved wire name the member addresses on the remote side.
    pub wire_name: String,
    /// How the member reaches the transport.
    pub kind: MemberKind,
    /// The member's parameters beyond the receiver, in order.
    pub params: Vec<Param>,
    /// The member's declared return type, carried verbatim.
    pub return_type: String,
    /// Documentation text, copied verbatim from the declaration.
    pub doc: String,
}

/// A compiled proxy definition.
#[derive(Clone, Debug)]
pub struct ProxyDef {
    /// The generated type's name: the declaration's local name followed by
    /// `Proxy`.
    pub proxy_name: String,
    /// Documentation text, copied verbatim from the declaration.
    pub doc: String,
    /// The resolved remote interface name.
    pub interface_name: String,
    /// The resolved default object path.
    pub default_path: String,
    /// The resolved default destination service.
    pub default_service: String,
    /// The generated members, in declaration order, with the synthesized
    /// introspection member last when the declaration has none of its own.
    pub members: Vec<Member>,
}

/// What a proxy constructor hands the transport when it opens a handle:
/// the destination service, the object path, and the interface name.
#[derive(Clone, Debug)]
pub struct ProxyBinding {
    /// The destination service the proxy addresses.
    pub destination: String,
    /// The object path the proxy addresses.
    pub path: String,
    /// The remote interface name the proxy addresses.
    pub interface: String,
}

/// The one transport action a generated member issues when called, over an
/// opaque argument payload type `V`. The payload is never inspected,
/// reordered or rewritten here, and whatever the transport answers flows
/// back unchanged.
#[derive(Clone, Debug)]
pub enum ProxyAction<V> {
    /// One `invoke` of the named remote method with all arguments, in
    /// order, as one payload.
    Invoke { method: String, args: Vec<V> },
    /// One `get` of the named property.
    GetProperty { property: String },
    /// One `set` of the named property to the given value.
    SetProperty { property: String, value: V },
    /// One `introspect` of the remote object.
    Introspect,
}

impl Member {
    /// A member's arity is consistent with how it reaches the transport: a
    /// setter has the value argument to send, a getter and the
    /// introspection member have none.
    pub open spec fn wf(&self) -> bool {
        match self.kind {
            MemberKind::Call => true,
            MemberKind::Getter => self.params@.len() == 0,
            MemberKind::Setter => self.params@.len() >= 1,
            MemberKind::Introspect => self.params@.len() == 0,
        }
    }

    /// The one transport action a call of this member issues, given the
    /// member's arguments in declaration order.
    pub fn action<V>(&self, args: Vec<V>) -> (a: ProxyAction<V>)
        requires
            self.wf(),
            args@.len() == self.params@.len(),
        ensures
            match a {
                ProxyAction::Invoke { method, args: sent } => self.kind == MemberKind::Call
                    && method@ == self.wire_name@ && sent@ == args@,
                ProxyAction::GetProperty { property } => self.kind == MemberKind::Getter
                    && property@ == self.wire_name@,
                ProxyAction::SetProperty { property, value } => self.kind == MemberKind::Setter
                    && property@ == self.wire_name@ && value == args@.last(),
                ProxyAction::Introspect => self.kind == MemberKind::Introspect,
            },
    {
        match self.kind {
            MemberKind::Call => ProxyAction::Invoke { method: self.wire_name.clone(), args },
            MemberKind::Getter => ProxyAction::GetProperty { property: self.wire_name.clone() },
            MemberKind::Setter => {
                let mut args = args;
                let value = args.pop().unwrap();
                ProxyAction::SetProperty { property: self.wire_name.clone(), value }
            },
            MemberKind::Introspect => ProxyAction::Introspect,
        }
    }
}

impl ProxyDef {
    /// What the default constructor hands the transport: the resolved
    /// default destination and path, and the resolved interface name.
    pub fn default_binding(&self) -> (b: ProxyBinding)
        ensures
            b.destination@ == self.default_service@,
            b.path@ == self.default_path@,
            b.interface@ == self.interface_name@,
    {
        ProxyBinding {
            destination: self.default_service.clone(),
            path: self.default_path.clone(),
            interface: self.interface_name.clone(),
        }
    }

    /// What the explicit constructor hands the transport: the given
    /// destination and path, and the same resolved interface name.
    pub fn binding_for(&self, destination: String, path: String) -> (b: ProxyBinding)
        ensures
            b.destination@ == destination@,
            b.path@ == path@,
            b.interface@ == self.interface_name@,
    {
        ProxyBinding { destination, path, interface: self.interface_name.clone() }
    }
}

} // verus!
