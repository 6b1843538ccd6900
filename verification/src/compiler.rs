//! The interface compiler: a deterministic, single-pass transformation of
//! a declarative interface description into a proxy definition.
//!
//! Compilation resolves the interface name, the default object path and
//! the default destination from the top-level directives, classifies every
//! declared method as a remote call, a property getter or a property
//! setter, derives each member's wire name, and synthesizes an
//! introspection member when the declaration has none. Every failure is a
//! fatal [`CompileError`]; no partial proxy definition is ever produced.

use vstd::prelude::*;

use crate::decl::DirectiveArg;
use crate::decl::DirectiveValue;
use crate::decl::InterfaceDeclaration;
use crate::decl::MethodDecl;
use crate::proxy::Member;
use crate::proxy::MemberKind;
use crate::proxy::ProxyDef;
use crate::utils::pascal_case;
use crate::utils::spec_has_setter_prefix;
use crate::utils::spec_pascal_case;
use crate::utils::spec_strip_setter_prefix;
use crate::utils::str_eq;
use crate::utils::strip_setter_prefix;

verus! {

/// A fatal compilation failure. Compile errors never recover and leave no
/// partial output; runtime transport failures are a different channel
/// entirely and never reach this type.
#[derive(Clone, Debug)]
pub enum CompileError {
    /// A top-level argument that is not a `key = value` directive.
    UnknownAttribute,
    /// A top-level directive whose key is not recognized.
    UnsupportedArgument,
    /// An `interface` directive whose value is not a string literal.
    InvalidInterfaceArgument,
    /// A `default_path` directive whose value is not a string literal.
    InvalidPathArgument,
    /// A `default_service` directive whose value is not a string literal.
    InvalidServiceArgument,
    /// A setter-shaped property method whose name does not begin with the
    /// `set_` prefix; the offending method's name is carried along.
    MissingSetterPrefix(String),
}

/// The message of a compile error.
pub open spec fn spec_message(e: CompileError) -> Seq<char> {
    match e {
        CompileError::UnknownAttribute => "Unknown attribute"@,
        CompileError::UnsupportedArgument => "Unsupported argument"@,
        CompileError::InvalidInterfaceArgument => "Invalid interface argument"@,
        CompileError::InvalidPathArgument => "Invalid path argument"@,
        CompileError::InvalidServiceArgument => "Invalid service argument"@,
        CompileError::MissingSetterPrefix(name) => "Missing set_ prefix on property setter "@
            + name@,
    }
}

impl CompileError {
    /// The error's message, identifying the offending construct.
    pub fn message(&self) -> (m: String)
        ensures
            m@ == spec_message(*self),
    {
        match self {
            CompileError::UnknownAttribute => String::from_str("Unknown attribute"),
            CompileError::UnsupportedArgument => String::from_str("Unsupported argument"),
            CompileError::InvalidInterfaceArgument => String::from_str(
                "Invalid interface argument",
            ),
            CompileError::InvalidPathArgument => String::from_str("Invalid path argument"),
            CompileError::InvalidServiceArgument => String::from_str("Invalid service argument"),
            CompileError::MissingSetterPrefix(name) => String::from_str(
                "Missing set_ prefix on property setter ",
            ).concat(name.as_str()),
        }
    }
}

/// The resolved top-level directives: each is optional, and a directive
/// given twice keeps its later value.
pub struct Directives {
    /// The `interface` directive's value, if given.
    pub interface: Option<String>,
    /// The `default_path` directive's value, if given.
    pub default_path: Option<String>,
    /// The `default_service` directive's value, if given.
    pub default_service: Option<String>,
}

/// The view of an optional directive value.
pub open spec fn spec_opt_text(o: Option<String>) -> Option<Seq<char>> {
    match o {
        Some(s) => Some(s@),
        None => None,
    }
}

/// The error one directive argument raises on its own, if any: a malformed
/// argument, an unrecognized key, or a recognized key whose value is not a
/// string literal.
pub open spec fn spec_arg_error(a: DirectiveArg) -> Option<CompileError> {
    match a {
        DirectiveArg::Malformed => Some(CompileError::UnknownAttribute),
        DirectiveArg::KeyValue { key, value } => if key@ == "interface"@ {
            match value {
                DirectiveValue::Text(_) => None,
                DirectiveValue::NonText => Some(CompileError::InvalidInterfaceArgument),
            }
        } else if key@ == "default_path"@ {
            match value {
                DirectiveValue::Text(_) => None,
                DirectiveValue::NonText => Some(CompileError::InvalidPathArgument),
            }
        } else if key@ == "default_service"@ {
            match value {
                DirectiveValue::Text(_) => None,
                DirectiveValue::NonText => Some(CompileError::InvalidServiceArgument),
            }
        } else {
            Some(CompileError::UnsupportedArgument)
        },
    }
}

/// The first error among the directive arguments, in order, if any.
pub open spec fn spec_first_directive_error(args: Seq<DirectiveArg>) -> Option<CompileError>
    decreases args.len(),
{
    if args.len() == 0 {
        None
    } else {
        match spec_arg_error(args[0]) {
            Some(e) => Some(e),
            None => spec_first_directive_error(args.drop_first()),
        }
    }
}

/// The value the named directive resolves to after folding the arguments,
/// in order, over the value resolved so far: a later directive overwrites
/// an earlier one.
pub open spec fn spec_directive_value_from(
    args: Seq<DirectiveArg>,
    key: Seq<char>,
    acc: Option<Seq<char>>,
) -> Option<Seq<char>>
    decreases args.len(),
{
    if args.len() == 0 {
        acc
    } else {
        let next = match args[0] {
            DirectiveArg::KeyValue { key: k, value: DirectiveValue::Text(v) } => if k@ == key {
                Some(v@)
            } else {
                acc
            },
            _ => acc,
        };
        spec_directive_value_from(args.drop_first(), key, next)
    }
}

/// The value the named directive resolves to, if it is given at all.
pub open spec fn spec_directive_value(args: Seq<DirectiveArg>, key: Seq<char>) -> Option<Seq<char>> {
    spec_directive_value_from(args, key, None)
}

/// Folds the top-level directive arguments, in order, into the resolved
/// directives, stopping at the first malformed argument, unrecognized key
/// or non-string value.
pub fn parse_directives(args: &Vec<DirectiveArg>) -> (r: Result<Directives, CompileError>)
    ensures
        match r {
            Ok(d) => spec_first_directive_error(args@) is None && spec_opt_text(d.interface)
                == spec_directive_value(args@, "interface"@) && spec_opt_text(d.default_path)
                == spec_directive_value(args@, "default_path"@) && spec_opt_text(d.default_service)
                == spec_directive_value(args@, "default_service"@),
            Err(e) => spec_first_directive_error(args@) == Some(e),
        },
{
    let mut interface: Option<String> = None;
    let mut default_path: Option<String> = None;
    let mut default_service: Option<String> = None;
    let n = args.len();
    let mut i: usize = 0;
    proof {
        assert(args@.skip(0) =~= args@);
    }
    while i < n
        invariant
            i <= n,
            n == args@.len(),
            spec_first_directive_error(args@) == spec_first_directive_error(args@.skip(i as int)),
            spec_directive_value(args@, "interface"@) == spec_directive_value_from(
                args@.skip(i as int),
                "interface"@,
                spec_opt_text(interface),
            ),
            spec_directive_value(args@, "default_path"@) == spec_directive_value_from(
                args@.skip(i as int),
                "default_path"@,
                spec_opt_text(default_path),
            ),
            spec_directive_value(args@, "default_service"@) == spec_directive_value_from(
                args@.skip(i as int),
                "default_service"@,
                spec_opt_text(default_service),
            ),
        decreases n - i,
    {
        proof {
            reveal_strlit("interface");
            reveal_strlit("default_path");
            reveal_strlit("default_service");
            assert("interface"@.len() == 9);
            assert("default_path"@.len() == 12);
            assert("default_service"@.len() == 15);
            assert("interface"@ != "default_path"@);
            assert("interface"@ != "default_service"@);
            assert("default_path"@ != "default_service"@);
            assert(args@.skip(i as int)[0] == args@[i as int]);
            assert(args@.skip(i as int).drop_first() =~= args@.skip(i as int + 1));
        }
        match &args[i] {
            DirectiveArg::Malformed => {
                return Err(CompileError::UnknownAttribute);
            },
            DirectiveArg::KeyValue { key, value } => {
                if str_eq(key.as_str(), "interface") {
                    match value {
                        DirectiveValue::Text(v) => {
                            interface = Some(v.clone());
                        },
                        DirectiveValue::NonText => {
                            return Err(CompileError::InvalidInterfaceArgument);
                        },
                    }
                } else if str_eq(key.as_str(), "default_path") {
                    match value {
                        DirectiveValue::Text(v) => {
                            default_path = Some(v.clone());
                        },
                        DirectiveValue::NonText => {
                            return Err(CompileError::InvalidPathArgument);
                        },
                    }
                } else if str_eq(key.as_str(), "default_service") {
                    match value {
                        DirectiveValue::Text(v) => {
                            default_service = Some(v.clone());
                        },
                        DirectiveValue::NonText => {
                            return Err(CompileError::InvalidServiceArgument);
                        },
                    }
                } else {
                    return Err(CompileError::UnsupportedArgument);
                }
            },
        }
        i = i + 1;
    }
    proof {
        assert(args@.skip(n as int) =~= Seq::<DirectiveArg>::empty());
    }
    Ok(Directives { interface, default_path, default_service })
}

/// A directive error is never the missing-prefix error: that one belongs
/// to the method pass alone.
pub proof fn lemma_directive_error_shape(args: Seq<DirectiveArg>)
    ensures
        match spec_first_directive_error(args) {
            Some(e) => !(e is MissingSetterPrefix),
            None => true,
        },
    decreases args.len(),
{
    if args.len() > 0 {
        if spec_arg_error(args[0]) is None {
            lemma_directive_error_shape(args.drop_first());
        }
    }
}

/// The resolved interface name: the `interface` directive's value, else
/// `org.freedesktop.` followed by the declaration's local name.
pub open spec fn spec_resolved_interface(args: Seq<DirectiveArg>, local_name: Seq<char>) -> Seq<
    char,
> {
    match spec_directive_value(args, "interface"@) {
        Some(v) => v,
        None => "org.freedesktop."@ + local_name,
    }
}

/// The resolved default object path: the `default_path` directive's value,
/// else `/org/freedesktop/` followed by the declaration's local name.
pub open spec fn spec_resolved_path(args: Seq<DirectiveArg>, local_name: Seq<char>) -> Seq<char> {
    match spec_directive_value(args, "default_path"@) {
        Some(v) => v,
        None => "/org/freedesktop/"@ + local_name,
    }
}

/// The resolved default destination service: the `default_service`
/// directive's value, else the resolved interface name.
pub open spec fn spec_resolved_service(args: Seq<DirectiveArg>, local_name: Seq<char>) -> Seq<
    char,
> {
    match spec_directive_value(args, "default_service"@) {
        Some(v) => v,
        None => spec_resolved_interface(args, local_name),
    }
}

/// With none of the three directives given, the resolved interface name is
/// `org.freedesktop.` and the local name, the resolved default path is
/// `/org/freedesktop/` and the local name, and the resolved default
/// service is the resolved interface name.
pub proof fn lemma_default_naming(args: Seq<DirectiveArg>, local_name: Seq<char>)
    requires
        spec_directive_value(args, "interface"@) is None,
        spec_directive_value(args, "default_path"@) is None,
        spec_directive_value(args, "default_service"@) is None,
    ensures
        spec_resolved_interface(args, local_name) == "org.freedesktop."@ + local_name,
        spec_resolved_path(args, local_name) == "/org/freedesktop/"@ + local_name,
        spec_resolved_service(args, local_name) == "org.freedesktop."@ + local_name,
{
}

/// How a declared method reaches the transport: a property with the value
/// argument is a setter, a property without one is a getter, anything else
/// is a remote call.
pub open spec fn spec_member_kind(m: MethodDecl) -> MemberKind {
    if m.is_property {
        if m.params@.len() >= 1 {
            MemberKind::Setter
        } else {
            MemberKind::Getter
        }
    } else {
        MemberKind::Call
    }
}

/// Whether a declared method satisfies the naming rule: a setter-shaped
/// property method without an explicit wire name must carry the `set_`
/// prefix; every other method may be named freely.
pub open spec fn spec_method_name_ok(m: MethodDecl) -> bool {
    ||| m.wire_name_override is Some
    ||| !(m.is_property && m.params@.len() >= 1)
    ||| spec_has_setter_prefix(m.name@)
}

/// The wire name a declared method resolves to: the explicit override if
/// present, else the word-joined form of the method name, with the
/// leading `set_` stripped first for a setter.
pub open spec fn spec_wire_name(m: MethodDecl) -> Seq<char> {
    match m.wire_name_override {
        Some(n) => n@,
        None => if m.is_property && m.params@.len() >= 1 {
            spec_pascal_case(spec_strip_setter_prefix(m.name@))
        } else {
            spec_pascal_case(m.name@)
        },
    }
}

/// Whether a generated member is exactly what the declared method asks
/// for: same name, parameters, return type and documentation, the resolved
/// wire name, and the declared classification.
pub open spec fn spec_member_matches(m: MethodDecl, mem: Member) -> bool {
    &&& mem.source_name@ == m.name@
    &&& mem.wire_name@ == spec_wire_name(m)
    &&& mem.kind == spec_member_kind(m)
    &&& mem.params == m.params
    &&& mem.return_type@ == m.return_type@
    &&& mem.doc@ == m.doc@
}

/// Whether a member is the synthesized introspection member.
pub open spec fn spec_is_introspect_member(mem: Member) -> bool {
    &&& mem.source_name@ == "introspect"@
    &&& mem.wire_name@ == "Introspect"@
    &&& mem.kind == MemberKind::Introspect
    &&& mem.params@.len() == 0
    &&& mem.return_type@ == "String"@
    &&& mem.doc@.len() == 0
}

/// Whether some declared method is named `introspect`.
pub open spec fn spec_has_introspect(ms: Seq<MethodDecl>) -> bool {
    exists|i: int| 0 <= i < ms.len() && (#[trigger] ms[i]).name@ == "introspect"@
}

/// Whether the generated members are exactly the declared methods, in
/// order, followed by the synthesized introspection member when no
/// declared method is named `introspect`.
pub open spec fn spec_members_match(ms: Seq<MethodDecl>, mems: Seq<Member>) -> bool {
    &&& (if spec_has_introspect(ms) {
        mems.len() == ms.len()
    } else {
        mems.len() == ms.len() + 1 && spec_is_introspect_member(mems.last())
    })
    &&& forall|i: int| 0 <= i < ms.len() ==> spec_member_matches(ms[i], #[trigger] mems[i])
}

/// Compiles one declared method into its generated member, deriving the
/// wire name and the classification; fails exactly when a setter-shaped
/// property method without an explicit wire name lacks the `set_` prefix.
pub fn compile_method(m: MethodDecl) -> (r: Result<Member, CompileError>)
    ensures
        match r {
            Ok(mem) => spec_method_name_ok(m) && spec_member_matches(m, mem) && mem.wf(),
            Err(e) => !spec_method_name_ok(m) && (e matches CompileError::MissingSetterPrefix(name)
                && name@ == m.name@),
        },
{
    let MethodDecl { name, params, return_type, is_property, wire_name_override, doc } = m;
    let is_setter = is_property && params.len() >= 1;
    let kind = if is_property {
        if params.len() >= 1 {
            MemberKind::Setter
        } else {
            MemberKind::Getter
        }
    } else {
        MemberKind::Call
    };
    let wire_name: String;
    match wire_name_override {
        Some(n) => {
            wire_name = n;
        },
        None => {
            if is_setter {
                match strip_setter_prefix(name.as_str()) {
                    Some(rest) => {
                        wire_name = pascal_case(rest);
                    },
                    None => {
                        return Err(CompileError::MissingSetterPrefix(name));
                    },
                }
            } else {
                wire_name = pascal_case(name.as_str());
            }
        },
    }
    Ok(Member { source_name: name, wire_name, kind, params, return_type, doc })
}

/// Compiles an interface declaration under its top-level directives into a
/// proxy definition.
///
/// On success the definition carries the resolved naming, one member per
/// declared method in order, and the synthesized introspection member when
/// the declaration has none of its own. On failure no partial definition
/// is produced: the result is the first directive error in directive
/// order, else the missing-prefix error of the first offending method.
pub fn dbus_proxy(args: &Vec<DirectiveArg>, decl: InterfaceDeclaration) -> (r: Result<
    ProxyDef,
    CompileError,
>)
    ensures
        match r {
            Ok(def) => {
                &&& spec_first_directive_error(args@) is None
                &&& forall|i: int|
                    0 <= i < decl.methods@.len() ==> spec_method_name_ok(
                        #[trigger] decl.methods@[i],
                    )
                &&& def.proxy_name@ == decl.local_name@ + "Proxy"@
                &&& def.doc@ == decl.doc@
                &&& def.interface_name@ == spec_resolved_interface(args@, decl.local_name@)
                &&& def.default_path@ == spec_resolved_path(args@, decl.local_name@)
                &&& def.default_service@ == spec_resolved_service(args@, decl.local_name@)
                &&& spec_members_match(decl.methods@, def.members@)
            },
            Err(e) => match e {
                CompileError::MissingSetterPrefix(name) => {
                    &&& spec_first_directive_error(args@) is None
                    &&& exists|i: int|
                        {
                            &&& 0 <= i < decl.methods@.len()
                            &&& !spec_method_name_ok(#[trigger] decl.methods@[i])
                            &&& name@ == decl.methods@[i].name@
                            &&& forall|j: int|
                                0 <= j < i ==> spec_method_name_ok(#[trigger] decl.methods@[j])
                        }
                },
                _ => spec_first_directive_error(args@) == Some(e),
            },
        },
{
    let directives = match parse_directives(args) {
        Ok(d) => d,
        Err(e) => {
            proof {
                lemma_directive_error_shape(args@);
            }
            return Err(e);
        },
    };
    let InterfaceDeclaration { local_name, doc, methods } = decl;
    proof {
        assert(methods@ == decl.methods@);
        assert(local_name@ == decl.local_name@);
        assert(doc@ == decl.doc@);
    }
    let interface_name: String = match directives.interface {
        Some(s) => s,
        None => String::from_str("org.freedesktop.").concat(local_name.as_str()),
    };
    let default_path: String = match directives.default_path {
        Some(s) => s,
        None => String::from_str("/org/freedesktop/").concat(local_name.as_str()),
    };
    let default_service: String = match directives.default_service {
        Some(s) => s,
        None => interface_name.clone(),
    };
    let proxy_name = local_name.concat("Proxy");

    let ghost ms = methods@;
    let mut methods = methods;
    let mut members: Vec<Member> = Vec::new();
    let mut has_introspect = false;
    let n = methods.len();
    let mut i: usize = 0;
    proof {
        assert(methods@ =~= ms.skip(0));
        assert(ms.take(0) =~= Seq::<MethodDecl>::empty());
    }
    while i < n
        invariant
            i <= n,
            n == ms.len(),
            ms == decl.methods@,
            spec_first_directive_error(args@) is None,
            methods@ == ms.skip(i as int),
            members@.len() == i,
            has_introspect == spec_has_introspect(ms.take(i as int)),
            forall|j: int| 0 <= j < i ==> spec_method_name_ok(#[trigger] ms[j]),
            forall|j: int| 0 <= j < i ==> spec_member_matches(ms[j], #[trigger] members@[j]),
        decreases n - i,
    {
        let ghost members_prev = members@;
        let m = methods.remove(0);
        proof {
            assert(ms.skip(i as int)[0] == ms[i as int]);
            assert(ms.skip(i as int).remove(0) =~= ms.skip(i as int + 1));
        }
        let is_introspect = str_eq(m.name.as_str(), "introspect");
        if is_introspect {
            has_introspect = true;
        }
        proof {
            let pre = ms.take(i as int);
            let post = ms.take(i as int + 1);
            assert(pre.push(ms[i as int]) =~= post);
            if is_introspect {
                assert(post[i as int].name@ == "introspect"@);
                assert(spec_has_introspect(post));
            } else {
                if spec_has_introspect(pre) {
                    let k = choose|k: int| 0 <= k < pre.len() && (#[trigger] pre[k]).name@
                        == "introspect"@;
                    assert(post[k].name@ == "introspect"@);
                    assert(spec_has_introspect(post));
                }
                if spec_has_introspect(post) {
                    let k = choose|k: int| 0 <= k < post.len() && (#[trigger] post[k]).name@
                        == "introspect"@;
                    assert(k < i || k == i);
                    if k < i {
                        assert(pre[k].name@ == "introspect"@);
                        assert(spec_has_introspect(pre));
                    }
                }
            }
        }
        match compile_method(m) {
            Ok(mem) => {
                members.push(mem);
                proof {
                    assert(members@ =~= members_prev.push(mem));
                }
            },
            Err(e) => {
                proof {
                    let k = i as int;
                    assert(m == ms[k]);
                    assert(!spec_method_name_ok(decl.methods@[k]));
                    assert(forall|j: int|
                        0 <= j < k ==> spec_method_name_ok(#[trigger] decl.methods@[j]));
                }
                return Err(e);
            },
        }
        i = i + 1;
    }
    proof {
        assert(ms.take(n as int) =~= ms);
    }
    if !has_introspect {
        let ghost members_prev = members@;
        let mem = Member {
            source_name: String::from_str("introspect"),
            wire_name: String::from_str("Introspect"),
            kind: MemberKind::Introspect,
            params: Vec::new(),
            return_type: String::from_str("String"),
            doc: String::new(),
        };
        members.push(mem);
        proof {
            assert(members@ =~= members_prev.push(mem));
            assert(members@.last() == mem);
        }
    }
    Ok(ProxyDef { proxy_name, doc, interface_name, default_path, default_service, members })
}

} // verus!
