//! Routing of the tool names the host invokes: the plugin's own `ntfy.*`
//! tools, and the `notify.__backend.<endpoint>.<op>` callbacks of the
//! notification backends.

use vstd::prelude::*;
use vstd::string::*;

use crate::text::{has_prefix, rsplit_once, rsplit_once_spec, starts_with, str_eq, strip_prefix};

verus! {

/// Tool-name prefix this plugin owns.
pub const TOOL_PREFIX: &'static str = "ntfy.";

/// Tool-name family through which the host calls each registered
/// notification backend back: `notify.__backend.<endpoint>.<op>`.
pub const BACKEND_PREFIX: &'static str = "notify.__backend.";


/// Why an invocation could not be carried out.
#[derive(Debug)]
pub enum InvokeError {
    /// The tool is neither a backend callback nor in the `ntfy.` namespace.
    OutsideNamespace { tool: String },
    /// The tool's arguments are not valid JSON.
    InvalidArgs { detail: String },
    /// The result could not be encoded.
    EncodeFailed { detail: String },
    /// A backend callback without an operation after the endpoint name.
    MalformedBackendInvoke { rest: String },
    /// A backend callback for an operation other than `emit`.
    UnknownOperation { op: String },
    /// The event handed to `emit` could not be decoded.
    InvalidEmitArgs { detail: String },
    /// The endpoint database could not be opened.
    DbOpenFailed { detail: String },
    /// Looking the endpoint up failed.
    LoadEndpoint { name: String, detail: String },
    /// No endpoint of that name is registered.
    EndpointNotRegistered { name: String },
    /// The tool or the backend reported this failure.
    Failed { detail: String },
}

impl InvokeError {
    /// The text of the error, as the host receives it.
    pub open spec fn message_spec(&self) -> Seq<char> {
        match self {
            InvokeError::OutsideNamespace { tool } => "tool '"@ + tool@
                + "' is not in this plugin's '"@ + TOOL_PREFIX@ + "' namespace"@,
            InvokeError::InvalidArgs { detail } => "invalid args JSON: "@ + detail@,
            InvokeError::EncodeFailed { detail } => "failed to encode result: "@ + detail@,
            InvokeError::MalformedBackendInvoke { rest } => "malformed backend invoke '"@
                + BACKEND_PREFIX@ + rest@ + "'"@,
            InvokeError::UnknownOperation { op } => "ntfy notification backend has no operation '"@
                + op@ + "'"@,
            InvokeError::InvalidEmitArgs { detail } => "invalid emit args: "@ + detail@,
            InvokeError::DbOpenFailed { detail } => "db open failed: "@ + detail@,
            InvokeError::LoadEndpoint { name, detail } => "load endpoint '"@ + name@ + "': "@
                + detail@,
            InvokeError::EndpointNotRegistered { name } => "ntfy endpoint '"@ + name@
                + "' not registered"@,
            InvokeError::Failed { detail } => detail@,
        }
    }

    /// The text of the error, as the host receives it.
    pub fn message(&self) -> (m: String)
        ensures
            m@ == self.message_spec(),
    {
        match self {
            InvokeError::OutsideNamespace { tool } => {
                let mut m = String::from_str("tool '");
                m.append(tool.as_str());
                m.append("' is not in this plugin's '");
                m.append(TOOL_PREFIX);
                m.append("' namespace");
                m
            },
            InvokeError::InvalidArgs { detail } => {
                let mut m = String::from_str("invalid args JSON: ");
                m.append(detail.as_str());
                m
            },
            InvokeError::EncodeFailed { detail } => {
                let mut m = String::from_str("failed to encode result: ");
                m.append(detail.as_str());
                m
            },
            InvokeError::MalformedBackendInvoke { rest } => {
                let mut m = String::from_str("malformed backend invoke '");
                m.append(BACKEND_PREFIX);
                m.append(rest.as_str());
                m.append("'");
                m
            },
            InvokeError::UnknownOperation { op } => {
                let mut m = String::from_str("ntfy notification backend has no operation '");
                m.append(op.as_str());
                m.append("'");
                m
            },
            InvokeError::InvalidEmitArgs { detail } => {
                let mut m = String::from_str("invalid emit args: ");
                m.append(detail.as_str());
                m
            },
            InvokeError::DbOpenFailed { detail } => {
                let mut m = String::from_str("db open failed: ");
                m.append(detail.as_str());
                m
            },
            InvokeError::LoadEndpoint { name, detail } => {
                let mut m = String::from_str("load endpoint '");
                m.append(name.as_str());
                m.append("': ");
                m.append(detail.as_str());
                m
            },
            InvokeError::EndpointNotRegistered { name } => {
                let mut m = String::from_str("ntfy endpoint '");
                m.append(name.as_str());
                m.append("' not registered");
                m
            },
            InvokeError::Failed { detail } => detail.clone(),
        }
    }
}

/// A request to drive `emit` on the backend of one endpoint.
#[derive(Debug)]
pub struct EmitRequest {
    /// Endpoint whose backend emits.
    pub endpoint: String,
    /// The event to emit, as the host encoded it.
    pub args_json: String,
}

/// What a backend callback `<rest>` (the text after the backend prefix)
/// with arguments `args` comes to.
pub open spec fn backend_outcome(
    rest: Seq<char>,
    args: Seq<char>,
    r: Result<EmitRequest, InvokeError>,
) -> bool {
    match rsplit_once_spec(rest, '.') {
        None => r matches Err(InvokeError::MalformedBackendInvoke { rest: x }) && x@ == rest,
        Some((endpoint, op)) => if op == "emit"@ {
            r matches Ok(req) && req.endpoint@ == endpoint && req.args_json@ == args
        } else {
            r matches Err(InvokeError::UnknownOperation { op: o }) && o@ == op
        },
    }
}

/// Route one notification-backend callback. `rest` is `"<endpoint>.<op>"`,
/// split at its last dot; the only operation is `emit`.
pub fn invoke_backend(rest: &str, args_json: &str) -> (r: Result<EmitRequest, InvokeError>)
    ensures
        backend_outcome(rest@, args_json@, r),
{
    match rsplit_once(rest, '.') {
        None => Err(InvokeError::MalformedBackendInvoke { rest: String::from_str(rest) }),
        Some((endpoint, op)) => {
            if str_eq(op, "emit") {
                Ok(
                    EmitRequest {
                        endpoint: String::from_str(endpoint),
                        args_json: String::from_str(args_json),
                    },
                )
            } else {
                Err(InvokeError::UnknownOperation { op: String::from_str(op) })
            }
        },
    }
}

/// The text after the backend prefix, for a tool name that starts with it.
pub open spec fn backend_rest(tool: Seq<char>) -> Seq<char> {
    tool.subrange(BACKEND_PREFIX@.len() as int, tool.len() as int)
}

/// Backend-dispatch hook for the `notify.__backend.<endpoint>.emit`
/// callbacks: `None` for any tool outside the backend prefix, so that tool
/// dispatch handles it.
pub fn ntfy_backend_dispatch(tool: &str, args_json: &str) -> (r: Option<
    Result<EmitRequest, InvokeError>,
>)
    ensures
        r is Some <==> has_prefix(tool@, BACKEND_PREFIX@),
        r matches Some(x) ==> backend_outcome(backend_rest(tool@), args_json@, x),
{
    match strip_prefix(tool, BACKEND_PREFIX) {
        Some(rest) => Some(invoke_backend(rest, args_json)),
        None => None,
    }
}

/// Where an invocation of a tool name goes.
#[derive(Debug)]
pub enum InvokeRoute {
    /// A notification-backend callback, with what it comes to.
    Backend(Result<EmitRequest, InvokeError>),
    /// One of the plugin's own tools: hand it to tool dispatch.
    Dispatch,
    /// Refused before dispatch.
    Rejected(InvokeError),
}

/// The name is one of the plugin's own tools.
pub open spec fn is_own_tool_name(name: Seq<char>) -> bool {
    has_prefix(name, TOOL_PREFIX@)
}

/// Whether the tool `name` belongs to the plugin's own namespace.
pub fn is_own_tool(name: &str) -> (b: bool)
    ensures
        b == is_own_tool_name(name@),
        b == has_prefix(name@, "ntfy."@),
{
    starts_with(name, TOOL_PREFIX)
}

/// Route an invocation: backend callbacks first, then the plugin's own
/// `ntfy.*` tools; anything else is refused.
pub fn route_invoke(name: &str, args_json: &str) -> (r: InvokeRoute)
    ensures
        has_prefix(name@, BACKEND_PREFIX@) ==> (r matches InvokeRoute::Backend(x)
            && backend_outcome(backend_rest(name@), args_json@, x)),
        !has_prefix(name@, BACKEND_PREFIX@) && !is_own_tool_name(name@) ==> (r matches InvokeRoute::Rejected(
            InvokeError::OutsideNamespace { tool: t },
        ) && t@ == name@),
        !has_prefix(name@, BACKEND_PREFIX@) && is_own_tool_name(name@) ==> r is Dispatch,
        r is Dispatch <==> has_prefix(name@, "ntfy."@),
{
    proof {
        lemma_families_disjoint(name@);
        lemma_own_tools_are_the_ntfy_namespace(name@);
    }
    if let Some(outcome) = ntfy_backend_dispatch(name, args_json) {
        return InvokeRoute::Backend(outcome);
    }
    if !is_own_tool(name) {
        return InvokeRoute::Rejected(InvokeError::OutsideNamespace { tool: String::from_str(name) });
    }
    InvokeRoute::Dispatch
}

/// The names among `names` that belong to the plugin's own namespace, in order.
pub open spec fn own_names(names: Seq<Seq<char>>) -> Seq<Seq<char>>
    decreases names.len(),
{
    if names.len() == 0 {
        Seq::empty()
    } else if is_own_tool_name(names.last()) {
        own_names(names.drop_last()).push(names.last())
    } else {
        own_names(names.drop_last())
    }
}

/// The plugin's own tool surface: the tool names filtered to the `ntfy.*`
/// namespace, in order.
pub fn own_tools(names: Vec<String>) -> (r: Vec<String>)
    ensures
        r.deep_view() == own_names(names.deep_view()),
{
    let mut r: Vec<String> = Vec::new();
    let mut i: usize = 0;
    while i < names.len()
        invariant
            i <= names.len(),
            r.deep_view() == own_names(names.deep_view().subrange(0, i as int)),
        decreases names.len() - i,
    {
        assert(names.deep_view().subrange(0, i + 1).drop_last() =~= names.deep_view().subrange(
            0,
            i as int,
        ));
        if is_own_tool(names[i].as_str()) {
            r.push(names[i].clone());
            assert(r.deep_view() =~= own_names(names.deep_view().subrange(0, i as int)).push(
                names[i as int]@,
            ));
        }
        i = i + 1;
    }
    assert(names.deep_view().subrange(0, names.len() as int) =~= names.deep_view());
    r
}

/// The backend callbacks and the plugin's own tools are disjoint families.
pub proof fn lemma_families_disjoint(name: Seq<char>)
    ensures
        !(has_prefix(name, BACKEND_PREFIX@) && is_own_tool_name(name)),
{
    reveal_strlit("ntfy.");
    reveal_strlit("notify.__backend.");
    if has_prefix(name, BACKEND_PREFIX@) && is_own_tool_name(name) {
        assert(name.subrange(0, 5)[1] == 't');
        assert(name.subrange(0, 17)[1] == 'o');
        assert(name[1] == 't');
    }
}

/// Law: the tools the manifest lists are exactly those that an invocation
/// admits for dispatch. A name of the tool inventory is kept by `own_tools`
/// if and only if `route_invoke` hands it to tool dispatch (neither a
/// backend callback nor outside the `ntfy.` namespace).
pub proof fn lemma_manifest_matches_admission(names: Seq<Seq<char>>, n: Seq<char>)
    requires
        names.contains(n),
    ensures
        own_names(names).contains(n) <==> (!has_prefix(n, BACKEND_PREFIX@) && is_own_tool_name(n)),
{
    lemma_families_disjoint(n);
    lemma_own_names_members(names, n);
}

/// A name is kept by `own_names` if and only if it occurs and is in the namespace.
pub proof fn lemma_own_names_members(names: Seq<Seq<char>>, n: Seq<char>)
    ensures
        own_names(names).contains(n) <==> (names.contains(n) && is_own_tool_name(n)),
    decreases names.len(),
{
    if names.len() > 0 {
        let init = names.drop_last();
        lemma_own_names_members(init, n);
        assert(names =~= init.push(names.last()));
        if names.contains(n) && n != names.last() {
            let k = choose|k: int| 0 <= k < names.len() && names[k] == n;
            assert(init[k] == n);
        }
        if init.contains(n) {
            let k = choose|k: int| 0 <= k < init.len() && init[k] == n;
            assert(names[k] == n);
        }
        if is_own_tool_name(names.last()) {
            let o = own_names(init);
            assert(own_names(names) == o.push(names.last()));
            if o.push(names.last()).contains(n) && n != names.last() {
                let k = choose|k: int| 0 <= k < o.push(names.last()).len() && o.push(names.last())[k] == n;
                assert(o[k] == n);
            }
            if n == names.last() {
                assert(o.push(names.last())[o.len() as int] == n);
            }
            if o.contains(n) {
                let k = choose|k: int| 0 <= k < o.len() && o[k] == n;
                assert(o.push(names.last())[k] == n);
            }
        }
        if n == names.last() {
            assert(names[names.len() - 1] == n);
        }
    }
}

/// Law: a name is one of the plugin's own tools exactly when it starts with
/// `ntfy.`, with no other condition on it; such a name is never a backend
/// callback; and the manifest keeps exactly the inventory's names that start
/// with `ntfy.`.
pub proof fn lemma_own_tools_are_the_ntfy_namespace(name: Seq<char>)
    ensures
        is_own_tool_name(name) <==> has_prefix(name, "ntfy."@),
        has_prefix(name, "ntfy."@) ==> !has_prefix(name, BACKEND_PREFIX@),
        forall|names: Seq<Seq<char>>|
            #[trigger] own_names(names).contains(name) <==> (names.contains(name) && has_prefix(
                name,
                "ntfy."@,
            )),
{
    lemma_families_disjoint(name);
    assert forall|names: Seq<Seq<char>>|
        #[trigger] own_names(names).contains(name) <==> (names.contains(name) && has_prefix(
            name,
            "ntfy."@,
        )) by {
        lemma_own_names_members(names, name);
    }
}

} // verus!
