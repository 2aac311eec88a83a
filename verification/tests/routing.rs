use ntfy::endpoints::{backend_for, backends, enabled_endpoints, EndpointRow};
use ntfy::routing::{
    invoke_backend, is_own_tool, ntfy_backend_dispatch, own_tools, route_invoke, InvokeError,
    InvokeRoute, BACKEND_PREFIX, TOOL_PREFIX,
};
use ntfy::text::{rsplit_once, starts_with, str_eq, strip_prefix, trim, trim_end_matches_char};

fn row(name: &str, enabled: bool) -> EndpointRow {
    EndpointRow {
        name: name.to_string(),
        base_url: format!("https://{name}.example"),
        topic: "alerts".to_string(),
        token: None,
        enabled,
    }
}

fn err_text(r: Result<ntfy::routing::EmitRequest, InvokeError>) -> String {
    match r {
        Err(e) => e.message(),
        Ok(_) => panic!("expected an error"),
    }
}

#[test]
fn dispatch_ignores_tools_outside_the_backend_family() {
    assert!(ntfy_backend_dispatch("ntfy.send", "{}").is_none());
    assert!(ntfy_backend_dispatch("notify.__backen", "{}").is_none());
}

#[test]
fn dispatch_routes_emit_to_its_endpoint() {
    let req = ntfy_backend_dispatch("notify.__backend.home.emit", "{\"title\":\"x\"}")
        .unwrap()
        .ok()
        .unwrap();
    assert_eq!(req.endpoint, "home");
    assert_eq!(req.args_json, "{\"title\":\"x\"}");
    let dotted = ntfy_backend_dispatch("notify.__backend.a.b.emit", "{}").unwrap().ok().unwrap();
    assert_eq!(dotted.endpoint, "a.b");
}

#[test]
fn malformed_and_unknown_backend_callbacks_are_refused() {
    assert_eq!(
        err_text(ntfy_backend_dispatch("notify.__backend.home", "{}").unwrap()),
        "malformed backend invoke 'notify.__backend.home'"
    );
    assert_eq!(
        err_text(invoke_backend("home.send", "{}")),
        "ntfy notification backend has no operation 'send'"
    );
    assert_eq!(
        err_text(invoke_backend("home.", "{}")),
        "ntfy notification backend has no operation ''"
    );
}

#[test]
fn invocations_are_routed_by_family() {
    match route_invoke("other.tool", "{}") {
        InvokeRoute::Rejected(e) => {
            assert_eq!(e.message(), "tool 'other.tool' is not in this plugin's 'ntfy.' namespace")
        },
        _ => panic!("expected a rejection"),
    }
    assert!(matches!(route_invoke("ntfy.send", "{}"), InvokeRoute::Dispatch));
    match route_invoke("notify.__backend.home.emit", "[]") {
        InvokeRoute::Backend(Ok(req)) => assert_eq!(req.endpoint, "home"),
        _ => panic!("expected a backend callback"),
    }
}

#[test]
fn manifest_keeps_only_the_own_namespace() {
    let names = vec![
        "ntfy.send".to_string(),
        "containers.list".to_string(),
        "ntfy.backup".to_string(),
        "ntfyx.other".to_string(),
    ];
    assert_eq!(own_tools(names.clone()), vec!["ntfy.send".to_string(), "ntfy.backup".to_string()]);
    for n in &names {
        let admitted = matches!(route_invoke(n, "{}"), InvokeRoute::Dispatch);
        assert_eq!(admitted, is_own_tool(n));
    }
    assert_eq!(TOOL_PREFIX, "ntfy.");
}

#[test]
fn backends_advertise_enabled_endpoints_in_order() {
    let rows = vec![row("home", true), row("off", false), row("work.eu", true)];
    let defs = backends(Ok(rows));
    assert_eq!(defs.len(), 2);
    assert_eq!(defs[0].domain, "notifications");
    assert_eq!(defs[0].name, "home");
    assert_eq!(defs[0].kind, "");
    assert_eq!(defs[0].endpoint, "https://home.example");
    assert_eq!(defs[0].capabilities, vec!["emit".to_string()]);
    assert_eq!(defs[0].invoke_prefix, "notify.__backend.home");
    assert_eq!(defs[1].name, "work.eu");
    assert_eq!(defs[1].invoke_prefix, format!("{BACKEND_PREFIX}work.eu"));
    assert!(backends(Err("db locked".to_string())).is_empty());
}

#[test]
fn advertised_backends_route_back_to_their_endpoint() {
    let defs = backends(Ok(vec![row("home", true), row("a.b.c", true)]));
    for d in &defs {
        let tool = format!("{}.emit", d.invoke_prefix);
        let req = ntfy_backend_dispatch(&tool, "{}").unwrap().ok().unwrap();
        assert_eq!(req.endpoint, d.name);
    }
}

#[test]
fn enabled_endpoints_degrade_to_none_on_error() {
    assert!(enabled_endpoints(Err("unreadable".to_string())).is_empty());
    let kept = enabled_endpoints(Ok(vec![row("a", false), row("b", true)]));
    assert_eq!(kept.len(), 1);
    assert_eq!(kept[0].name, "b");
}

#[test]
fn backend_for_builds_config_or_explains() {
    let e = backend_for("home", Err("disk gone".to_string())).err().unwrap();
    assert_eq!(e.message(), "load endpoint 'home': disk gone");
    let e = backend_for("home", Ok(None)).err().unwrap();
    assert_eq!(e.message(), "ntfy endpoint 'home' not registered");
    let mut r = row("home", true);
    r.token = Some("tk_123".to_string());
    let cfg = backend_for("home", Ok(Some(r))).ok().unwrap();
    assert_eq!(cfg.name, "home");
    assert_eq!(cfg.base_url, "https://home.example");
    assert_eq!(cfg.topic, "alerts");
    assert_eq!(cfg.token, Some("tk_123".to_string()));
}

#[test]
fn invoke_error_messages() {
    let m = |e: InvokeError| e.message();
    assert_eq!(m(InvokeError::InvalidArgs { detail: "EOF".to_string() }), "invalid args JSON: EOF");
    assert_eq!(
        m(InvokeError::EncodeFailed { detail: "boom".to_string() }),
        "failed to encode result: boom"
    );
    assert_eq!(
        m(InvokeError::InvalidEmitArgs { detail: "missing field".to_string() }),
        "invalid emit args: missing field"
    );
    assert_eq!(m(InvokeError::DbOpenFailed { detail: "locked".to_string() }), "db open failed: locked");
    assert_eq!(m(InvokeError::Failed { detail: "http 500".to_string() }), "http 500");
}

#[test]
fn text_helpers() {
    assert!(starts_with("ntfy.send", "ntfy."));
    assert!(!starts_with("ntf", "ntfy."));
    assert_eq!(strip_prefix("ntfy.send", "ntfy."), Some("send"));
    assert_eq!(strip_prefix("x", "ntfy."), None);
    assert_eq!(rsplit_once("a.b.c", '.'), Some(("a.b", "c")));
    assert_eq!(rsplit_once("abc", '.'), None);
    assert!(str_eq("é", "é"));
    assert!(!str_eq("e", "é"));
    assert_eq!(trim("\u{3000} x y \n"), "x y");
    assert_eq!(trim("   "), "");
    assert_eq!(trim_end_matches_char("/a///", '/'), "/a");
}
