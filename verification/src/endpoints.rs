//! Endpoint rows and the notification backends advertised for them.

use vstd::prelude::*;
use vstd::string::*;

use crate::routing::{backend_outcome, backend_rest, EmitRequest, InvokeError, BACKEND_PREFIX};
use crate::text::{has_prefix, lemma_last_index_at, rsplit_once_spec};

verus! {

/// One registered ntfy endpoint, as the endpoint table stores it.
#[derive(Debug)]
pub struct EndpointRow {
    /// Endpoint name; the backend registered for it carries the same name.
    pub name: String,
    /// Base URL of the ntfy server.
    pub base_url: String,
    /// Topic that notifications are published to.
    pub topic: String,
    /// Access token, when the server needs one.
    pub token: Option<String>,
    /// Whether a backend is advertised for this endpoint.
    pub enabled: bool,
}

/// A copy of an optional string.
fn copy_opt_string(s: &Option<String>) -> (r: Option<String>)
    ensures
        r == *s,
{
    match s {
        Some(t) => Some(t.clone()),
        None => None,
    }
}

impl Clone for EndpointRow {
    fn clone(&self) -> (r: Self)
        ensures
            r == *self,
    {
        EndpointRow {
            name: self.name.clone(),
            base_url: self.base_url.clone(),
            topic: self.topic.clone(),
            token: copy_opt_string(&self.token),
            enabled: self.enabled,
        }
    }
}

/// A notification backend advertised to the host: one per enabled endpoint.
#[derive(Debug)]
pub struct BackendDef {
    /// Domain the backend serves.
    pub domain: String,
    /// Backend name, the endpoint's name.
    pub name: String,
    /// Backend kind.
    pub kind: String,
    /// Where the backend delivers to: the endpoint's base URL.
    pub endpoint: String,
    /// Operations the backend offers.
    pub capabilities: Vec<String>,
    /// Tool-name prefix under which the host calls the backend back.
    pub invoke_prefix: String,
}

/// What the client of an endpoint is built from.
#[derive(Debug)]
pub struct BackendConfig {
    /// Backend name (the row's name).
    pub name: String,
    /// Base URL of the ntfy server.
    pub base_url: String,
    /// Topic to publish to.
    pub topic: String,
    /// Access token, when there is one.
    pub token: Option<String>,
}

/// The enabled rows of `rows`, in their order.
pub open spec fn enabled_rows(rows: Seq<EndpointRow>) -> Seq<EndpointRow>
    decreases rows.len(),
{
    if rows.len() == 0 {
        Seq::empty()
    } else if rows.last().enabled {
        enabled_rows(rows.drop_last()).push(rows.last())
    } else {
        enabled_rows(rows.drop_last())
    }
}

/// Law: a row is listed among the enabled rows exactly when it is in the
/// table and its enabled flag is set, whatever its name, URL, topic or token.
pub proof fn lemma_enabled_rows_members(rows: Seq<EndpointRow>, x: EndpointRow)
    ensures
        enabled_rows(rows).contains(x) <==> (rows.contains(x) && x.enabled),
    decreases rows.len(),
{
    if rows.len() > 0 {
        let init = rows.drop_last();
        let last = rows.last();
        lemma_enabled_rows_members(init, x);
        assert(rows =~= init.push(last));
        if rows.contains(x) && x != last {
            let k = choose|k: int| 0 <= k < rows.len() && rows[k] == x;
            assert(init[k] == x);
        }
        if init.contains(x) {
            let k = choose|k: int| 0 <= k < init.len() && init[k] == x;
            assert(rows[k] == x);
        }
        if x == last {
            assert(rows[rows.len() - 1] == x);
        }
        if last.enabled {
            let e = enabled_rows(init);
            assert(enabled_rows(rows) == e.push(last));
            if e.push(last).contains(x) && x != last {
                let k = choose|k: int| 0 <= k < e.push(last).len() && e.push(last)[k] == x;
                assert(e[k] == x);
            }
            if x == last {
                assert(e.push(last)[e.len() as int] == x);
            }
            if e.contains(x) {
                let k = choose|k: int| 0 <= k < e.len() && e[k] == x;
                assert(e.push(last)[k] == x);
            }
        }
    }
}

/// The rows a lookup of the endpoint table makes available: none when it failed.
pub open spec fn listed_enabled(rows: Result<Vec<EndpointRow>, String>) -> Seq<EndpointRow> {
    match rows {
        Ok(v) => enabled_rows(v@),
        Err(_) => Seq::empty(),
    }
}

/// The invoke prefix advertised for an endpoint named `name`.
pub open spec fn invoke_prefix_for(name: Seq<char>) -> Seq<char> {
    BACKEND_PREFIX@ + name
}

/// `d` is the backend advertised for `row`.
pub open spec fn is_backend_for(d: BackendDef, row: EndpointRow) -> bool {
    &&& d.domain@ == "notifications"@
    &&& d.name@ == row.name@
    &&& d.kind@ == Seq::<char>::empty()
    &&& d.endpoint@ == row.base_url@
    &&& d.capabilities.deep_view() == seq!["emit"@]
    &&& d.invoke_prefix@ == invoke_prefix_for(row.name@)
}

/// The enabled endpoint rows; none when the table could not be read (a load
/// must not fail because the table is momentarily unreadable).
pub fn enabled_endpoints(rows: Result<Vec<EndpointRow>, String>) -> (r: Vec<EndpointRow>)
    ensures
        r@ == listed_enabled(rows),
        rows matches Ok(v) ==> forall|x: EndpointRow|
            #[trigger] r@.contains(x) <==> (v@.contains(x) && x.enabled),
        rows is Err ==> r@.len() == 0,
{
    match rows {
        Ok(v) => {
            let mut r: Vec<EndpointRow> = Vec::new();
            let mut i: usize = 0;
            while i < v.len()
                invariant
                    i <= v.len(),
                    r@ == enabled_rows(v@.subrange(0, i as int)),
                decreases v.len() - i,
            {
                assert(v@.subrange(0, i + 1).drop_last() =~= v@.subrange(0, i as int));
                if v[i].enabled {
                    r.push(v[i].clone());
                }
                i = i + 1;
            }
            assert(v@.subrange(0, v.len() as int) =~= v@);
            proof {
                assert forall|x: EndpointRow| #[trigger] r@.contains(x) <==> (v@.contains(x)
                    && x.enabled) by {
                    lemma_enabled_rows_members(v@, x);
                }
            }
            r
        },
        Err(_) => Vec::new(),
    }
}

/// The backend advertised for one endpoint row.
pub fn backend_def(row: &EndpointRow) -> (d: BackendDef)
    ensures
        is_backend_for(d, *row),
{
    let mut prefix = String::from_str(BACKEND_PREFIX);
    prefix.append(row.name.as_str());
    let mut capabilities: Vec<String> = Vec::new();
    capabilities.push(String::from_str("emit"));
    assert(capabilities.deep_view() =~= seq!["emit"@]);
    BackendDef {
        domain: String::from_str("notifications"),
        name: row.name.clone(),
        kind: String::new(),
        endpoint: row.base_url.clone(),
        capabilities,
        invoke_prefix: prefix,
    }
}

/// The notification backends this plugin contributes: one per enabled
/// endpoint row, in the rows' order, named after the endpoint.
pub fn backends(rows: Result<Vec<EndpointRow>, String>) -> (defs: Vec<BackendDef>)
    ensures
        defs.len() == listed_enabled(rows).len(),
        forall|i: int|
            0 <= i < defs.len() ==> is_backend_for(#[trigger] defs@[i], listed_enabled(rows)[i]),
        rows matches Ok(v) ==> forall|x: EndpointRow|
            #![trigger v@.contains(x)]
            v@.contains(x) && x.enabled ==> exists|i: int|
                #![trigger defs@[i]]
                0 <= i < defs.len() && is_backend_for(defs@[i], x),
        rows matches Ok(v) ==> forall|i: int|
            0 <= i < defs.len() ==> v@.contains(#[trigger] listed_enabled(rows)[i])
                && listed_enabled(rows)[i].enabled,
        rows is Err ==> defs.len() == 0,
{
    let ghost listed = listed_enabled(rows);
    let ghost table = rows;
    let enabled = enabled_endpoints(rows);
    let mut defs: Vec<BackendDef> = Vec::new();
    let mut i: usize = 0;
    while i < enabled.len()
        invariant
            i <= enabled.len(),
            defs.len() == i,
            forall|j: int| 0 <= j < i ==> is_backend_for(#[trigger] defs@[j], enabled@[j]),
        decreases enabled.len() - i,
    {
        defs.push(backend_def(&enabled[i]));
        i = i + 1;
    }
    proof {
        if table is Ok {
            let v = table->Ok_0@;
            assert forall|x: EndpointRow| #![trigger v.contains(x)] v.contains(x) && x.enabled implies exists|i: int|
                #![trigger defs@[i]]
                0 <= i < defs.len() && is_backend_for(defs@[i], x) by {
                lemma_enabled_rows_members(v, x);
                let k = choose|k: int| 0 <= k < listed.len() && listed[k] == x;
                assert(is_backend_for(defs@[k], x));
            }
            assert forall|i: int| 0 <= i < defs.len() implies v.contains(#[trigger] listed[i])
                && listed[i].enabled by {
                assert(listed.contains(listed[i]));
                lemma_enabled_rows_members(v, listed[i]);
            }
        }
    }
    defs
}

/// The client configuration for the endpoint `name`, from the outcome of
/// looking its row up.
pub fn backend_for(name: &str, lookup: Result<Option<EndpointRow>, String>) -> (r: Result<
    BackendConfig,
    InvokeError,
>)
    ensures
        match lookup {
            Err(e) => r matches Err(InvokeError::LoadEndpoint { name: n, detail: d }) && n@
                == name@ && d@ == e@,
            Ok(None) => r matches Err(InvokeError::EndpointNotRegistered { name: n }) && n@
                == name@,
            Ok(Some(row)) => r matches Ok(cfg) && cfg.name@ == row.name@ && cfg.base_url@
                == row.base_url@ && cfg.topic@ == row.topic@ && cfg.token == row.token,
        },
{
    match lookup {
        Err(e) => Err(InvokeError::LoadEndpoint { name: String::from_str(name), detail: e }),
        Ok(None) => Err(InvokeError::EndpointNotRegistered { name: String::from_str(name) }),
        Ok(Some(row)) => Ok(
            BackendConfig { name: row.name, base_url: row.base_url, topic: row.topic, token: row.token },
        ),
    }
}

/// Law: every backend this plugin advertises is routed back to its own
/// endpoint. The callback the host makes for a backend, its invoke prefix
/// followed by `.emit`, is a backend callback, and whatever arguments come
/// with it, it asks the backend of the advertised endpoint to emit them,
/// whatever the endpoint's name (dots included).
pub proof fn lemma_advertised_backend_routes_back(d: BackendDef, row: EndpointRow, args: Seq<char>)
    requires
        is_backend_for(d, row),
    ensures
        has_prefix(d.invoke_prefix@ + ".emit"@, BACKEND_PREFIX@),
        forall|r: Result<EmitRequest, InvokeError>|
            #[trigger] backend_outcome(backend_rest(d.invoke_prefix@ + ".emit"@), args, r) ==> (r matches Ok(req)
                && req.endpoint@ == row.name@ && req.args_json@ == args),
{
    reveal_strlit(".emit");
    reveal_strlit("emit");
    let tool = d.invoke_prefix@ + ".emit"@;
    let p = BACKEND_PREFIX@;
    assert(tool.subrange(0, p.len() as int) =~= p);
    let rest = backend_rest(tool);
    let name = row.name@;
    assert(rest =~= name + ".emit"@);
    lemma_last_index_at(rest, '.', name.len() as int);
    assert(rest.subrange(0, name.len() as int) =~= name);
    assert(rest.subrange(name.len() as int + 1, rest.len() as int) =~= "emit"@);
    assert(rsplit_once_spec(rest, '.') == Some((name, "emit"@)));
}

} // verus!
