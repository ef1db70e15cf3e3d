//! The port registry: at most one live server instance per port, and the
//! replace-on-register protocol that stops, merges and re-creates them.
use vstd::prelude::*;
use serde_json::Value;
use crate::assoc::{assoc_view, key_index, unique_keys, lemma_lookup, lemma_absent, lemma_push, lemma_remove};
use crate::error::Error;
use crate::registration::{RegistrationRequest, RegistrationResponse};
use crate::route::{describes, Registration, RequestIdentifier, RouteKey, RouteTable};
use crate::server::{Cancellable, Server, ServerRegistration};

verus! {

/// A registry as a plain value: each live port and the table served there.
pub type Ports = Map<Seq<char>, Map<RouteKey, Value>>;

/// The table served on `port`, empty where no instance is live there.
pub open spec fn table_of(m: Ports, port: Seq<char>) -> Map<RouteKey, Value> {
    if m.contains_key(port) {
        m[port]
    } else {
        Map::empty()
    }
}

/// The registry after a successful registration of `response` at `key` on `port`.
pub open spec fn registered(m: Ports, port: Seq<char>, key: RouteKey, response: Value) -> Ports {
    m.insert(port, table_of(m, port).insert(key, response))
}

/// The payload a registration at `key` on `port` replaces, if any.
pub open spec fn displaced(m: Ports, port: Seq<char>, key: RouteKey) -> Option<Value> {
    if table_of(m, port).contains_key(key) {
        Some(table_of(m, port)[key])
    } else {
        None
    }
}

/// `rs` lists every live port exactly once, each with every route it serves.
pub open spec fn describes_ports(rs: Seq<ServerRegistration>, m: Ports) -> bool {
    &&& forall|i: int|
        0 <= i < rs.len() ==> m.contains_key((#[trigger] rs[i]).port@) && describes(
            rs[i].registrations@,
            m[rs[i].port@],
        )
    &&& forall|i: int, j: int|
        0 <= i < rs.len() && 0 <= j < rs.len() && i != j ==> (#[trigger] rs[i]).port@ != (
        #[trigger] rs[j]).port@
    &&& forall|p: Seq<char>| #[trigger]
        m.contains_key(p) ==> exists|i: int| 0 <= i < rs.len() && (#[trigger] rs[i]).port@ == p
}

/// A registration whose old instance is gone and whose merged table awaits a
/// listener: `table` is what the new listener on `port` must serve.
pub struct PendingRegistration {
    pub port: String,
    pub table: RouteTable,
    pub added: Registration,
    pub removed: Option<Registration>,
}

/// The port registry.
pub struct AppState<H> {
    servers: Vec<Server<H>>,
}

/// The (port, table) pairs that a list of instances stands for.
pub open spec fn port_pairs<H>(s: Seq<Server<H>>) -> Seq<(Seq<char>, Map<RouteKey, Value>)> {
    s.map_values(|x: Server<H>| (x.port_view(), x.table()))
}

impl<H> View for AppState<H> {
    type V = Ports;

    closed spec fn view(&self) -> Ports {
        assoc_view(port_pairs(self.servers@))
    }
}

impl<H> AppState<H> {
    #[verifier::type_invariant]
    closed spec fn ports_unique(self) -> bool {
        unique_keys(port_pairs(self.servers@))
    }
}

impl<H: Cancellable> AppState<H> {
    /// An empty registry.
    pub fn new() -> (r: Self)
        ensures
            r@ == Map::<Seq<char>, Map<RouteKey, Value>>::empty(),
    {
        let r = AppState { servers: Vec::new() };
        assert(port_pairs(r.servers@) =~= Seq::<(Seq<char>, Map<RouteKey, Value>)>::empty());
        assert(assoc_view(port_pairs(r.servers@)) =~= Map::<Seq<char>, Map<RouteKey, Value>>::empty());
        r
    }

    /// The position of the instance on `port`, if any.
    fn position(&self, port: &String) -> (r: Option<usize>)
        ensures
            match r {
                Some(i) => i < self.servers@.len() && self.servers@[i as int].port_view() == port@,
                None => forall|i: int|
                    0 <= i < self.servers@.len() ==> (#[trigger] self.servers@[i]).port_view()
                        != port@,
            },
    {
        let mut i: usize = 0;
        while i < self.servers.len()
            invariant
                i <= self.servers@.len(),
                forall|j: int|
                    0 <= j < i ==> (#[trigger] self.servers@[j]).port_view() != port@,
            decreases self.servers@.len() - i,
        {
            if *self.servers[i].port() == *port {
                return Some(i);
            }
            i = i + 1;
        }
        None
    }

    /// Takes the instance on `port` out of the registry and stops it; `None`
    /// where no instance is live there.
    pub fn remove_server(&mut self, port: &String) -> (r: Option<Server<H>>)
        ensures
            final(self)@ == old(self)@.remove(port@),
            match r {
                Some(s) => old(self)@.contains_key(port@) && s.port_view() == port@ && s.table()
                    == old(self)@[port@],
                None => !old(self)@.contains_key(port@),
            },
    {
        proof {
            use_type_invariant(&*self);
        }
        let ghost s = port_pairs(self.servers@);
        match self.position(port) {
            Some(i) => {
                let ghost before = self.servers@;
                proof {
                    lemma_lookup(s, i as int);
                    lemma_remove(s, i as int);
                }
                let mut taken = AppState { servers: Vec::new() };
                std::mem::swap(self, &mut taken);
                let AppState { mut servers } = taken;
                let server = servers.remove(i);
                proof {
                    assert(port_pairs(servers@) =~= s.remove(i as int));
                }
                *self = AppState { servers };
                server.stop();
                Some(server)
            },
            None => {
                proof {
                    assert forall|j: int| 0 <= j < s.len() implies (#[trigger] s[j]).0 != port@ by {
                        assert(s[j].0 == self.servers@[j].port_view());
                    }
                    lemma_absent(s, port@);
                    assert(self@ =~= self@.remove(port@));
                }
                None
            },
        }
    }

    /// Installs `server` under its port; an instance it displaces there is stopped.
    pub fn add_server(&mut self, server: Server<H>)
        ensures
            final(self)@ == old(self)@.insert(server.port_view(), server.table()),
    {
        let port = server.port().clone();
        let _displaced = self.remove_server(&port);
        proof {
            use_type_invariant(&*self);
        }
        let ghost s = port_pairs(self.servers@);
        let ghost mid = self@;
        proof {
            lemma_push(s, server.port_view(), server.table());
        }
        let mut taken = AppState { servers: Vec::new() };
        std::mem::swap(self, &mut taken);
        let AppState { mut servers } = taken;
        servers.push(server);
        proof {
            assert(port_pairs(servers@) =~= s.push((server.port_view(), server.table())));
        }
        *self = AppState { servers };
        assert(self@ =~= old(self)@.insert(server.port_view(), server.table()));
    }

    /// For every live port, its port and every route served there.
    pub fn get_registration_info(&self) -> (r: Vec<ServerRegistration>)
        ensures
            describes_ports(r@, self@),
    {
        proof {
            use_type_invariant(self);
        }
        let ghost s = port_pairs(self.servers@);
        let mut r: Vec<ServerRegistration> = Vec::new();
        let mut i: usize = 0;
        while i < self.servers.len()
            invariant
                i <= self.servers@.len(),
                r@.len() == i,
                s == port_pairs(self.servers@),
                unique_keys(s),
                forall|j: int|
                    0 <= j < i ==> (#[trigger] r@[j]).port@ == self.servers@[j].port_view()
                        && describes(r@[j].registrations@, self.servers@[j].table()),
            decreases self.servers@.len() - i,
        {
            r.push(self.servers[i].get_registrations());
            i = i + 1;
        }
        proof {
            assert forall|j: int| 0 <= j < r@.len() implies self@.contains_key(
                (#[trigger] r@[j]).port@,
            ) && describes(r@[j].registrations@, self@[r@[j].port@]) by {
                assert(s[j] == (self.servers@[j].port_view(), self.servers@[j].table()));
                lemma_lookup(s, j);
            }
            assert forall|a: int, b: int|
                0 <= a < r@.len() && 0 <= b < r@.len() && a != b implies (#[trigger] r@[a]).port@
                != (#[trigger] r@[b]).port@ by {
                assert(s[a].0 == r@[a].port@ && s[b].0 == r@[b].port@);
            }
            assert forall|p: Seq<char>| #[trigger] self@.contains_key(p) implies exists|j: int|
                0 <= j < r@.len() && (#[trigger] r@[j]).port@ == p by {
                let j = key_index(s, p);
                assert(s[j].0 == r@[j].port@);
            }
        }
        r
    }

    /// First half of a registration: takes the instance on the request's port
    /// out of the registry and stops it, and merges the requested route into
    /// its table (or into an empty one). The result says what the new
    /// listener must serve, and which route the registration replaces.
    pub fn prepare_registration(&mut self, request: RegistrationRequest) -> (p: PendingRegistration)
        ensures
            final(self)@ == old(self)@.remove(request.port@),
            p.port == request.port,
            p.table@ == table_of(old(self)@, request.port@).insert(
                (request.method, request.path@),
                request.response,
            ),
            p.added@ == ((request.method, request.path@), request.response),
            match p.removed {
                Some(r) => r@.0 == (request.method, request.path@) && displaced(
                    old(self)@,
                    request.port@,
                    (request.method, request.path@),
                ) == Some(r.response),
                None => displaced(old(self)@, request.port@, (request.method, request.path@))
                    is None,
            },
    {
        let RegistrationRequest { port, path, method, response } = request;
        let previous = self.remove_server(&port);
        let removed = match &previous {
            Some(server) => server.get_registration(path.clone(), method),
            None => None,
        };
        let added = Registration::new(method, path.clone(), response.clone());
        let key = RequestIdentifier::new(path, method);
        let table = Server::restart_table(previous, key, response);
        PendingRegistration { port, table, added, removed }
    }

    /// Second half of a registration: given what standing up the listener
    /// for `pending` came to, installs the new instance and reports the added
    /// and replaced routes, or returns the connection's error and leaves the
    /// registry as it is (so the port stays without an instance).
    pub fn complete_registration(
        &mut self,
        pending: PendingRegistration,
        connection: Result<H, Error>,
    ) -> (r: Result<RegistrationResponse, Error>)
        ensures
            match connection {
                Ok(_) => final(self)@ == old(self)@.insert(pending.port@, pending.table@) && (r matches Ok(
                    resp,
                ) && resp.added == pending.added && resp.removed == pending.removed),
                Err(e) => final(self)@ == old(self)@ && r == Err::<RegistrationResponse, Error>(e),
            },
    {
        match connection {
            Ok(handle) => {
                let PendingRegistration { port, table, added, removed } = pending;
                self.add_server(Server::create(port, table, handle));
                Ok(RegistrationResponse { added, removed })
            },
            Err(e) => Err(e),
        }
    }

    /// Replace-on-register in one call: stops the instance on the request's
    /// port, merges the requested route into its table, has `connect` stand up
    /// a listener for the merged table, and installs the new instance where it
    /// did. Where `connect` fails, its error is returned and the port is left
    /// without an instance.
    pub fn register<F>(&mut self, request: RegistrationRequest, connect: F) -> (r: Result<
        RegistrationResponse,
        Error,
    >) where F: FnOnce(&String, &RouteTable) -> Result<H, Error>
        requires
            forall|p: &String, t: &RouteTable| connect.requires((p, t)),
        ensures
            match r {
                Ok(resp) => final(self)@ == registered(
                    old(self)@,
                    request.port@,
                    (request.method, request.path@),
                    request.response,
                ) && resp.added@ == ((request.method, request.path@), request.response) && match resp.removed {
                    Some(x) => x@.0 == (request.method, request.path@) && displaced(
                        old(self)@,
                        request.port@,
                        (request.method, request.path@),
                    ) == Some(x.response),
                    None => displaced(old(self)@, request.port@, (request.method, request.path@))
                        is None,
                },
                Err(_) => final(self)@ == old(self)@.remove(request.port@),
            },
    {
        let ghost m = self@;
        let ghost port = request.port@;
        let ghost key = (request.method, request.path@);
        let ghost response = request.response;
        let pending = self.prepare_registration(request);
        let connection = connect(&pending.port, &pending.table);
        let r = self.complete_registration(pending, connection);
        proof {
            lemma_replace_on_register(m, port, key, response);
        }
        r
    }
}

/// Stopping the instance on `port` and installing one that serves its old
/// table (or an empty one) with `response` at `key` is a registration.
pub proof fn lemma_replace_on_register(m: Ports, port: Seq<char>, key: RouteKey, response: Value)
    ensures
        m.remove(port).insert(port, table_of(m, port).insert(key, response)) == registered(
            m,
            port,
            key,
            response,
        ),
{
    assert(m.remove(port).insert(port, table_of(m, port).insert(key, response)) =~= registered(
        m,
        port,
        key,
        response,
    ));
}

/// The registry after registering each of `routes` on `port`, in order.
pub open spec fn registered_all(m: Ports, port: Seq<char>, routes: Seq<(RouteKey, Value)>) -> Ports
    decreases routes.len(),
{
    if routes.len() == 0 {
        m
    } else {
        registered(
            registered_all(m, port, routes.drop_last()),
            port,
            routes.last().0,
            routes.last().1,
        )
    }
}

/// `t` with each of `routes` inserted in order, so that a later route
/// overrides an earlier one with the same key.
pub open spec fn merged_all(t: Map<RouteKey, Value>, routes: Seq<(RouteKey, Value)>) -> Map<
    RouteKey,
    Value,
>
    decreases routes.len(),
{
    if routes.len() == 0 {
        t
    } else {
        merged_all(t, routes.drop_last()).insert(routes.last().0, routes.last().1)
    }
}

/// After one or more successful registrations on `port`, exactly that port
/// has changed: it is live, and serves its earlier table (empty if it had
/// none) merged with every registered route, left to right.
pub proof fn lemma_sequential_registrations(m: Ports, port: Seq<char>, routes: Seq<(RouteKey, Value)>)
    requires
        routes.len() > 0,
    ensures
        registered_all(m, port, routes).contains_key(port),
        registered_all(m, port, routes)[port] == merged_all(table_of(m, port), routes),
        forall|q: Seq<char>|
            q != port ==> (#[trigger] registered_all(m, port, routes).contains_key(q)
                == m.contains_key(q)) && table_of(registered_all(m, port, routes), q) == table_of(
                m,
                q,
            ),
    decreases routes.len(),
{
    let prefix = routes.drop_last();
    if prefix.len() == 0 {
        assert(registered_all(m, port, prefix) == m);
        assert(merged_all(table_of(m, port), prefix) == table_of(m, port));
    } else {
        lemma_sequential_registrations(m, port, prefix);
    }
    let before = registered_all(m, port, prefix);
    assert(table_of(before, port) == merged_all(table_of(m, port), prefix));
}

/// Registering two routes with different keys on one port leaves both served there.
pub proof fn lemma_distinct_routes_coexist(
    m: Ports,
    port: Seq<char>,
    a: RouteKey,
    va: Value,
    b: RouteKey,
    vb: Value,
)
    requires
        a != b,
    ensures
        registered(registered(m, port, a, va), port, b, vb)[port].contains_key(a),
        registered(registered(m, port, a, va), port, b, vb)[port][a] == va,
        registered(registered(m, port, a, va), port, b, vb)[port].contains_key(b),
        registered(registered(m, port, a, va), port, b, vb)[port][b] == vb,
{
}

/// Registering a key a second time reports the first payload as replaced and
/// leaves only the second one served.
pub proof fn lemma_reregistration_replaces(
    m: Ports,
    port: Seq<char>,
    key: RouteKey,
    first: Value,
    second: Value,
)
    ensures
        displaced(registered(m, port, key, first), port, key) == Some(first),
        registered(registered(m, port, key, first), port, key, second) == registered(
            m,
            port,
            key,
            second,
        ),
        registered(registered(m, port, key, first), port, key, second)[port][key] == second,
{
    let m1 = registered(m, port, key, first);
    assert(table_of(m1, port) == table_of(m, port).insert(key, first));
    assert(table_of(m1, port).insert(key, second) =~= table_of(m, port).insert(key, second));
    assert(registered(m1, port, key, second) =~= registered(m, port, key, second));
}

/// A registration on one port, whether it succeeds or fails, leaves every
/// other port as it was.
pub proof fn lemma_ports_independent(m: Ports, x: Seq<char>, y: Seq<char>, key: RouteKey, v: Value)
    requires
        x != y,
    ensures
        registered(m, x, key, v).contains_key(y) == m.contains_key(y),
        table_of(registered(m, x, key, v), y) == table_of(m, y),
        m.remove(x).contains_key(y) == m.contains_key(y),
        table_of(m.remove(x), y) == table_of(m, y),
{
}

} // verus!
