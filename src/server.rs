//! A server instance: one port's live listener together with the route table it serves.
use vstd::prelude::*;
use serde_json::Value;
use crate::method::HttpMethod;
use crate::route::{describes, Registration, RequestIdentifier, RouteKey, RouteTable};

verus! {

/// tokio's `AbortHandle`, carried opaquely as the handle of a listening task.
#[verifier::external_type_specification]
#[verifier::external_body]
pub struct ExAbortHandle(tokio::task::AbortHandle);

/// Relies on tokio's `AbortHandle::abort`: asks the runtime to cancel the task.
pub assume_specification[ tokio::task::AbortHandle::abort ](h: &tokio::task::AbortHandle);

/// A handle on a background listening task that can be cancelled.
pub trait Cancellable {
    /// Cancels the task, without waiting for requests in flight.
    fn cancel(&self);
}

impl Cancellable for tokio::task::AbortHandle {
    fn cancel(&self) {
        self.abort();
    }
}

/// For introspection: a port and every route served there.
pub struct ServerRegistration {
    pub port: String,
    pub registrations: Vec<Registration>,
}

impl ServerRegistration {
    pub fn new(port: String, registrations: Vec<Registration>) -> (r: Self)
        ensures
            r.port == port,
            r.registrations == registrations,
    {
        Self { port, registrations }
    }
}

/// One port's live listener (through its handle `H`) and the routes it serves.
pub struct Server<H> {
    connection: H,
    port: String,
    data: RouteTable,
}

impl<H> Server<H> {
    /// The port this instance listens on.
    pub closed spec fn port_view(&self) -> Seq<char> {
        self.port@
    }

    /// The route table this instance serves.
    pub closed spec fn table(&self) -> Map<RouteKey, Value> {
        self.data@
    }

    /// An instance for a listener that has bound `port` and serves `data`.
    pub fn create(port: String, data: RouteTable, connection: H) -> (s: Self)
        ensures
            s.port_view() == port@,
            s.table() == data@,
    {
        Server { connection, port, data }
    }

    /// The port this instance listens on.
    pub fn port(&self) -> (r: &String)
        ensures
            r@ == self.port_view(),
    {
        &self.port
    }

    /// Cancels the listening task.
    pub fn stop(&self) where H: Cancellable {
        self.connection.cancel();
    }

    /// The route table of a superseded instance, handed on for merging.
    pub fn into_table(self) -> (t: RouteTable)
        ensures
            t@ == self.table(),
    {
        self.data
    }

    /// The table of this instance with `response` inserted at `key`; the
    /// instance itself is consumed, never reused.
    pub fn merge_route(self, key: RequestIdentifier, response: Value) -> (t: RouteTable)
        ensures
            t@ == self.table().insert(key@, response),
    {
        self.data.with_route(key, response)
    }

    /// The table a restarted instance serves: that of the instance it
    /// supersedes, or an empty one where there was none, with `response` at `key`.
    pub fn restart_table(previous: Option<Self>, key: RequestIdentifier, response: Value) -> (t:
        RouteTable)
        ensures
            t@ == match previous {
                Some(s) => s.table(),
                None => Map::<RouteKey, Value>::empty(),
            }.insert(key@, response),
    {
        match previous {
            Some(server) => server.merge_route(key, response),
            None => RouteTable::new().with_route(key, response),
        }
    }

    /// The descriptor of the route `(method, path)`, if this instance serves it.
    pub fn get_registration(&self, path: String, method: HttpMethod) -> (r: Option<Registration>)
        ensures
            match r {
                Some(reg) => self.table().contains_key((method, path@)) && reg@ == (
                    (method, path@),
                    self.table()[(method, path@)],
                ),
                None => !self.table().contains_key((method, path@)),
            },
    {
        let key = RequestIdentifier::new(path, method);
        match self.data.get(&key) {
            Some(response) => {
                let RequestIdentifier { path, method } = key;
                Some(Registration::new(method, path, response.clone()))
            },
            None => None,
        }
    }

    /// The port and every route this instance serves, each once.
    pub fn get_registrations(&self) -> (r: ServerRegistration)
        ensures
            r.port@ == self.port_view(),
            describes(r.registrations@, self.table()),
    {
        ServerRegistration::new(self.port.clone(), self.data.registrations())
    }
}

} // verus!
