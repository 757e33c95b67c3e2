//! Response and server types of the REST and GraphQL front ends.
//!
//! The front ends themselves (routing, sockets, query execution) are
//! caller-side adapters; the library owns the response shapes and the server
//! handles.

use vstd::prelude::*;

use crate::timestamp::Timestamp;

verus! {

/// A GraphQL response envelope.
#[derive(Clone, Debug)]
pub struct GraphQLResponse<T> {
    /// The data of a successful query.
    pub data: Option<T>,
    /// The errors of a failed one.
    pub errors: Option<Vec<GraphQLError>>,
}

/// One GraphQL error.
#[derive(Clone, Debug)]
pub struct GraphQLError {
    /// What went wrong.
    pub message: String,
    /// Where in the query it went wrong.
    pub locations: Option<Vec<GraphQLErrorLocation>>,
    /// The response path the error applies to.
    pub path: Option<Vec<String>>,
}

/// A position in a GraphQL query.
#[derive(Clone, Copy, Debug, PartialEq, Eq, Structural)]
pub struct GraphQLErrorLocation {
    /// Line, starting at one.
    pub line: u32,
    /// Column, starting at one.
    pub column: u32,
}

/// Handle of the GraphQL server.
pub struct GraphQLServer {
    host: String,
    port: u16,
}

impl GraphQLServer {
    /// The host the server binds to.
    pub closed spec fn host(self) -> Seq<char> {
        self.host@
    }

    /// The port the server binds to.
    pub closed spec fn port(self) -> u16 {
        self.port
    }

    /// Create a new GraphQL server handle.
    pub fn new(host: String, port: u16) -> (r: GraphQLServer)
        ensures
            r.host() == host@,
            r.port() == port,
    {
        GraphQLServer { host, port }
    }
}

/// Handle of the REST API server.
pub struct RestApiServer {
    host: String,
    port: u16,
}

/// A REST API response envelope.
#[derive(Clone, Debug)]
pub struct ApiResponse<T> {
    /// Whether the request succeeded.
    pub success: bool,
    /// The data of a successful request.
    pub data: Option<T>,
    /// The message of a failed one.
    pub error: Option<String>,
    /// When the response was built.
    pub timestamp: Timestamp,
}

impl<T> ApiResponse<T> {
    /// A successful response carrying `data`.
    pub fn success(data: T) -> (r: ApiResponse<T>)
        ensures
            r.success,
            r.data matches Some(d) && d == data,
            r.error is None,
            r.timestamp.wf(),
    {
        ApiResponse { success: true, data: Some(data), error: None, timestamp: Timestamp::now() }
    }

    /// A failed response carrying an error message.
    pub fn error(error: String) -> (r: ApiResponse<T>)
        ensures
            !r.success,
            r.data is None,
            r.error matches Some(e) && e == error,
            r.timestamp.wf(),
    {
        ApiResponse { success: false, data: None, error: Some(error), timestamp: Timestamp::now() }
    }
}

impl RestApiServer {
    /// The host the server binds to.
    pub closed spec fn host(self) -> Seq<char> {
        self.host@
    }

    /// The port the server binds to.
    pub closed spec fn port(self) -> u16 {
        self.port
    }

    /// Create a new REST API server handle.
    pub fn new(host: String, port: u16) -> (r: RestApiServer)
        ensures
            r.host() == host@,
            r.port() == port,
    {
        RestApiServer { host, port }
    }
}

} // verus!
