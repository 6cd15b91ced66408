use vstd::prelude::*;

verus! {

/// Endpoints of the outside services the pipeline talks to. It is built once
/// at start-up and handed to whoever opens the connections.
pub struct Config {
    /// Push-capable endpoint of the chain node, used for the live stream.
    pub rpc_url_websocket: String,
    /// Request/response endpoint of the chain node, used for range queries.
    pub rpc_url_http: String,
    /// Connection string of the message broker.
    pub message_queue_url: String,
}

} // verus!
