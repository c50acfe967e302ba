//! Verified core of a debugger server.

pub mod args;
pub mod attach_order_laws;
pub mod backend;
pub mod body;
pub mod body_laws;
pub mod breakpoint;
pub mod bytes;
pub mod client;
pub mod client_laws;
pub mod detect;
pub mod detect_laws;
pub mod error;
pub mod exchange;
pub mod factory;
pub mod file_breakpoints;
pub mod framing;
pub mod framing_laws;
pub mod handshake;
pub mod handshake_laws;
pub mod harness;
pub mod id_map;
pub mod json;
pub mod launch_order_laws;
pub mod manager;
pub mod manager_laws;
pub mod model;
pub mod output_buffer;
pub mod process_laws;
pub mod pump;
pub mod read_loop;
pub mod read_loop_laws;
pub mod request_laws;
pub mod requests;
pub mod session_laws;
pub mod state;
pub mod stdio;
pub mod stdio_laws;
pub mod step_laws;
pub mod stop_waiter;
pub mod subprocess;
pub mod text;
pub mod text_laws;
pub mod types;
pub mod wire;
pub mod wire_laws;
