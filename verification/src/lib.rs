//! Verified core of a vibration-analysis front end: the simple UDP protocol
//! spoken with the sampling micro-controller, the parsers that turn its data
//! bytes into points, and the decisions of the services that consume them.
pub mod input_type;
pub mod protocol;
pub mod decimal;
pub mod s7_error;
pub mod point;
pub mod udpc_parse_u16;
pub mod text;
pub mod receiver;
pub mod fft_enqueue;
pub mod filter;
pub mod plot_data;
pub mod thread_state;
pub mod ds_config;
pub mod zoom;
pub mod ds_db;
pub mod udp_server;
