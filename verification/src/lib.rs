//! An OPC UA binary protocol stack: the wire codec, the chunk and handshake
//! framing, the server session state machine and the client's
//! request/response correlation queue.

pub mod status_codes;
pub mod encoding;
pub mod byte_string;
pub mod string;
pub mod qualified_name;
pub mod guid;
pub mod node_id;
pub mod date_time;
pub mod extension_object;
pub mod localized_text;
pub mod diagnostic_info;
pub mod node_ids;
pub mod service_types;
pub mod handshake;
pub mod chunk;
pub mod session;
pub mod supported_message;
pub mod message_queue;
pub mod variant;
pub mod expanded_node_id;
pub mod attribute_masks;
pub mod constants;
pub mod profiles;
pub mod chunk_messages;
pub mod attribute;
pub mod address_space;
