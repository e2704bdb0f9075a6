//! Analytics events the core produces, one per completed request.

pub mod message_info;
