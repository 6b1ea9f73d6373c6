//! Decisions and data models of the client audit log service: the stored
//! audit log record and its wire form, the enum codes kept in the database,
//! the paginated query models, the handling of encrypted text fields, and the
//! steps of the gRPC handlers and the trader account order flow.

pub mod postgres;
pub mod grpc;
pub mod ids;
pub mod flows;
pub mod settings;
