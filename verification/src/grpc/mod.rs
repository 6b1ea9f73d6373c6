pub mod client_audit_logs_grpc_service;
pub mod mappers;
