pub mod serializable;
pub mod utils;
pub mod dto;
pub mod repo;
