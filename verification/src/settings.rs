use vstd::prelude::*;

verus! {

/// The service's settings: the connection strings of the database, of the log
/// sink and of telemetry, and the key that the stored contexts are encrypted with.
pub struct SettingsModel {
    pub postgres_conn_string: String,
    pub seq_conn_string: String,
    pub my_telemetry: String,
    pub db_encode_key: String,
}

} // verus!
