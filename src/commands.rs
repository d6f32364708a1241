//! Stateless commands offered to the user interface.
use vstd::prelude::*;
use crate::state::{APP_DESCRIPTION, APP_NAME, APP_VERSION};

verus! {

/// Name, version and description of the application.
#[derive(Debug)]
pub struct AppInfo {
    pub name: String,
    pub version: String,
    pub description: String,
}

/// Greeting for `name`.
pub fn greet(name: &str) -> (r: String)
    ensures
        r@ == "Hello, "@ + name@ + "! You've been greeted from Rust!"@,
{
    String::from_str("Hello, ").concat(name).concat("! You've been greeted from Rust!")
}

/// Information about the application.
pub fn get_app_info() -> (r: AppInfo)
    ensures
        r.name@ == APP_NAME@,
        r.version@ == APP_VERSION@,
        r.description@ == APP_DESCRIPTION@,
{
    AppInfo {
        name: String::from_str(APP_NAME),
        version: String::from_str(APP_VERSION),
        description: String::from_str(APP_DESCRIPTION),
    }
}

/// Exports the user's data; there is nothing to export yet, so it reports
/// success.
pub fn export_data() -> (r: Result<String, String>)
    ensures
        r matches Ok(s) && s@ == "Data exported successfully"@,
{
    Ok(String::from_str("Data exported successfully"))
}

/// Imports the user's data; there is nothing to import yet, so it reports
/// success.
pub fn import_data() -> (r: Result<String, String>)
    ensures
        r matches Ok(s) && s@ == "Data imported successfully"@,
{
    Ok(String::from_str("Data imported successfully"))
}

} // verus!
