//! Current-conditions weather snapshot: forecast records, their parsing from
//! the weather service's JSON documents, the startup pipeline that fetches
//! them, and what the window shows for a snapshot.
pub mod display;
pub mod forecast;
pub mod json;
pub mod startup;
pub mod text;
pub mod weather;
