//! How other units move between the server's reports.
pub mod remote;
pub mod spline;
