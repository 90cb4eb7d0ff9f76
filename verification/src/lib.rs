//! Verified core of the team work-hour tracker: the records it stores, the
//! holiday feed it imports, the refresh schedule it keeps, the password rules
//! of its accounts and the answers its HTTP API gives.

pub mod records;
pub mod schedule;
pub mod text;
pub mod holiday_feed;
pub mod password;
pub mod api;
