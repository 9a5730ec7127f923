//! Converts a time query (a seconds or milliseconds timestamp, or a date or
//! date-time written in UTC+8) into three displayed values: the millisecond
//! timestamp, the UTC+8 civil time and the UTC civil time.

pub mod instant;
pub mod text;
pub mod convert;
pub mod output;
pub mod workflow;
pub mod laws;
