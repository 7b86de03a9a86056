//! Classification of filesystem entries for an audit report: what an entry
//! is taken for by its name, which field delimiter a spreadsheet-like file
//! seems to use, which entries a scan leaves out, and the line printed for
//! each of the others.

pub mod classification;
pub mod entry;
pub mod laws;
pub mod platform;
pub mod report;
pub mod scan;
pub mod sniff;
pub mod text;
