//! Decisions of a news article downloader, stated and proved.
//!
//! The crate holds no I/O. It says which request to send, what text a page
//! yields, under which file name that text is stored, and in which order a
//! run proceeds. A driver performs each step and reports back what happened.

pub mod article;
pub mod course;
pub mod extract;
pub mod numeral;
pub mod request;
pub mod run;
pub mod storage;
pub mod strings;
