//! Querying and ranking information about movies and series.

use vstd::prelude::*;

pub mod bytes;
pub mod cli;
pub mod db;
pub mod genre;
pub mod import;
pub mod keywords;
pub mod mem;
pub mod number;
pub mod print;
pub mod text;
pub mod rating;
pub mod results;
pub mod scan;
pub mod search;
pub mod service;
pub mod title;
pub mod title_header;
pub mod title_id;
pub mod title_type;
pub mod tsv;
pub mod update;

verus! {

} // verus!
