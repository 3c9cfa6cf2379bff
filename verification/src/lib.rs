//! Movie number parsing, file organisation rules and metadata helpers for
//! local media libraries, with contracts checked by Verus.

use vstd::prelude::*;

pub mod text;
pub mod rx;
pub mod paths;
pub mod number_parser;
pub mod types;
pub mod processor;
pub mod file_metadata;
pub mod file_ops;
pub mod nfo;
pub mod image;
pub mod face_detect;
pub mod http;
pub mod cloudscraper;
pub mod scraper;
pub mod scrapers;
pub mod scanner;
pub mod batch;
pub mod api_models;
pub mod storage;
pub mod workflow;
pub mod logging;
pub mod registry;
pub mod cli;
pub mod metadata;
pub mod dom;
pub mod pages;
pub mod json;

verus! {
} // verus!
