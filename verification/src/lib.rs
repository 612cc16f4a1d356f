use vstd::prelude::*;

pub mod app;
pub mod cli;
pub mod db;
pub mod flow;
pub mod laws;
pub mod models;
pub mod storage;
pub mod text;
pub mod view;
