//! A template-driven snippet engine: a function skeleton is filled slot by
//! slot (name, parameters, result, body), with the scaffolding of each slot
//! inserted into a rope-backed text buffer and the ranges it occupies recorded.

pub mod grammar;
pub mod function;
pub mod snippet;
pub mod rope_text;
pub mod cursor;
pub mod editor;
pub mod input;
