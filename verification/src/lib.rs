//! A quiz-bowl game engine: a query language over a fixed category
//! taxonomy, an answer-grading pipeline, and a per-channel question
//! lifecycle state machine, with contracts checked by Verus.
//!
//! The engine is pure: chat, HTTP and the LLM judge live outside it and
//! speak to it through plain values. [`query`] compiles a selection
//! expression, [`qb`] turns the selection into request parameters, [`game`]
//! runs a question in a channel, and [`grade`] judges answers as far as
//! edit distance and markup reach; what it cannot decide goes to an outside
//! judge whose reply it classifies.

pub mod fuzzy;
pub mod game;
pub mod grade;
pub mod qb;
pub mod query;
pub mod resolve_facts;
pub mod setops;
pub mod taxonomy;
pub mod text;
pub mod utils;
