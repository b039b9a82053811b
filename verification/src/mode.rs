//! Display modes layered over the raw addressing machinery.

pub mod terminal;
