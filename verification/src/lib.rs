pub mod error;
pub mod script;
pub mod strmap;
pub mod strings;
pub mod text;
pub mod variable;
pub mod expression;
pub mod event;
pub mod tags;
pub mod machine;
pub mod engine;
