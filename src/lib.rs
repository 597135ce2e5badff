pub mod laws;
pub mod machine;
pub mod normalize;
pub mod sandbox;
pub mod text;
pub mod types;
pub mod worker;
