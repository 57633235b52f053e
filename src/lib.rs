pub mod innings;
pub mod laws;
pub mod notation;
pub mod outcome;
pub mod text;
