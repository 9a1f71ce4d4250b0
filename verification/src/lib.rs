pub mod banner;
pub mod infra;
pub mod layout_laws;
pub mod text;
