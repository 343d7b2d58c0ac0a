pub mod cache;
pub mod container;
pub mod content;
pub mod credential;
pub mod documents;
pub mod identity;
pub mod json;
pub mod layers;
pub mod manifest;
pub mod reference;
