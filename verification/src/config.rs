//! The rules of the camera configuration form: what an operator may enter,
//! and what becomes of it.

pub mod deletion;
pub mod dialog;
pub mod form;
pub mod url;
