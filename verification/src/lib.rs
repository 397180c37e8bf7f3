//! Newsletter subscription intake: validated subscriber data, the stored
//! record, the confirmation email and the rules that order them.

pub mod configuration;
pub mod domain;
pub mod email_client;
pub mod routes;
pub mod startup;
pub mod text;
