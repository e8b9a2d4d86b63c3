//! Session identity for an administrative backend: signed bearer credentials,
//! login and logout decisions, and the per-request identity guard, together with
//! the plain data records of its services.

pub mod identity;
pub mod login;
pub mod guard;
pub mod tree;
pub mod employee;
pub mod department;
pub mod position;
pub mod role;
