//! Querying and reducing the privileges of Windows access tokens.
//!
//! Each operation on a token is a [`procedure::Procedure`]: it names one call to the system
//! after the other, and is resumed with the reply to each. What a call and a reply hold is in
//! [`call`], and what holds of every run of every procedure is in [`run`]. The operations
//! themselves start at [`token::Token`]; what each asks and ends with, reply by reply, is in
//! [`outcomes`], and what holds of each as a whole is in [`laws`]. What holds of the parts that
//! they share is in [`parts`].

pub mod bytes;
pub mod call;
pub mod duplicate;
pub mod elevation;
pub mod error;
pub mod impersonate;
pub mod integrity;
pub mod label;
pub mod laws;
pub mod membership;
pub mod open;
pub mod outcomes;
pub mod parts;
pub mod privilege;
pub mod procedure;
pub mod run;
pub mod safer;
pub mod token;
pub mod win32;
