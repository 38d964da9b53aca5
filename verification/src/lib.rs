//! The decisions and the wording of a small Git routine: fetch a remote,
//! merge what came into the current branch, then fetch the branch that the
//! remote advertises as its default.
//!
//! Nothing here touches a repository or the network. A caller performs each
//! [`session::Action`] with a Git library of its choice and hands the result
//! back as a [`session::Event`]; the lines to log come back as values.

pub mod digits;
pub mod object_id;
pub mod transfer;
pub mod report;
pub mod branch;
pub mod credentials;
pub mod session;
