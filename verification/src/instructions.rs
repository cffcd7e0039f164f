//! The three operations, each on the records that a request names.

pub mod cast_votes;
pub mod init_dao;
pub mod init_proposal;
