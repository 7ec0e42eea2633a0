//! Lookup pipeline for WebNIS: the line protocol of the local proxy, the
//! failover rules of its upstream dispatcher, the staleness-bounded cache of
//! database handles on the server side, and the reply rules of the PAM client.

pub mod cache;
pub mod db;
pub mod dispatch;
pub mod pam;
pub mod request;
pub mod text;
