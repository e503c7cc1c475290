//! Verified decision and validation core of the Chancela API service.
pub mod confirmation;
pub mod error;
pub mod text;

pub mod cluster;
pub mod cluster_sim;
pub mod cluster_route;
pub mod cluster_watchdog;
pub mod cluster_feed;
pub mod collection_page;
pub mod sorting;
pub mod books;
pub mod chronology;
pub mod cluster_shared_state;
pub mod cache;
pub mod cmd_phone;
pub mod cae;
pub mod bundles;
pub mod cmd_test_signature;
