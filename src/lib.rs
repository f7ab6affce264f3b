//! Search aggregation over several torrent indexes and supervision of the
//! download daemon, with the decision logic verified.

pub mod app;
pub mod aria2_client;
pub mod piratebay;
pub mod supervisor;
pub mod text;
pub mod torrent_search;
pub mod types;
pub mod utils;
pub mod x1337;
pub mod yts;
