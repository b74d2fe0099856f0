pub mod duration;
pub mod timing_map;
pub mod search;
pub mod routes;
