pub mod board;
pub mod clock;
pub mod conduit_to_groupme;
pub mod errors;
pub mod groupme;
pub mod groupme_syncer;
pub mod hvz;
pub mod hvz_syncer;
pub mod order;
pub mod pattern;
pub mod periodic;
pub mod render;
pub mod scrape;
pub mod syncer;
pub mod text;
pub mod worker;
