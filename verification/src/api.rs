//! What a scrape handler makes of the channel.

pub mod metrics;
