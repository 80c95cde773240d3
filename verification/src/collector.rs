//! Collection units that the exposition handler runs on each scrape.

pub mod throttled;
