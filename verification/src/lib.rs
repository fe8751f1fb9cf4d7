//! Streaming decoder for a particulate-matter sensor's fixed-length binary
//! frames, and a gauge sink that exposes the latest decoded measurements.

pub mod bytebuf;
pub mod metrics;
pub mod pms5003;
