//! Aggregates short text fragments from several data sources (status lines,
//! clock, CPU and memory, network rate, media, idle state, heart rate, system
//! facts) into one chatbox message per tick, and encodes it, with its
//! truncation and suffix rules, as an OSC datagram.
pub mod controller;
pub mod modules;
pub mod orchestrator;
pub mod osc;
pub mod smalltext;
pub mod text;
