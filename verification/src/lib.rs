//! A pull-based, memoizing signal graph with a library of synthesizer modules.
//!
//! A graph is built once out of signals; after that only its cells change.
//! In every tick the driver samples the root signal, which samples what it
//! depends on in turn; a signal shared by several consumers is computed once
//! per tick. Numbers are fixed-point, so that every result is defined.
pub mod backend;
pub mod dsl;
pub mod fixed;
pub mod graph;
pub mod laws;
pub mod music;
pub mod node;
pub mod noise;
pub mod signal;
pub mod signal_player;
pub mod synth_modules;
pub mod value;

pub use graph::Graph;
pub use node::{SignalCtx, SignalTrait};
pub use signal::{BoolVar, BufferedSignal, Sbool, Sfix, Su8, TriggerVar, Var};
pub use value::Waveform;
