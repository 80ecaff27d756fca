//! The synthesizer modules: each a kind of node with its wiring, its state
//! and the rule by which it computes a sample.
pub mod adsr_envelope_exp_01;
pub mod adsr_envelope_lin_01;
pub mod amplify;
pub mod asr_envelope_lin_01;
pub mod biquad_filter;
pub mod clock;
pub mod moving_average_filter;
pub mod oscillator;
pub mod sample_and_hold;
pub mod sample_player;
pub mod state_variable_filter_first_order;
pub mod sum;
pub mod synth_sequencer;
pub mod trigger_sequencer_8;
pub mod weighted_sum;
