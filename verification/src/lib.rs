//! Verified decision logic of the QTSS background worker: data-source
//! routing, symbol lifecycle, kill-switch synchronisation, outcome
//! labelling, structural feature extraction and Elliott structure tracking.

pub mod text;
pub mod engines;
pub mod settings;
pub mod lifecycle;
pub mod intake;
pub mod nansen_lifecycle;
pub mod outcome;
pub mod kill_switch;
pub mod features;
pub mod markets;
pub mod decimal;
pub mod json;
pub mod nansen_requests;
pub mod pivots;
pub mod onchain;
pub mod execution;
pub mod structure;
pub mod playbook;
pub mod indicators;
pub mod backfill;
pub mod llm;
pub mod notify;
pub mod sentiment;
pub mod scan;
pub mod iq_setups;
pub mod pattern_outcome;
pub mod whales;
