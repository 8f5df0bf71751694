//! Decision logic for choosing CPU frequency-scaling and GPU power settings
//! through kernel-exposed files: parsing the advertised values, driving the
//! confirmation and choice prompts, and planning the writes.

pub mod config;
pub mod course;
pub mod discovery;
pub mod program;
pub mod rounds;
pub mod selector;
pub mod target;
pub mod text;
