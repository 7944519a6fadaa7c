//! Audio loopback streaming core: the sample ring, the downmix and decimation
//! transform, the sender's connection bookkeeping, response parsing and the
//! bounded transcript accumulator.

pub mod buffer_texto;
pub mod coletor;
pub mod enviador;
pub mod erro;
pub mod pipeline;
pub mod recent;
pub mod resample;
pub mod response;
pub mod sample_ring;
