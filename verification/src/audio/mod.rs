pub mod wav;

pub use wav::{lcg_next, pcm16_wav, NoiseLcg, SAMPLE_RATE};
