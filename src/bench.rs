//! Parameters of a benchmark run: the buffer size and the key, with the buffer
//! and cipher they produce and the measurement of a timed pass.

use crate::cipher::BlockCipher;
use crate::report::Measurement;
use vstd::prelude::*;

verus! {

/// The buffer size of the default run: 64 MiB.
pub const DEFAULT_BUFFER_SIZE: usize = 67108864;

/// Why a run configuration was refused.
#[derive(Clone, Copy, Debug, PartialEq, Eq, Structural)]
pub enum ConfigError {
    /// The buffer size is not a multiple of the 16-byte block size.
    UnalignedSize,
}

/// The parameters of one run.
#[derive(Clone, Copy, Debug)]
pub struct BenchConfig {
    pub size_bytes: usize,
    pub key: [u8; 16],
}

impl BenchConfig {
    /// A run over `size_bytes` bytes under `key`; the size must be whole blocks.
    pub fn new(size_bytes: usize, key: [u8; 16]) -> (r: Result<BenchConfig, ConfigError>)
        ensures
            r is Err <==> size_bytes % 16 != 0,
            r is Err ==> r == Err::<BenchConfig, ConfigError>(ConfigError::UnalignedSize),
            r is Ok ==> r->Ok_0.size_bytes == size_bytes && r->Ok_0.key == key,
    {
        if size_bytes % 16 != 0 {
            Err(ConfigError::UnalignedSize)
        } else {
            Ok(BenchConfig { size_bytes, key })
        }
    }

    /// The default run: a 64 MiB buffer under the all-zero key, fixed for
    /// repeatable figures (such a key protects nothing).
    pub fn default_config() -> (r: BenchConfig)
        ensures
            r.size_bytes == 67108864,
            r.key@ == Seq::new(16, |i: int| 0u8),
    {
        let r = BenchConfig { size_bytes: DEFAULT_BUFFER_SIZE, key: [0u8; 16] };
        assert(r.key@ =~= Seq::new(16, |i: int| 0u8));
        r
    }

    /// A zero-filled buffer of the configured size.
    pub fn allocate(&self) -> (r: Vec<u8>)
        ensures
            r@ == Seq::new(self.size_bytes as nat, |i: int| 0u8),
    {
        let r = vec![0u8; self.size_bytes];
        assert(r@ =~= Seq::new(self.size_bytes as nat, |i: int| 0u8));
        r
    }

    /// The cipher keyed by the configured key.
    pub fn cipher(&self) -> (r: BlockCipher)
        ensures
            r@ == self.key@,
    {
        BlockCipher::new(self.key)
    }

    /// The measurement of a pass over the configured buffer that took
    /// `elapsed_nanos` nanoseconds.
    pub fn measurement(&self, elapsed_nanos: u64) -> (r: Measurement)
        ensures
            r.size_bytes == self.size_bytes,
            r.elapsed_nanos == elapsed_nanos,
    {
        Measurement { size_bytes: self.size_bytes as u64, elapsed_nanos }
    }
}

} // verus!
