use vstd::prelude::*;

verus! {

/// Variants of the XSalsa20Poly1305 encryption scheme applied to voice packets.
#[derive(Clone, Copy, PartialEq, Eq, Structural, Debug)]
pub enum CryptoMode {
    /// The RTP header is used as the source of nonce bytes for the packet.
    Normal,
    /// An additional random 24B suffix is the source of nonce bytes.
    Suffix,
    /// An additional 4B suffix, incremented per packet, is the nonce source.
    Lite,
}

/// How far received voice packets are processed before being handed to events.
#[derive(Clone, Copy, PartialEq, Eq, Structural, Debug)]
pub enum DecodeMode {
    /// Packets are handed over without any changes applied.
    Pass,
    /// The body of each received packet is decrypted.
    Decrypt,
    /// Each received packet is decrypted and decoded.
    Decode,
}

/// Wait policy between connection retry attempts.
///
/// Durations are carried as whole milliseconds. Jitter is carried in parts
/// per thousand, so `100` perturbs generated intervals by up to +/-10%.
#[derive(Clone, Copy, PartialEq, Eq, Structural, Debug)]
pub enum Strategy {
    /// Wait the same amount of time between each retry.
    Every { wait_ms: u64 },
    /// Exponential backoff: the wait roughly doubles per attempt, clamped
    /// between `min_ms` and `max_ms`, perturbed by the jitter.
    Backoff { min_ms: u64, max_ms: u64, jitter_permille: u32 },
}

/// Minimum wait of the default backoff strategy, in milliseconds.
pub const DEFAULT_BACKOFF_MIN_MS: u64 = 250;
/// Maximum wait of the default backoff strategy, in milliseconds.
pub const DEFAULT_BACKOFF_MAX_MS: u64 = 10000;
/// Jitter of the default backoff strategy, in parts per thousand.
pub const DEFAULT_BACKOFF_JITTER_PERMILLE: u32 = 100;

impl Strategy {
    /// An even wait of `wait_ms` between retries.
    pub fn every(wait_ms: u64) -> (r: Strategy)
        ensures
            r == (Strategy::Every { wait_ms }),
    {
        Strategy::Every { wait_ms }
    }

    /// The exponential backoff strategy with its default parameters.
    pub fn backoff_default() -> (r: Strategy)
        ensures
            r == (Strategy::Backoff {
                min_ms: DEFAULT_BACKOFF_MIN_MS,
                max_ms: DEFAULT_BACKOFF_MAX_MS,
                jitter_permille: DEFAULT_BACKOFF_JITTER_PERMILLE,
            }),
    {
        Strategy::Backoff {
            min_ms: DEFAULT_BACKOFF_MIN_MS,
            max_ms: DEFAULT_BACKOFF_MAX_MS,
            jitter_permille: DEFAULT_BACKOFF_JITTER_PERMILLE,
        }
    }

    /// An exponential backoff strategy with explicit parameters.
    pub fn backoff(min_ms: u64, max_ms: u64, jitter_permille: u32) -> (r: Strategy)
        ensures
            r == (Strategy::Backoff { min_ms, max_ms, jitter_permille }),
    {
        Strategy::Backoff { min_ms, max_ms, jitter_permille }
    }
}

/// Retry policy for re-establishing dropped voice connections.
#[derive(Clone, Copy, PartialEq, Eq, Debug)]
pub struct Retry {
    /// Strategy used to determine how long to wait between retry attempts.
    pub strategy: Strategy,
    /// The maximum number of retries to attempt; `None` retries forever.
    pub retry_limit: Option<usize>,
}

/// Number of retries attempted by default.
pub const DEFAULT_RETRY_LIMIT: usize = 5;

impl Retry {
    /// The spec-level default retry policy: default backoff, five retries.
    pub open spec fn default_spec() -> Retry {
        Retry {
            strategy: Strategy::Backoff {
                min_ms: DEFAULT_BACKOFF_MIN_MS,
                max_ms: DEFAULT_BACKOFF_MAX_MS,
                jitter_permille: DEFAULT_BACKOFF_JITTER_PERMILLE,
            },
            retry_limit: Some(DEFAULT_RETRY_LIMIT),
        }
    }
}

impl Default for Retry {
    fn default() -> (r: Retry)
        ensures
            r == Retry::default_spec(),
    {
        Retry { strategy: Strategy::backoff_default(), retry_limit: Some(DEFAULT_RETRY_LIMIT) }
    }
}

/// Driver timeout applied by default, in milliseconds.
pub const DEFAULT_DRIVER_TIMEOUT_MS: u64 = 10000;
/// Gateway timeout applied by default, in milliseconds.
pub const DEFAULT_GATEWAY_TIMEOUT_MS: u64 = 10000;
/// Number of track slots preallocated by default.
pub const DEFAULT_PREALLOCATED_TRACKS: usize = 1;

/// The driver configuration value object.
///
/// A `Config` is owned by its caller and applied to a driver by copy; changes
/// to a `Config` value reach a driver only through `set_config`. Timeouts are
/// carried as whole milliseconds; `None` means the operation never times out.
#[derive(Clone, Copy, PartialEq, Debug)]
pub struct Config {
    /// Selected tagging mode for voice packet encryption.
    pub crypto_mode: CryptoMode,
    /// Whether decoding and decryption occur for received packets.
    pub decode_mode: DecodeMode,
    /// Number of concurrently active tracks to allocate memory for.
    pub preallocated_tracks: usize,
    /// Time to wait for an attempted voice connection, in milliseconds.
    pub driver_timeout_ms: Option<u64>,
    /// Time to wait for connection information from the gateway, in milliseconds.
    pub gateway_timeout_ms: Option<u64>,
    /// Connection retry policy of the driver.
    pub driver_retry: Retry,
}

impl Config {
    /// The spec-level default configuration.
    pub open spec fn default_spec() -> Config {
        Config {
            crypto_mode: CryptoMode::Normal,
            decode_mode: DecodeMode::Decrypt,
            preallocated_tracks: DEFAULT_PREALLOCATED_TRACKS,
            driver_timeout_ms: Some(DEFAULT_DRIVER_TIMEOUT_MS),
            gateway_timeout_ms: Some(DEFAULT_GATEWAY_TIMEOUT_MS),
            driver_retry: Retry::default_spec(),
        }
    }

    /// Builds the default configuration.
    pub fn new() -> (c: Config)
        ensures
            c == Config::default_spec(),
    {
        Config {
            crypto_mode: CryptoMode::Normal,
            decode_mode: DecodeMode::Decrypt,
            preallocated_tracks: DEFAULT_PREALLOCATED_TRACKS,
            driver_timeout_ms: Some(DEFAULT_DRIVER_TIMEOUT_MS),
            gateway_timeout_ms: Some(DEFAULT_GATEWAY_TIMEOUT_MS),
            driver_retry: Retry::default(),
        }
    }

    /// Reads the crypto mode of this configuration.
    pub fn get_crypto_mode(&self) -> (r: CryptoMode)
        ensures
            r == self.crypto_mode,
    {
        self.crypto_mode
    }

    /// Replaces the crypto mode; every other field is kept.
    pub fn set_crypto_mode(&mut self, crypto_mode: CryptoMode)
        ensures
            *final(self) == (Config { crypto_mode, ..*old(self) }),
    {
        self.crypto_mode = crypto_mode;
    }

    /// Reads the decode mode of this configuration.
    pub fn get_decode_mode(&self) -> (r: DecodeMode)
        ensures
            r == self.decode_mode,
    {
        self.decode_mode
    }

    /// Replaces the decode mode; every other field is kept.
    pub fn set_decode_mode(&mut self, decode_mode: DecodeMode)
        ensures
            *final(self) == (Config { decode_mode, ..*old(self) }),
    {
        self.decode_mode = decode_mode;
    }

    /// Reads the number of preallocated track slots.
    pub fn get_preallocated_tracks(&self) -> (r: usize)
        ensures
            r == self.preallocated_tracks,
    {
        self.preallocated_tracks
    }

    /// Replaces the number of preallocated track slots; every other field is kept.
    pub fn set_preallocated_tracks(&mut self, preallocated_tracks: usize)
        ensures
            *final(self) == (Config { preallocated_tracks, ..*old(self) }),
    {
        self.preallocated_tracks = preallocated_tracks;
    }

    /// Reads the driver timeout, in milliseconds.
    pub fn get_driver_timeout(&self) -> (r: Option<u64>)
        ensures
            r == self.driver_timeout_ms,
    {
        self.driver_timeout_ms
    }

    /// Replaces the driver timeout; every other field is kept.
    pub fn set_driver_timeout(&mut self, driver_timeout_ms: Option<u64>)
        ensures
            *final(self) == (Config { driver_timeout_ms, ..*old(self) }),
    {
        self.driver_timeout_ms = driver_timeout_ms;
    }

    /// Reads the wait strategy of the retry policy.
    pub fn retry_strategy(&self) -> (r: Strategy)
        ensures
            r == self.driver_retry.strategy,
    {
        self.driver_retry.strategy
    }

    /// Reads the retry limit of the retry policy.
    pub fn retry_limit(&self) -> (r: Option<usize>)
        ensures
            r == self.driver_retry.retry_limit,
    {
        self.driver_retry.retry_limit
    }

    /// Replaces the whole retry policy; every other field is kept.
    pub fn set_driver_retry(&mut self, strategy: Strategy, retry_limit: Option<usize>)
        ensures
            *final(self) == (Config {
                driver_retry: Retry { strategy, retry_limit },
                ..*old(self)
            }),
    {
        self.driver_retry = Retry { strategy, retry_limit };
    }

    /// Reads the gateway timeout, in milliseconds.
    pub fn get_gateway_timeout(&self) -> (r: Option<u64>)
        ensures
            r == self.gateway_timeout_ms,
    {
        self.gateway_timeout_ms
    }

    /// Replaces the gateway timeout; every other field is kept.
    pub fn set_gateway_timeout(&mut self, gateway_timeout_ms: Option<u64>)
        ensures
            *final(self) == (Config { gateway_timeout_ms, ..*old(self) }),
    {
        self.gateway_timeout_ms = gateway_timeout_ms;
    }
}

} // verus!
