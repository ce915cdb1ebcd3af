//! Brute-force search for a keypair whose derived address matches a pattern.
//!
//! The library holds the search engine's logic: hex encoding, address
//! derivation, the pattern set, the shared state of one search round and the
//! text that a round prints. Threads, sleeps and the terminal are left to the
//! program that drives it.

mod candidate;
mod color_value;
mod hex;
mod patterns;
mod report;
mod search;

pub use candidate::{
    address_from_hash, address_of_hash, address_of_public_key, derive_address, generate,
    keccak256_of, public_key_of, Candidate, ADDRESS_BYTES, ADDRESS_LENGTH, HASH_BYTES, PRIVATE_KEY_LENGTH,
    PUBLIC_KEY_BYTES, SECRET_KEY_BYTES,
};
pub use color_value::ColorValue;
pub use hex::{hex_char, hex_of, is_lower_hex, lemma_hex_of_shape, to_hex_string};
pub use patterns::{any_matches, pattern_compiles, pattern_matches, retained, RegexPatterns};
pub use report::{
    banner_text, decimal_of, decimal_string, header_segments, is_rate_line, is_space,
    lemma_quiet_line_round_trip, no_pattern_segments, no_space, prefixed_address, quiet_line,
    quiet_text, rate_segments, result_segments, segment_is, words, Segment, Tint,
};
pub use search::{
    check_patterns, evaluate, worker_pool_size, worker_step, CoordinatorPoll, SearchError,
    SearchState, WorkerStep,
};
