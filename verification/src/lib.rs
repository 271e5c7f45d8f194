//! Synchronisation core of a media player.
//!
//! A fetcher routes the packets of a container into two bounded queues, a
//! video worker and an audio worker drain them, and all three follow one
//! presentation clock. Reading the container, decoding, scaling, resampling,
//! drawing and the audio device are the caller's business: each worker is a
//! transition function that is told what happened and answers with what to do
//! next.
//!
//! Beside the player the crate keeps a few small containers: a word counter, a
//! grocery store, a task list, a trie and a complex number.

pub mod config;
pub mod clock;
pub mod ring;
pub mod stream;
pub mod decoder;
pub mod frame;
pub mod video;
pub mod audio;
pub mod fetcher;
pub mod player;
pub mod entries;
pub mod word_counter;
pub mod store;
pub mod tasks;
pub mod complex;
pub mod trie;
