//! The verified brain of an Entangled client.
//!
//! An Entangled client shows documents that publishers sign and serve over a
//! carrier such as Tor. A separate verifier checks each document by itself.
//! What is left to the client is decided here, on plain data and without any
//! I/O:
//!
//! - [`pipeline`]: in which order the verification stages run, and which
//!   diagnostic a rejected document gets;
//! - [`history`]: whether a manifest may follow those already accepted;
//! - [`trust`]: in which trust state a publisher is, what the user must be
//!   asked, and what is to be persisted;
//! - [`image`]: whether a fetched image may be decoded and shown;
//! - [`chrome`], [`scene`] and [`viewer`]: what the window shows;
//! - [`io`] and [`store`]: what is kept between sessions, and what is made of it
//!   when it is read again;
//! - [`load`]: all of these, from fetched bytes to the window.
//!
//! The shell around this library reads and writes files, draws, and calls the
//! document verifier.
pub mod chrome;
pub mod crypto;
pub mod encoding;
pub mod history;
pub mod image;
pub mod io;
pub mod load;
pub mod pipeline;
pub mod protocol;
pub mod scene;
pub mod store;
pub mod text;
pub mod trust;
pub mod viewer;

pub use chrome::{ChromeConditions, ChromeView, Warning, PIP_LABEL};
pub use history::{check_against_history, record_for, PublisherHistory};
pub use image::{
    verify_image, DecodeError, Decoded, Decoder, ImageBudget, ImageOutcome, NoRetrySet,
};
pub use io::{
    Clock, FixedClock, HistoryStore, IdentityStore, MemoryHistoryStore, MemoryIdentityStore,
    StoreError, StoreResult,
};
pub use load::{load, LoadError, Loaded};
pub use pipeline::{verify_content, verify_manifest, Outcome, VerifiedManifest};
pub use store::history::FileHistoryStore;
pub use store::identity::FileIdentityStore;
pub use store::protect::Protection;
pub use store::root::StoreRoot;
pub use trust::{
    resolve, PersistenceIntent, RequiredAction, Resolution, RetainedIdentity, RetainedProvenance,
    TrustState, UserDecision,
};
