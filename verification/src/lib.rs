pub mod assoc;
pub mod commit;
pub mod laws;
pub mod model;
pub mod registrar;
pub mod types;

pub use registrar::Registrar;

pub use model::RegistrarV;

pub use commit::commit;
pub use commit::commitment_of;
pub use commit::keccak256_of;

pub use types::AccountId;
pub use types::BidKey;
pub use types::Digest;
pub use types::Entry;
pub use types::EntryV;
pub use types::Error;
pub use types::NameMode;
