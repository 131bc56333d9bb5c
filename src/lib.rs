pub mod sample;
pub mod session;
pub mod settings;

pub use sample::{Item, SampleError, pick_items, sample_indices, sample_items};
pub use session::{CredentialStep, Session};
pub use settings::{Credentials, Settings, SettingsView};
