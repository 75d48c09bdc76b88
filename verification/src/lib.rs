//! A unified client core for several social-VR platforms: platform-tagged
//! identities and entities, the repository that caches them, the session
//! tables with their login protocols, and the freshness policy on top.

pub mod accounts;
pub mod assets;
pub mod auth;
pub mod cache_store;
pub mod cvr;
pub mod ids;
pub mod instances;
pub mod laws;
pub mod mappings;
pub mod metadata;
pub mod net;
pub mod platform;
pub mod profile;
pub mod record;
pub mod resonite;
pub mod storage;
pub mod vrchat;
pub mod wrapper;

pub use accounts::{PlatformAccount, PlatformFriend};
pub use assets::{Avatar, AvatarId, World, WorldId};
pub use auth::{Authentication, CredentialsError, LoginCredentials, LoginError};
pub use cache_store::OnlivfeCacheStorageBackend;
pub use ids::PlatformAccountId;
pub use instances::{Instance, InstanceId};
pub use metadata::{PlatformDataAndMetadata, PlatformDataMetadata};
pub use net::{OnlivfeApiClient, VRChatClientState};
pub use platform::{platforms, PlatformType};
pub use profile::{Profile, ProfileId};
pub use record::PlatformRecord;
pub use storage::StorageError;
pub use wrapper::{Onlivfe, ReauthError};
