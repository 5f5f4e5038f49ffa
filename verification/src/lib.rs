//! Account, workspace and file-storage entities of the Flowy user layer,
//! with verified conversions, builders and request planning.

pub mod encryption;
pub mod error;
pub mod file_storage;
pub mod ids;
pub mod json;
pub mod kinds;
pub mod time;
pub mod user;
pub mod workspace;

pub use encryption::EncryptionType;
pub use error::{ErrorCode, FlowyError};
pub use file_storage::{
    AFCloudFileStorageServiceImpl, CompleteUploadRequest, CompletedPartRequest,
    CreateUploadRequest, ObjectIdentity,
};
pub use ids::Uuid;
pub use kinds::{AuthType, Role, UserTokenState, WorkspaceInvitationStatus, WorkspaceType};
pub use time::UtcTime;
pub use user::{
    user_awareness_object_id, AFCloudOAuthParams, AuthResponse, SignInParams, SignUpParams,
    SupabaseOAuthParams, UpdateUserProfileParams, UserAuthResponse, UserProfile,
    WorkspaceInvitation, WorkspaceMember, USER_METADATA_ICON_URL, USER_METADATA_UPDATE_AT,
};
pub use workspace::{default_workspace_type, UserWorkspace};
