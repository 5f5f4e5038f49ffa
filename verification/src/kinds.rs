use vstd::prelude::*;

verus! {

/// Where a workspace lives: only on this device, or on the cloud server.
#[derive(Debug, Clone, Copy, Hash, PartialEq, Eq, Structural)]
pub enum WorkspaceType {
    Local,
    Server,
}

/// How a user signs in.
#[derive(Debug, Clone, Copy, Hash, PartialEq, Eq, Structural)]
pub enum AuthType {
    /// It's a local server, we do fake sign in default.
    Local,
    /// Sign in through the AppFlowy cloud.
    AppFlowyCloud,
}

/// The role of a member in a workspace.
#[derive(Debug, Clone, Copy, PartialEq, Eq, Structural)]
pub enum Role {
    Owner,
    Member,
    Guest,
}

/// The state of the user's access token.
#[derive(Debug, Clone)]
pub enum UserTokenState {
    Init,
    Refresh { token: String },
    Invalid,
}

/// The state of an invitation to a workspace.
#[derive(Debug, Clone, Copy, PartialEq, Eq, Structural)]
pub enum WorkspaceInvitationStatus {
    Pending,
    Accepted,
    Rejected,
}

/// The workspace type that a numeric code stands for: `0` is local, every other code is
/// the server.
pub open spec fn workspace_type_from_code(value: i32) -> WorkspaceType {
    if value == 0 {
        WorkspaceType::Local
    } else {
        WorkspaceType::Server
    }
}

/// The auth type that a numeric code stands for: `1` is the cloud, every other code is
/// local.
pub open spec fn auth_type_from_code(value: i32) -> AuthType {
    if value == 1 {
        AuthType::AppFlowyCloud
    } else {
        AuthType::Local
    }
}

/// The role that a numeric code stands for: `0` owner, `1` member, every other code guest.
pub open spec fn role_from_code(value: i32) -> Role {
    if value == 0 {
        Role::Owner
    } else if value == 1 {
        Role::Member
    } else {
        Role::Guest
    }
}

/// The numeric code of a role.
pub open spec fn role_code(role: Role) -> i32 {
    match role {
        Role::Owner => 0,
        Role::Member => 1,
        Role::Guest => 2,
    }
}

/// The workspace type that goes with an auth type.
pub open spec fn workspace_type_of_auth(auth: AuthType) -> WorkspaceType {
    match auth {
        AuthType::Local => WorkspaceType::Local,
        AuthType::AppFlowyCloud => WorkspaceType::Server,
    }
}

/// The auth type that goes with a workspace type.
pub open spec fn auth_type_of_workspace(ty: WorkspaceType) -> AuthType {
    match ty {
        WorkspaceType::Local => AuthType::Local,
        WorkspaceType::Server => AuthType::AppFlowyCloud,
    }
}

/// The name under which an auth type is displayed.
pub open spec fn auth_type_name(auth: AuthType) -> Seq<char> {
    match auth {
        AuthType::Local => "Local"@,
        AuthType::AppFlowyCloud => "AppFlowyCloud"@,
    }
}

impl Default for WorkspaceType {
    fn default() -> (r: Self)
        ensures
            r == WorkspaceType::Local,
    {
        WorkspaceType::Local
    }
}

impl WorkspaceType {
    pub fn is_local(&self) -> (r: bool)
        ensures
            r == (*self == WorkspaceType::Local),
    {
        match self {
            WorkspaceType::Local => true,
            WorkspaceType::Server => false,
        }
    }
}

impl From<i32> for WorkspaceType {
    fn from(value: i32) -> (r: Self)
        ensures
            r == workspace_type_from_code(value),
    {
        match value {
            0 => WorkspaceType::Local,
            1 => WorkspaceType::Server,
            _ => WorkspaceType::Server,
        }
    }
}

impl vstd::std_specs::convert::FromSpecImpl<i32> for WorkspaceType {
    open spec fn obeys_from_spec() -> bool {
        true
    }

    open spec fn from_spec(value: i32) -> WorkspaceType {
        workspace_type_from_code(value)
    }
}

impl<'a> From<&'a AuthType> for WorkspaceType {
    fn from(value: &'a AuthType) -> (r: Self)
        ensures
            r == workspace_type_of_auth(*value),
    {
        match value {
            AuthType::Local => WorkspaceType::Local,
            AuthType::AppFlowyCloud => WorkspaceType::Server,
        }
    }
}

impl<'a> vstd::std_specs::convert::FromSpecImpl<&'a AuthType> for WorkspaceType {
    open spec fn obeys_from_spec() -> bool {
        true
    }

    open spec fn from_spec(value: &'a AuthType) -> WorkspaceType {
        workspace_type_of_auth(*value)
    }
}

impl From<WorkspaceType> for AuthType {
    fn from(value: WorkspaceType) -> (r: Self)
        ensures
            r == auth_type_of_workspace(value),
    {
        match value {
            WorkspaceType::Local => AuthType::Local,
            WorkspaceType::Server => AuthType::AppFlowyCloud,
        }
    }
}

impl vstd::std_specs::convert::FromSpecImpl<WorkspaceType> for AuthType {
    open spec fn obeys_from_spec() -> bool {
        true
    }

    open spec fn from_spec(value: WorkspaceType) -> AuthType {
        auth_type_of_workspace(value)
    }
}

impl Default for AuthType {
    fn default() -> (r: Self)
        ensures
            r == AuthType::Local,
    {
        AuthType::Local
    }
}

impl AuthType {
    pub fn is_local(&self) -> (r: bool)
        ensures
            r == (*self == AuthType::Local),
    {
        match self {
            AuthType::Local => true,
            AuthType::AppFlowyCloud => false,
        }
    }

    pub fn is_appflowy_cloud(&self) -> (r: bool)
        ensures
            r == (*self == AuthType::AppFlowyCloud),
    {
        match self {
            AuthType::Local => false,
            AuthType::AppFlowyCloud => true,
        }
    }

    /// The name under which the auth type is displayed.
    pub fn to_string(&self) -> (r: String)
        ensures
            r@ == auth_type_name(*self),
    {
        match self {
            AuthType::Local => "Local".to_owned(),
            AuthType::AppFlowyCloud => "AppFlowyCloud".to_owned(),
        }
    }
}

impl From<i32> for AuthType {
    fn from(value: i32) -> (r: Self)
        ensures
            r == auth_type_from_code(value),
    {
        match value {
            0 => AuthType::Local,
            1 => AuthType::AppFlowyCloud,
            _ => AuthType::Local,
        }
    }
}

impl vstd::std_specs::convert::FromSpecImpl<i32> for AuthType {
    open spec fn obeys_from_spec() -> bool {
        true
    }

    open spec fn from_spec(value: i32) -> AuthType {
        auth_type_from_code(value)
    }
}

impl From<i32> for Role {
    fn from(value: i32) -> (r: Self)
        ensures
            r == role_from_code(value),
    {
        match value {
            0 => Role::Owner,
            1 => Role::Member,
            2 => Role::Guest,
            _ => Role::Guest,
        }
    }
}

impl vstd::std_specs::convert::FromSpecImpl<i32> for Role {
    open spec fn obeys_from_spec() -> bool {
        true
    }

    open spec fn from_spec(value: i32) -> Role {
        role_from_code(value)
    }
}

impl From<Role> for i32 {
    fn from(value: Role) -> (r: Self)
        ensures
            r == role_code(value),
    {
        match value {
            Role::Owner => 0,
            Role::Member => 1,
            Role::Guest => 2,
        }
    }
}

impl vstd::std_specs::convert::FromSpecImpl<Role> for i32 {
    open spec fn obeys_from_spec() -> bool {
        true
    }

    open spec fn from_spec(value: Role) -> i32 {
        role_code(value)
    }
}

/// Turning an auth type into its workspace type and back gives the auth type again, and
/// turning a workspace type into its auth type and back gives the workspace type again.
pub proof fn lemma_auth_workspace_round_trip(auth: AuthType, ty: WorkspaceType)
    ensures
        auth_type_of_workspace(workspace_type_of_auth(auth)) == auth,
        workspace_type_of_auth(auth_type_of_workspace(ty)) == ty,
{
}

/// An auth type is local exactly when the workspace type that goes with it is local,
/// and the default auth type goes with the default workspace type.
pub proof fn lemma_auth_workspace_locality(auth: AuthType)
    ensures
        (workspace_type_of_auth(auth) == WorkspaceType::Local) == (auth == AuthType::Local),
        (auth == AuthType::AppFlowyCloud) == (workspace_type_of_auth(auth) == WorkspaceType::Server),
        workspace_type_of_auth(AuthType::Local) == WorkspaceType::Local,
{
}

/// The code of a role reads back as the same role, and every code in `0..=2` is the code of
/// the role it reads as; every other code reads as a guest.
pub proof fn lemma_role_code_round_trip(role: Role, code: i32)
    ensures
        role_from_code(role_code(role)) == role,
        0 <= code <= 2 ==> role_code(role_from_code(code)) == code,
        !(0 <= code <= 2) ==> role_from_code(code) == Role::Guest,
{
}

/// The codes of the auth types read back as the same auth type, and so do the codes of
/// the workspace types, where local is `0` and the other kind is `1`.
pub proof fn lemma_codes_read_back(auth: AuthType, ty: WorkspaceType)
    ensures
        auth_type_from_code(if auth == AuthType::Local { 0i32 } else { 1i32 }) == auth,
        workspace_type_from_code(if ty == WorkspaceType::Local { 0i32 } else { 1i32 }) == ty,
{
}

/// Code `0` is the local workspace type and every other code the server; code `1` is the
/// cloud auth type and every other code local; the roles have the codes `0`, `1` and `2`;
/// and the auth types are displayed by their own names.
pub proof fn lemma_code_meanings(code: i32)
    ensures
        (workspace_type_from_code(code) == WorkspaceType::Local) == (code == 0),
        (auth_type_from_code(code) == AuthType::AppFlowyCloud) == (code == 1),
        code == 0 ==> role_from_code(code) == Role::Owner,
        code == 1 ==> role_from_code(code) == Role::Member,
        role_code(Role::Owner) == 0 && role_code(Role::Member) == 1 && role_code(Role::Guest) == 2,
        auth_type_name(AuthType::Local) == "Local"@,
        auth_type_name(AuthType::AppFlowyCloud) == "AppFlowyCloud"@,
{
}

} // verus!
