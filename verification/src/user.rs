use vstd::prelude::*;
use vstd::string::StringExecFns;

use crate::encryption::EncryptionType;
use crate::ids::{name_based_uuid, uuid_v5, Uuid};
use crate::json::{json_string_field, json_string_lookup};
use crate::kinds::{workspace_type_of_auth, AuthType, Role, WorkspaceInvitationStatus, WorkspaceType};
use crate::time::UtcTime;
use crate::workspace::UserWorkspace;

verus! {

/// The metadata key under which a user's icon url is kept.
pub const USER_METADATA_ICON_URL: &'static str = "icon_url";

/// The metadata key under which the time of a user's last update is kept.
pub const USER_METADATA_UPDATE_AT: &'static str = "updated_at";

/// The text of an optional string.
pub open spec fn opt_text(o: Option<String>) -> Option<Seq<char>> {
    match o {
        Some(s) => Some(s@),
        None => None,
    }
}

/// The text of an optional text, or the empty text when there is none.
pub open spec fn text_or_empty(o: Option<Seq<char>>) -> Seq<char> {
    match o {
        Some(s) => s,
        None => Seq::empty(),
    }
}

/// What a server answers to a sign in or sign up.
pub trait UserAuthResponse {
    spec fn user_id_of(&self) -> i64;

    spec fn user_uuid_of(&self) -> Uuid;

    spec fn user_name_of(&self) -> Seq<char>;

    spec fn latest_workspace_of(&self) -> UserWorkspace;

    spec fn user_workspaces_of(&self) -> Seq<UserWorkspace>;

    spec fn user_token_of(&self) -> Option<Seq<char>>;

    spec fn user_email_of(&self) -> Option<Seq<char>>;

    spec fn encryption_type_of(&self) -> EncryptionType;

    /// The user's metadata as JSON text.
    spec fn metadata_of(&self) -> Option<Seq<char>>;

    spec fn updated_at_of(&self) -> i64;

    fn user_id(&self) -> (r: i64)
        ensures
            r == self.user_id_of(),
    ;

    fn user_uuid(&self) -> (r: &Uuid)
        ensures
            *r == self.user_uuid_of(),
    ;

    fn user_name(&self) -> (r: &str)
        ensures
            r@ == self.user_name_of(),
    ;

    fn latest_workspace(&self) -> (r: &UserWorkspace)
        ensures
            *r == self.latest_workspace_of(),
    ;

    fn user_workspaces(&self) -> (r: &[UserWorkspace])
        ensures
            r@ == self.user_workspaces_of(),
    ;

    fn user_token(&self) -> (r: Option<String>)
        ensures
            opt_text(r) == self.user_token_of(),
    ;

    fn user_email(&self) -> (r: Option<String>)
        ensures
            opt_text(r) == self.user_email_of(),
    ;

    fn encryption_type(&self) -> (r: EncryptionType)
        ensures
            r == self.encryption_type_of(),
    ;

    fn metadata(&self) -> (r: &Option<String>)
        ensures
            opt_text(*r) == self.metadata_of(),
    ;

    fn updated_at(&self) -> (r: i64)
        ensures
            r == self.updated_at_of(),
    ;
}

/// The parameters of a sign in.
#[derive(Debug)]
pub struct SignInParams {
    pub email: String,
    pub password: String,
    pub name: String,
    pub auth_type: AuthType,
}

impl Default for SignInParams {
    fn default() -> (r: Self)
        ensures
            r.email@ == Seq::<char>::empty(),
            r.password@ == Seq::<char>::empty(),
            r.name@ == Seq::<char>::empty(),
            r.auth_type == AuthType::Local,
    {
        SignInParams {
            email: String::new(),
            password: String::new(),
            name: String::new(),
            auth_type: AuthType::Local,
        }
    }
}

/// The parameters of a sign up.
#[derive(Debug)]
pub struct SignUpParams {
    pub email: String,
    pub name: String,
    pub password: String,
    pub auth_type: AuthType,
    pub device_id: String,
}

impl Default for SignUpParams {
    fn default() -> (r: Self)
        ensures
            r.email@ == Seq::<char>::empty(),
            r.name@ == Seq::<char>::empty(),
            r.password@ == Seq::<char>::empty(),
            r.auth_type == AuthType::Local,
            r.device_id@ == Seq::<char>::empty(),
    {
        SignUpParams {
            email: String::new(),
            name: String::new(),
            password: String::new(),
            auth_type: AuthType::Local,
            device_id: String::new(),
        }
    }
}

/// The server's answer to a sign in or sign up.
#[derive(Debug, Clone)]
pub struct AuthResponse {
    pub user_id: i64,
    pub user_uuid: Uuid,
    pub name: String,
    pub latest_workspace: UserWorkspace,
    pub user_workspaces: Vec<UserWorkspace>,
    pub is_new_user: bool,
    pub email: Option<String>,
    pub token: Option<String>,
    pub encryption_type: EncryptionType,
    pub updated_at: i64,
    /// The user's metadata as JSON text.
    pub metadata: Option<String>,
}

impl UserAuthResponse for AuthResponse {
    open spec fn user_id_of(&self) -> i64 {
        self.user_id
    }

    open spec fn user_uuid_of(&self) -> Uuid {
        self.user_uuid
    }

    open spec fn user_name_of(&self) -> Seq<char> {
        self.name@
    }

    open spec fn latest_workspace_of(&self) -> UserWorkspace {
        self.latest_workspace
    }

    open spec fn user_workspaces_of(&self) -> Seq<UserWorkspace> {
        self.user_workspaces@
    }

    open spec fn user_token_of(&self) -> Option<Seq<char>> {
        opt_text(self.token)
    }

    open spec fn user_email_of(&self) -> Option<Seq<char>> {
        opt_text(self.email)
    }

    open spec fn encryption_type_of(&self) -> EncryptionType {
        self.encryption_type
    }

    open spec fn metadata_of(&self) -> Option<Seq<char>> {
        opt_text(self.metadata)
    }

    open spec fn updated_at_of(&self) -> i64 {
        self.updated_at
    }

    fn user_id(&self) -> (r: i64) {
        self.user_id
    }

    fn user_uuid(&self) -> (r: &Uuid) {
        &self.user_uuid
    }

    fn user_name(&self) -> (r: &str) {
        self.name.as_str()
    }

    fn latest_workspace(&self) -> (r: &UserWorkspace) {
        &self.latest_workspace
    }

    fn user_workspaces(&self) -> (r: &[UserWorkspace]) {
        self.user_workspaces.as_slice()
    }

    fn user_token(&self) -> (r: Option<String>) {
        match &self.token {
            Some(t) => Some(t.clone()),
            None => None,
        }
    }

    fn user_email(&self) -> (r: Option<String>) {
        match &self.email {
            Some(e) => Some(e.clone()),
            None => None,
        }
    }

    fn encryption_type(&self) -> (r: EncryptionType) {
        self.encryption_type.clone()
    }

    fn metadata(&self) -> (r: &Option<String>) {
        &self.metadata
    }

    fn updated_at(&self) -> (r: i64) {
        self.updated_at
    }
}

/// The profile of the signed-in user.
#[derive(Debug, Clone)]
pub struct UserProfile {
    pub uid: i64,
    pub email: String,
    pub name: String,
    pub token: String,
    pub icon_url: String,
    pub auth_type: AuthType,
    pub workspace_type: WorkspaceType,
    pub updated_at: i64,
}

impl Default for UserProfile {
    fn default() -> (r: Self)
        ensures
            r.uid == 0,
            r.email@ == Seq::<char>::empty(),
            r.name@ == Seq::<char>::empty(),
            r.token@ == Seq::<char>::empty(),
            r.icon_url@ == Seq::<char>::empty(),
            r.auth_type == AuthType::Local,
            r.workspace_type == WorkspaceType::Local,
            r.updated_at == 0,
    {
        UserProfile {
            uid: 0,
            email: String::new(),
            name: String::new(),
            token: String::new(),
            icon_url: String::new(),
            auth_type: AuthType::Local,
            workspace_type: WorkspaceType::Local,
            updated_at: 0,
        }
    }
}

/// The icon url that a user's metadata holds: the string under `icon_url`, or empty when
/// there is no metadata, no such entry, or the entry is not a string.
pub open spec fn metadata_icon_url(metadata: Option<Seq<char>>) -> Seq<char> {
    match metadata {
        Some(json) => text_or_empty(json_string_field(json, "icon_url"@)),
        None => Seq::empty(),
    }
}

/// What the profile built from a server's answer and an auth type holds.
pub open spec fn is_profile_of<T: UserAuthResponse>(
    p: UserProfile,
    value: T,
    auth_type: AuthType,
) -> bool {
    &&& p.uid == value.user_id_of()
    &&& p.email@ == text_or_empty(value.user_email_of())
    &&& p.name@ == value.user_name_of()
    &&& p.token@ == text_or_empty(value.user_token_of())
    &&& p.icon_url@ == metadata_icon_url(value.metadata_of())
    &&& p.auth_type == auth_type
    &&& p.workspace_type == workspace_type_of_auth(auth_type)
    &&& p.updated_at == value.updated_at_of()
}

fn string_or_empty(o: Option<String>) -> (r: String)
    ensures
        r@ == text_or_empty(opt_text(o)),
{
    match o {
        Some(s) => s,
        None => String::new(),
    }
}

fn icon_url_of(metadata: &Option<String>) -> (r: String)
    ensures
        r@ == metadata_icon_url(opt_text(*metadata)),
{
    match metadata {
        Some(json) => {
            proof {
                reveal_strlit("icon_url");
            }
            string_or_empty(json_string_lookup(json.as_str(), USER_METADATA_ICON_URL))
        },
        None => String::new(),
    }
}

impl<'a, T: UserAuthResponse> From<(&'a T, &'a AuthType)> for UserProfile {
    fn from(params: (&'a T, &'a AuthType)) -> (r: Self)
        ensures
            is_profile_of(r, *params.0, *params.1),
    {
        let (value, auth_type) = params;
        let icon_url = icon_url_of(value.metadata());
        let workspace_type = WorkspaceType::from(auth_type);
        UserProfile {
            uid: value.user_id(),
            email: string_or_empty(value.user_email()),
            name: value.user_name().to_owned(),
            token: string_or_empty(value.user_token()),
            icon_url,
            auth_type: *auth_type,
            workspace_type,
            updated_at: value.updated_at(),
        }
    }
}

impl<'a, T: UserAuthResponse> vstd::std_specs::convert::FromSpecImpl<(&'a T, &'a AuthType)> for UserProfile {
    /// A profile holds strings, which no spec function can build from text, so `from` is
    /// described by `is_profile_of` in its own `ensures` rather than by a spec function.
    open spec fn obeys_from_spec() -> bool {
        false
    }

    open spec fn from_spec(params: (&'a T, &'a AuthType)) -> UserProfile {
        vstd::pervasive::arbitrary()
    }
}

/// The changes to a user's profile: each field that is set replaces the stored one.
#[derive(Debug, Clone)]
pub struct UpdateUserProfileParams {
    pub uid: i64,
    pub name: Option<String>,
    pub email: Option<String>,
    pub password: Option<String>,
    pub icon_url: Option<String>,
    pub token: Option<String>,
}

impl Default for UpdateUserProfileParams {
    fn default() -> (r: Self)
        ensures
            r == (UpdateUserProfileParams {
                uid: 0,
                name: None,
                email: None,
                password: None,
                icon_url: None,
                token: None,
            }),
    {
        UpdateUserProfileParams {
            uid: 0,
            name: None,
            email: None,
            password: None,
            icon_url: None,
            token: None,
        }
    }
}

impl UpdateUserProfileParams {
    /// Changes to the profile of user `uid` that change nothing yet.
    pub fn new(uid: i64) -> (r: Self)
        ensures
            r == (UpdateUserProfileParams {
                uid,
                name: None,
                email: None,
                password: None,
                icon_url: None,
                token: None,
            }),
    {
        UpdateUserProfileParams {
            uid,
            name: None,
            email: None,
            password: None,
            icon_url: None,
            token: None,
        }
    }

    pub fn with_token(self, token: String) -> (r: Self)
        ensures
            r == (UpdateUserProfileParams { token: Some(token), ..self }),
    {
        UpdateUserProfileParams { token: Some(token), ..self }
    }

    pub fn with_name(self, name: String) -> (r: Self)
        ensures
            r == (UpdateUserProfileParams { name: Some(name), ..self }),
    {
        UpdateUserProfileParams { name: Some(name), ..self }
    }

    pub fn with_email(self, email: String) -> (r: Self)
        ensures
            r == (UpdateUserProfileParams { email: Some(email), ..self }),
    {
        UpdateUserProfileParams { email: Some(email), ..self }
    }

    pub fn with_password(self, password: String) -> (r: Self)
        ensures
            r == (UpdateUserProfileParams { password: Some(password), ..self }),
    {
        UpdateUserProfileParams { password: Some(password), ..self }
    }

    pub fn with_icon_url(self, icon_url: String) -> (r: Self)
        ensures
            r == (UpdateUserProfileParams { icon_url: Some(icon_url), ..self }),
    {
        UpdateUserProfileParams { icon_url: Some(icon_url), ..self }
    }
}

/// The parameters of a sign in through Supabase.
pub struct SupabaseOAuthParams {
    pub uuid: Uuid,
    pub email: String,
}

/// The parameters of a sign in through the AppFlowy cloud.
pub struct AFCloudOAuthParams {
    pub sign_in_url: String,
}

/// A member of a workspace.
pub struct WorkspaceMember {
    pub email: String,
    pub role: Role,
    pub name: String,
    pub avatar_url: Option<String>,
    pub joined_at: Option<i64>,
}

/// An invitation to join a workspace.
pub struct WorkspaceInvitation {
    pub invite_id: Uuid,
    pub workspace_id: Uuid,
    pub workspace_name: Option<String>,
    pub inviter_email: Option<String>,
    pub inviter_name: Option<String>,
    pub status: WorkspaceInvitationStatus,
    pub updated_at: UtcTime,
}

/// The name from which the user awareness object of a workspace is derived.
pub open spec fn user_awareness_name(workspace_id: Seq<char>) -> Seq<char> {
    "user_awareness:"@ + workspace_id
}

/// Represent the user awareness object id for the workspace: the version 5 identifier, in
/// the user's namespace, of the UTF-8 bytes of `user_awareness:` followed by the workspace
/// id.
pub fn user_awareness_object_id(user_uuid: &Uuid, workspace_id: &str) -> (r: Uuid)
    ensures
        r.0 == uuid_v5(user_uuid.0, vstd::utf8::encode_utf8(user_awareness_name(workspace_id@))),
        crate::ids::uuid_version(r.0) == 5,
        crate::ids::uuid_has_rfc_variant(r.0),
{
    let mut name = "user_awareness:".to_owned();
    name.append(workspace_id);
    let bytes = name.as_str().as_bytes();
    name_based_uuid(*user_uuid, bytes)
}

/// The text of an optional string is the text of the string it holds, and the fallback text
/// of an optional text is that text, or empty when there is none.
pub proof fn lemma_optional_text(o: Option<String>, t: Option<Seq<char>>)
    ensures
        o matches Some(s) ==> opt_text(o) == Some(s@),
        o is None ==> opt_text(o) is None,
        t matches Some(x) ==> text_or_empty(t) == x,
        t is None ==> text_or_empty(t).len() == 0,
{
}

/// A server's answer reports its own fields: user id, uuid, name, workspaces, token, email,
/// encryption type, metadata text and update time.
pub proof fn lemma_auth_response_reports_fields(r: AuthResponse)
    ensures
        r.user_id_of() == r.user_id,
        r.user_uuid_of() == r.user_uuid,
        r.user_name_of() == r.name@,
        r.latest_workspace_of() == r.latest_workspace,
        r.user_workspaces_of() == r.user_workspaces@,
        r.token matches Some(t) ==> r.user_token_of() == Some(t@),
        r.token is None ==> r.user_token_of() is None,
        r.email matches Some(e) ==> r.user_email_of() == Some(e@),
        r.email is None ==> r.user_email_of() is None,
        r.encryption_type_of() == r.encryption_type,
        r.metadata matches Some(m) ==> r.metadata_of() == Some(m@),
        r.metadata is None ==> r.metadata_of() is None,
        r.updated_at_of() == r.updated_at,
{
}

/// The icon url read from a user's metadata is the whole string stored under `icon_url`;
/// it is empty only when there is no metadata, or the metadata holds no string under
/// `icon_url`.
pub proof fn lemma_metadata_icon_url(metadata: Option<Seq<char>>)
    ensures
        metadata matches Some(json) ==> match json_string_field(json, "icon_url"@) {
            Some(url) => metadata_icon_url(metadata) == url,
            None => metadata_icon_url(metadata).len() == 0,
        },
        metadata is None ==> metadata_icon_url(metadata).len() == 0,
{
}

/// The profile built from a server's answer and an auth type holds the answer's user id,
/// name and update time; the answer's email and token whenever it has them, and empty ones
/// only when it has none; the whole string stored under `icon_url` in the answer's metadata,
/// and an empty icon url only when there is none; the auth type given; and a workspace type
/// that is local exactly when that auth type is local.
pub proof fn lemma_profile_fields<T: UserAuthResponse>(p: UserProfile, value: T, auth_type: AuthType)
    requires
        is_profile_of(p, value, auth_type),
    ensures
        p.uid == value.user_id_of(),
        p.name@ == value.user_name_of(),
        p.updated_at == value.updated_at_of(),
        p.auth_type == auth_type,
        (p.workspace_type == WorkspaceType::Local) == (auth_type == AuthType::Local),
        (p.workspace_type == WorkspaceType::Server) == (auth_type == AuthType::AppFlowyCloud),
        value.user_token_of() matches Some(token) ==> p.token@ == token,
        value.user_token_of() is None ==> p.token@.len() == 0,
        value.user_email_of() matches Some(email) ==> p.email@ == email,
        value.user_email_of() is None ==> p.email@.len() == 0,
        value.metadata_of() matches Some(json) ==> match json_string_field(json, "icon_url"@) {
            Some(url) => p.icon_url@ == url,
            None => p.icon_url@.len() == 0,
        },
        value.metadata_of() is None ==> p.icon_url@.len() == 0,
{
    lemma_metadata_icon_url(value.metadata_of());
}

/// The name behind a user awareness object is `user_awareness:` followed by the whole
/// workspace id, so distinct workspace ids give distinct names.
pub proof fn lemma_user_awareness_name(a: Seq<char>, b: Seq<char>)
    ensures
        user_awareness_name(a).len() == a.len() + 15,
        user_awareness_name(a).take(15) == "user_awareness:"@,
        user_awareness_name(a).skip(15) == a,
        user_awareness_name(a) == user_awareness_name(b) ==> a == b,
{
    reveal_strlit("user_awareness:");
    assert(user_awareness_name(a).take(15) =~= "user_awareness:"@);
    assert(user_awareness_name(a).skip(15) =~= a);
    assert(user_awareness_name(b).skip(15) =~= b);
}

} // verus!
