use vstd::prelude::*;

use crate::ids::{hex_digit, lemma_uuid_text_shape, random_uuid, uuid_has_rfc_variant, uuid_parse, uuid_text, uuid_version, Uuid};
use crate::kinds::{Role, WorkspaceType};
use crate::time::{utc_now, UtcTime};
use crate::FlowyError;

verus! {

/// A workspace that a user belongs to.
#[derive(Debug, Clone)]
pub struct UserWorkspace {
    pub id: String,
    pub name: String,
    pub created_at: UtcTime,
    /// The database storage id is used indexing all the database views in current workspace.
    pub workspace_database_id: String,
    pub icon: String,
    pub member_count: i64,
    pub role: Option<Role>,
    pub workspace_type: WorkspaceType,
}

/// The workspace type of a stored workspace that does not name one: the server.
pub fn default_workspace_type() -> (r: WorkspaceType)
    ensures
        r == WorkspaceType::Server,
{
    WorkspaceType::Server
}

/// What a freshly created local workspace holds, given its creation time and the
/// identifier of its database storage.
pub open spec fn is_new_local_workspace(
    w: UserWorkspace,
    workspace_id: Seq<char>,
    name: Seq<char>,
) -> bool {
    &&& w.id@ == workspace_id
    &&& w.name@ == name
    &&& w.icon@ == Seq::<char>::empty()
    &&& w.member_count == 1
    &&& w.role == Some(Role::Owner)
    &&& w.workspace_type == WorkspaceType::Local
}

impl UserWorkspace {
    /// The identifier of the workspace, parsed from its text.
    pub fn workspace_id(&self) -> (r: Result<Uuid, FlowyError>)
        ensures
            r is Ok <==> uuid_parse(self.id@) is Some,
            r matches Ok(u) ==> Some(u.0) == uuid_parse(self.id@),
            r matches Err(e) ==> e.code == crate::ErrorCode::Internal,
            r is Ok || forall|v: u128| #[trigger] uuid_text(v) != self.id@,
            r matches Ok(u) ==> forall|v: u128| #[trigger] uuid_text(v) == self.id@ ==> u.0 == v,
    {
        Uuid::parse_str(self.id.as_str())
    }

    /// A new local workspace created at `created_at`, whose database storage is identified
    /// by `database_id`.
    pub fn new_local_at(
        workspace_id: String,
        name: &str,
        created_at: UtcTime,
        database_id: Uuid,
    ) -> (r: Self)
        ensures
            is_new_local_workspace(r, workspace_id@, name@),
            r.created_at == created_at,
            r.workspace_database_id@ == uuid_text(database_id.0),
    {
        let icon = String::new();
        UserWorkspace {
            id: workspace_id,
            name: name.to_owned(),
            created_at,
            workspace_database_id: database_id.to_string(),
            icon,
            member_count: 1,
            role: Some(Role::Owner),
            workspace_type: WorkspaceType::Local,
        }
    }

    /// A new local workspace created now, whose database storage gets a new random
    /// identifier.
    pub fn new_local(workspace_id: String, name: &str) -> (r: Self)
        ensures
            is_new_local_workspace(r, workspace_id@, name@),
            r.created_at.nanos < 1_000_000_000,
            r.workspace_database_id@.len() == 36,
            r.workspace_database_id@[14] == '4',
            exists|v: u128|
                uuid_version(v) == 4 && uuid_has_rfc_variant(v) && #[trigger] uuid_text(v)
                    == r.workspace_database_id@,
    {
        let created_at = utc_now();
        let database_id = random_uuid();
        let r = Self::new_local_at(workspace_id, name, created_at, database_id);
        assert(uuid_text(database_id.0) == r.workspace_database_id@);
        proof {
            lemma_uuid_text_shape(database_id.0);
            assert(hex_digit(4) == '4');
        }
        r
    }
}

/// A freshly created local workspace has the id and name it was created with, an empty
/// icon, one member, the owner role, and the local workspace type.
pub proof fn lemma_new_local_workspace(w: UserWorkspace, workspace_id: Seq<char>, name: Seq<char>)
    requires
        is_new_local_workspace(w, workspace_id, name),
    ensures
        w.id@ == workspace_id,
        w.name@ == name,
        w.icon@.len() == 0,
        w.member_count == 1,
        w.role == Some(Role::Owner),
        w.workspace_type == WorkspaceType::Local,
{
}

} // verus!
