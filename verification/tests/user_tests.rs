use flowy_user_pub::{
    default_workspace_type, user_awareness_object_id, AuthResponse, AuthType, EncryptionType,
    ErrorCode, Role, SignInParams, SignUpParams, UpdateUserProfileParams, UserAuthResponse,
    UserProfile, UserWorkspace, UtcTime, Uuid, WorkspaceType, USER_METADATA_ICON_URL,
    USER_METADATA_UPDATE_AT,
};

fn workspace(id: &str) -> UserWorkspace {
    UserWorkspace::new_local_at(
        id.to_string(),
        "my workspace",
        UtcTime { secs: 1_700_000_000, nanos: 5 },
        Uuid(0x936da01f9abd4d9d80c702af85c822a8),
    )
}

fn response(metadata: Option<&str>) -> AuthResponse {
    AuthResponse {
        user_id: 42,
        user_uuid: Uuid(1),
        name: "alice".to_string(),
        latest_workspace: workspace("w1"),
        user_workspaces: vec![workspace("w1"), workspace("w2")],
        is_new_user: true,
        email: Some("alice@example.com".to_string()),
        token: None,
        encryption_type: EncryptionType::SelfEncryption("sig".to_string()),
        updated_at: 99,
        metadata: metadata.map(|m| m.to_string()),
    }
}

#[test]
fn uuid_text_is_hyphenated_lowercase() {
    assert_eq!(
        Uuid(0x936da01f9abd4d9d80c702af85c822a8).to_string(),
        "936da01f-9abd-4d9d-80c7-02af85c822a8"
    );
    assert_eq!(Uuid(0).to_string(), "00000000-0000-0000-0000-000000000000");
    assert_eq!(Uuid(u128::MAX).to_string(), "ffffffff-ffff-ffff-ffff-ffffffffffff");
}

#[test]
fn uuid_parse_accepts_and_rejects() {
    let u = Uuid::parse_str("936da01f-9abd-4d9d-80c7-02af85c822a8").unwrap();
    assert_eq!(u, Uuid(0x936da01f9abd4d9d80c702af85c822a8));
    let simple = Uuid::parse_str("936DA01F9ABD4D9D80C702AF85C822A8").unwrap();
    assert_eq!(simple, u);
    let err = Uuid::parse_str("not a uuid").unwrap_err();
    assert_eq!(err.code, ErrorCode::Internal);
    assert!(!err.msg.is_empty());
    let x = Uuid(0x0123456789abcdef0123456789abcdef);
    assert_eq!(Uuid::parse_str(&x.to_string()).unwrap(), x);
}

#[test]
fn workspace_id_parses_the_id() {
    let w = workspace("936da01f-9abd-4d9d-80c7-02af85c822a8");
    assert_eq!(w.workspace_id().unwrap(), Uuid(0x936da01f9abd4d9d80c702af85c822a8));
    let bad = workspace("w1");
    assert_eq!(bad.workspace_id().unwrap_err().code, ErrorCode::Internal);
}

#[test]
fn new_local_at_sets_every_field() {
    let w = workspace("w1");
    assert_eq!(w.id, "w1");
    assert_eq!(w.name, "my workspace");
    assert_eq!(w.created_at, UtcTime { secs: 1_700_000_000, nanos: 5 });
    assert_eq!(w.workspace_database_id, "936da01f-9abd-4d9d-80c7-02af85c822a8");
    assert_eq!(w.icon, "");
    assert_eq!(w.member_count, 1);
    assert_eq!(w.role, Some(Role::Owner));
    assert_eq!(w.workspace_type, WorkspaceType::Local);
}

#[test]
fn new_local_uses_a_random_v4_database_id() {
    let a = UserWorkspace::new_local("w1".to_string(), "n");
    let b = UserWorkspace::new_local("w1".to_string(), "n");
    assert_eq!(a.id, "w1");
    assert_eq!(a.name, "n");
    assert_eq!(a.member_count, 1);
    assert_eq!(a.role, Some(Role::Owner));
    assert_eq!(a.workspace_type, WorkspaceType::Local);
    assert_eq!(a.icon, "");
    let id = uuid::Uuid::parse_str(&a.workspace_database_id).unwrap();
    assert_eq!(id.get_version_num(), 4);
    assert_eq!(a.workspace_database_id.len(), 36);
    assert_eq!(a.workspace_database_id.chars().nth(14), Some('4'));
    assert_ne!(a.workspace_database_id, b.workspace_database_id);
    assert!(a.created_at.secs > 1_600_000_000);
    assert!(a.created_at.nanos < 1_000_000_000);
}

#[test]
fn default_workspace_type_is_server() {
    assert_eq!(default_workspace_type(), WorkspaceType::Server);
}

#[test]
fn auth_response_accessors() {
    let r = response(None);
    assert_eq!(r.user_id(), 42);
    assert_eq!(*r.user_uuid(), Uuid(1));
    assert_eq!(r.user_name(), "alice");
    assert_eq!(r.latest_workspace().id, "w1");
    assert_eq!(r.user_workspaces().len(), 2);
    assert_eq!(r.user_workspaces()[1].id, "w2");
    assert_eq!(r.user_token(), None);
    assert_eq!(r.user_email(), Some("alice@example.com".to_string()));
    assert_eq!(r.encryption_type(), EncryptionType::SelfEncryption("sig".to_string()));
    assert_eq!(r.metadata(), &None);
    assert_eq!(r.updated_at(), 99);
}

#[test]
fn profile_from_response() {
    let r = response(Some(r#"{"icon_url": "https://x/icon.png", "updated_at": 5}"#));
    let p = UserProfile::from((&r, &AuthType::AppFlowyCloud));
    assert_eq!(p.uid, 42);
    assert_eq!(p.email, "alice@example.com");
    assert_eq!(p.name, "alice");
    assert_eq!(p.token, "");
    assert_eq!(p.icon_url, "https://x/icon.png");
    assert_eq!(p.auth_type, AuthType::AppFlowyCloud);
    assert_eq!(p.workspace_type, WorkspaceType::Server);
    assert_eq!(p.updated_at, 99);
}

#[test]
fn profile_icon_url_falls_back_to_empty() {
    for metadata in [
        None,
        Some(r#"{"updated_at": 5}"#),
        Some(r#"{"icon_url": 7}"#),
        Some(r#"["icon_url"]"#),
        Some("not json"),
    ] {
        let r = response(metadata);
        let p = UserProfile::from((&r, &AuthType::Local));
        assert_eq!(p.icon_url, "");
        assert_eq!(p.workspace_type, WorkspaceType::Local);
    }
}

#[test]
fn metadata_keys() {
    assert_eq!(USER_METADATA_ICON_URL, "icon_url");
    assert_eq!(USER_METADATA_UPDATE_AT, "updated_at");
}

#[test]
fn profile_and_params_defaults() {
    let p = UserProfile::default();
    assert_eq!(p.uid, 0);
    assert_eq!(p.email, "");
    assert_eq!(p.auth_type, AuthType::Local);
    assert_eq!(p.workspace_type, WorkspaceType::Local);
    let s = SignInParams::default();
    assert_eq!(s.email, "");
    assert_eq!(s.auth_type, AuthType::Local);
    let u = SignUpParams::default();
    assert_eq!(u.device_id, "");
    assert_eq!(u.auth_type, AuthType::Local);
}

#[test]
fn update_params_builders_set_one_field_each() {
    let p = UpdateUserProfileParams::new(7);
    assert_eq!(p.uid, 7);
    assert!(p.name.is_none() && p.email.is_none() && p.password.is_none());
    assert!(p.icon_url.is_none() && p.token.is_none());
    let p = p
        .with_name("bob".to_string())
        .with_email("bob@x".to_string())
        .with_token("t".to_string())
        .with_password("pw".to_string())
        .with_icon_url("i".to_string());
    assert_eq!(p.uid, 7);
    assert_eq!(p.name.as_deref(), Some("bob"));
    assert_eq!(p.email.as_deref(), Some("bob@x"));
    assert_eq!(p.token.as_deref(), Some("t"));
    assert_eq!(p.password.as_deref(), Some("pw"));
    assert_eq!(p.icon_url.as_deref(), Some("i"));
    let q = UpdateUserProfileParams::new(1).with_name("a".to_string()).with_name("b".to_string());
    assert_eq!(q.name.as_deref(), Some("b"));
    assert!(q.email.is_none());
    let d = UpdateUserProfileParams::default();
    assert_eq!(d.uid, 0);
    assert!(d.name.is_none());
}

#[test]
fn user_awareness_object_id_is_v5_of_the_prefixed_name() {
    let user = Uuid(0x936da01f9abd4d9d80c702af85c822a8);
    let id = user_awareness_object_id(&user, "workspace-1");
    let expected = uuid::Uuid::new_v5(
        &uuid::Uuid::from_u128(user.0),
        "user_awareness:workspace-1".as_bytes(),
    );
    assert_eq!(id, Uuid(expected.as_u128()));
    assert_eq!((id.0 >> 76) & 0xf, 5);
    assert_eq!((id.0 >> 62) & 0x3, 2);
    assert_ne!(id, user_awareness_object_id(&user, "workspace-2"));
    assert_ne!(id, user_awareness_object_id(&Uuid(1), "workspace-1"));
}
