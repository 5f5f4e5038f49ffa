use flowy_user_pub::{AuthType, EncryptionType, Role, WorkspaceType};

#[test]
fn workspace_type_from_code() {
    assert_eq!(WorkspaceType::from(0), WorkspaceType::Local);
    assert_eq!(WorkspaceType::from(1), WorkspaceType::Server);
    assert_eq!(WorkspaceType::from(7), WorkspaceType::Server);
    assert_eq!(WorkspaceType::from(-1), WorkspaceType::Server);
}

#[test]
fn auth_type_from_code() {
    assert_eq!(AuthType::from(0), AuthType::Local);
    assert_eq!(AuthType::from(1), AuthType::AppFlowyCloud);
    assert_eq!(AuthType::from(2), AuthType::Local);
    assert_eq!(AuthType::from(-5), AuthType::Local);
}

#[test]
fn role_codes_round_trip() {
    assert_eq!(Role::from(0), Role::Owner);
    assert_eq!(Role::from(1), Role::Member);
    assert_eq!(Role::from(2), Role::Guest);
    assert_eq!(Role::from(3), Role::Guest);
    assert_eq!(Role::from(-1), Role::Guest);
    for role in [Role::Owner, Role::Member, Role::Guest] {
        assert_eq!(Role::from(i32::from(role)), role);
    }
    assert_eq!(i32::from(Role::Owner), 0);
    assert_eq!(i32::from(Role::Member), 1);
    assert_eq!(i32::from(Role::Guest), 2);
}

#[test]
fn auth_and_workspace_types_round_trip() {
    for auth in [AuthType::Local, AuthType::AppFlowyCloud] {
        let ty = WorkspaceType::from(&auth);
        assert_eq!(AuthType::from(ty), auth);
        assert_eq!(ty.is_local(), auth.is_local());
    }
    assert_eq!(WorkspaceType::from(&AuthType::Local), WorkspaceType::Local);
    assert_eq!(WorkspaceType::from(&AuthType::AppFlowyCloud), WorkspaceType::Server);
    assert_eq!(AuthType::from(WorkspaceType::Local), AuthType::Local);
    assert_eq!(AuthType::from(WorkspaceType::Server), AuthType::AppFlowyCloud);
}

#[test]
fn defaults_are_local() {
    assert_eq!(WorkspaceType::default(), WorkspaceType::Local);
    assert_eq!(AuthType::default(), AuthType::Local);
    assert_eq!(WorkspaceType::from(&AuthType::default()), WorkspaceType::default());
}

#[test]
fn locality_predicates() {
    assert!(WorkspaceType::Local.is_local());
    assert!(!WorkspaceType::Server.is_local());
    assert!(AuthType::Local.is_local());
    assert!(!AuthType::Local.is_appflowy_cloud());
    assert!(AuthType::AppFlowyCloud.is_appflowy_cloud());
    assert!(!AuthType::AppFlowyCloud.is_local());
}

#[test]
fn auth_type_display_names() {
    assert_eq!(AuthType::Local.to_string(), "Local");
    assert_eq!(AuthType::AppFlowyCloud.to_string(), "AppFlowyCloud");
}

#[test]
fn encryption_from_sign() {
    assert_eq!(EncryptionType::from_sign(""), EncryptionType::NoEncryption);
    assert_eq!(
        EncryptionType::from_sign("abc"),
        EncryptionType::SelfEncryption("abc".to_string())
    );
    assert_eq!(EncryptionType::from_sign("abc").sign(), "abc");
    assert_eq!(EncryptionType::NoEncryption.sign(), "");
}

#[test]
fn encryption_requires_secret() {
    assert!(!EncryptionType::NoEncryption.require_encrypt_secret());
    assert!(!EncryptionType::SelfEncryption(String::new()).require_encrypt_secret());
    assert!(EncryptionType::SelfEncryption("s".to_string()).require_encrypt_secret());
    assert!(EncryptionType::from_sign("x").require_encrypt_secret());
}

#[test]
fn encryption_sign_round_trip() {
    let e = EncryptionType::SelfEncryption("key".to_string());
    assert_eq!(EncryptionType::from_sign(&e.sign()), e);
    assert_eq!(
        EncryptionType::from_sign(&EncryptionType::NoEncryption.sign()),
        EncryptionType::NoEncryption
    );
    // An empty self-encryption sign comes back as no encryption.
    let empty = EncryptionType::SelfEncryption(String::new());
    assert_eq!(EncryptionType::from_sign(&empty.sign()), EncryptionType::NoEncryption);
}

#[test]
fn encryption_equality_and_default() {
    assert_eq!(EncryptionType::default(), EncryptionType::NoEncryption);
    assert_ne!(
        EncryptionType::SelfEncryption("a".to_string()),
        EncryptionType::SelfEncryption("b".to_string())
    );
    assert_ne!(EncryptionType::SelfEncryption(String::new()), EncryptionType::NoEncryption);
    let e = EncryptionType::SelfEncryption("k".to_string());
    assert_eq!(e.clone(), e);
}
