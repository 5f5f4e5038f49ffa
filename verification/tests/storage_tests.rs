use flowy_user_pub::{
    AFCloudFileStorageServiceImpl, CompletedPartRequest, ErrorCode, ObjectIdentity,
};

#[test]
fn new_keeps_client_and_limit() {
    let s = AFCloudFileStorageServiceImpl::new("client", Some(10));
    assert_eq!(s.client, "client");
    assert_eq!(s.maximum_upload_file_size_in_bytes, Some(10));
}

#[test]
fn object_file_name_joins_id_and_extension() {
    let s = AFCloudFileStorageServiceImpl::new((), None);
    let id = ObjectIdentity {
        workspace_id: "ws".to_string(),
        file_id: "abc".to_string(),
        ext: "png".to_string(),
    };
    assert_eq!(s.object_file_name(&id), "abc.png");
    let bare = ObjectIdentity { workspace_id: "ws".to_string(), file_id: "f".to_string(), ext: String::new() };
    assert_eq!(s.object_file_name(&bare), "f.");
}

#[test]
fn create_upload_within_limit() {
    let s = AFCloudFileStorageServiceImpl::new((), Some(100));
    let req = s.plan_create_upload(true, "dir", "file", "image/png", 100).unwrap();
    assert_eq!(req.file_id, "file");
    assert_eq!(req.parent_dir, "dir");
    assert_eq!(req.content_type, "image/png");
    assert_eq!(req.file_size, Some(100));
}

#[test]
fn create_upload_over_limit_is_refused() {
    let s = AFCloudFileStorageServiceImpl::new((), Some(100));
    let err = s.plan_create_upload(true, "dir", "file", "image/png", 101).unwrap_err();
    assert_eq!(err.code, ErrorCode::SingleUploadLimitExceeded);
    assert_eq!(err.msg, "File size exceeds the maximum limit");
}

#[test]
fn create_upload_limit_only_when_enforced_and_set() {
    let s = AFCloudFileStorageServiceImpl::new((), Some(100));
    assert!(s.plan_create_upload(false, "d", "f", "t", u64::MAX).is_ok());
    let unlimited = AFCloudFileStorageServiceImpl::new((), None);
    assert!(unlimited.plan_create_upload(true, "d", "f", "t", u64::MAX).is_ok());
    let zero = AFCloudFileStorageServiceImpl::new((), Some(0));
    assert!(zero.plan_create_upload(true, "d", "f", "t", 0).is_ok());
    assert!(zero.plan_create_upload(true, "d", "f", "t", 1).is_err());
}

#[test]
fn complete_upload_request_carries_the_parts() {
    let s = AFCloudFileStorageServiceImpl::new((), None);
    let parts = vec![
        CompletedPartRequest { e_tag: "e1".to_string(), part_number: 1 },
        CompletedPartRequest { e_tag: "e2".to_string(), part_number: 2 },
    ];
    let req = s.plan_complete_upload("dir", "up", "file", parts);
    assert_eq!(req.parent_dir, "dir");
    assert_eq!(req.upload_id, "up");
    assert_eq!(req.file_id, "file");
    assert_eq!(req.parts.len(), 2);
    assert_eq!(req.parts[1].e_tag, "e2");
    assert_eq!(req.parts[1].part_number, 2);
}
