use vstd::prelude::*;
use vstd::string::StringExecFns;

use crate::{ErrorCode, FlowyError};

verus! {

/// The file-storage service of the cloud: a client for the server, and, for debugging, an
/// upper bound on the size of a single upload.
pub struct AFCloudFileStorageServiceImpl<T> {
    pub client: T,
    /// Only use in debug mode
    pub maximum_upload_file_size_in_bytes: Option<u64>,
}

/// Where an object is stored: its workspace, its file id and its extension.
#[derive(Debug, Clone)]
pub struct ObjectIdentity {
    pub workspace_id: String,
    pub file_id: String,
    pub ext: String,
}

/// A request to start a multipart upload.
#[derive(Debug, Clone)]
pub struct CreateUploadRequest {
    pub file_id: String,
    pub parent_dir: String,
    pub content_type: String,
    pub file_size: Option<u64>,
}

/// A part of a multipart upload that the server has accepted.
#[derive(Debug, Clone)]
pub struct CompletedPartRequest {
    pub e_tag: String,
    pub part_number: i32,
}

/// A request to finish a multipart upload from its accepted parts.
#[derive(Debug, Clone)]
pub struct CompleteUploadRequest {
    pub file_id: String,
    pub parent_dir: String,
    pub upload_id: String,
    pub parts: Vec<CompletedPartRequest>,
}

/// The name of the blob that holds an object: its file id, a dot, and its extension.
pub open spec fn blob_file_name(object_id: ObjectIdentity) -> Seq<char> {
    object_id.file_id@ + "."@ + object_id.ext@
}

/// Whether an upload of `file_size` bytes is refused: only when the limit is enforced, a
/// limit is set, and the size exceeds it.
pub open spec fn exceeds_upload_limit(enforce_limit: bool, maximum: Option<u64>, file_size: u64) -> bool {
    enforce_limit && maximum is Some && file_size > maximum->0
}

/// The message of the error for an upload over the limit.
pub open spec fn upload_limit_message() -> Seq<char> {
    "File size exceeds the maximum limit"@
}

impl<T> AFCloudFileStorageServiceImpl<T> {
    pub fn new(client: T, maximum_upload_file_size_in_bytes: Option<u64>) -> (r: Self)
        ensures
            r.client == client,
            r.maximum_upload_file_size_in_bytes == maximum_upload_file_size_in_bytes,
    {
        Self { client, maximum_upload_file_size_in_bytes }
    }

    /// The name of the blob under which an object is stored.
    pub fn object_file_name(&self, object_id: &ObjectIdentity) -> (r: String)
        ensures
            r@ == blob_file_name(*object_id),
    {
        let mut file_name = object_id.file_id.clone();
        file_name.append(".");
        file_name.append(object_id.ext.as_str());
        file_name
    }

    /// The request that starts the upload of a file, or the error for a file over the
    /// limit when `enforce_limit` (set in debug builds) holds.
    pub fn plan_create_upload(
        &self,
        enforce_limit: bool,
        parent_dir: &str,
        file_id: &str,
        content_type: &str,
        file_size: u64,
    ) -> (r: Result<CreateUploadRequest, FlowyError>)
        ensures
            r is Err <==> exceeds_upload_limit(
                enforce_limit,
                self.maximum_upload_file_size_in_bytes,
                file_size,
            ),
            r matches Err(e) ==> e.code == ErrorCode::SingleUploadLimitExceeded
                && e.msg@ == upload_limit_message(),
            r matches Ok(req) ==> {
                &&& req.file_id@ == file_id@
                &&& req.parent_dir@ == parent_dir@
                &&& req.content_type@ == content_type@
                &&& req.file_size == Some(file_size)
            },
    {
        let parent_dir = parent_dir.to_owned();
        let content_type = content_type.to_owned();
        let file_id = file_id.to_owned();
        let req = CreateUploadRequest { file_id, parent_dir, content_type, file_size: Some(file_size) };
        if enforce_limit {
            if let Some(maximum_upload_size) = self.maximum_upload_file_size_in_bytes {
                if file_size > maximum_upload_size {
                    return Err(
                        FlowyError::new(
                            ErrorCode::SingleUploadLimitExceeded,
                            "File size exceeds the maximum limit",
                        ),
                    );
                }
            }
        }
        Ok(req)
    }

    /// The request that finishes an upload from its accepted parts.
    pub fn plan_complete_upload(
        &self,
        parent_dir: &str,
        upload_id: &str,
        file_id: &str,
        parts: Vec<CompletedPartRequest>,
    ) -> (r: CompleteUploadRequest)
        ensures
            r.file_id@ == file_id@,
            r.parent_dir@ == parent_dir@,
            r.upload_id@ == upload_id@,
            r.parts == parts,
    {
        let parent_dir = parent_dir.to_owned();
        let upload_id = upload_id.to_owned();
        let file_id = file_id.to_owned();
        CompleteUploadRequest { file_id, parent_dir, upload_id, parts }
    }
}

/// An enforced limit accepts exactly the sizes up to it, so the sizes it accepts are closed
/// downwards; with no limit set, or with the limit not enforced, every size is accepted.
pub proof fn lemma_upload_limit(enforce_limit: bool, maximum: Option<u64>, small: u64, large: u64)
    ensures
        small <= large && !exceeds_upload_limit(enforce_limit, maximum, large)
            ==> !exceeds_upload_limit(enforce_limit, maximum, small),
        maximum is None ==> !exceeds_upload_limit(enforce_limit, maximum, large),
        !enforce_limit ==> !exceeds_upload_limit(enforce_limit, maximum, large),
        maximum matches Some(m) ==> (exceeds_upload_limit(true, maximum, large) <==> large > m),
{
}

/// The error for an upload over the limit says that the file size exceeds the maximum limit.
pub proof fn lemma_upload_limit_message()
    ensures
        upload_limit_message() == "File size exceeds the maximum limit"@,
{
}

/// The blob name of an object is its whole file id, then a dot, then its whole extension.
pub proof fn lemma_blob_file_name(object_id: ObjectIdentity)
    ensures
        blob_file_name(object_id).len() == object_id.file_id@.len() + 1 + object_id.ext@.len(),
        blob_file_name(object_id).take(object_id.file_id@.len() as int) == object_id.file_id@,
        blob_file_name(object_id)[object_id.file_id@.len() as int] == '.',
        blob_file_name(object_id).skip(object_id.file_id@.len() as int + 1) == object_id.ext@,
{
    reveal_strlit(".");
    let n = blob_file_name(object_id);
    let k = object_id.file_id@.len() as int;
    assert(n.take(k) =~= object_id.file_id@);
    assert(n.skip(k + 1) =~= object_id.ext@);
}

} // verus!
