//! Reading Google Drive's JSON answers: the id and name of a created folder, the name of
//! a renamed one, and the id of an uploaded file.
use vstd::prelude::*;

verus! {

/// What `serde_json` reads from `text` for the top-level `key`: `None` when the text is
/// not JSON; otherwise the key's value when it is a string, else `Some(None)`.
pub uninterp spec fn json_top_field(text: Seq<char>, key: Seq<char>) -> Option<Option<Seq<char>>>;

/// Reads a top-level string field of a JSON text.
///
/// Trusted: `serde_json::from_str` into `serde_json::Value`, then `Value::get` and
/// `Value::as_str`. The contract names the result `json_top_field(text, key)`; JSON syntax
/// is not stated.
#[verifier::external_body]
fn json_top_string(text: &str, key: &str) -> (res: Option<Option<String>>)
    ensures
        match res {
            None => json_top_field(text@, key@) is None,
            Some(None) => json_top_field(text@, key@) == Some(None::<Seq<char>>),
            Some(Some(s)) => json_top_field(text@, key@) == Some(Some(s@)),
        },
{
    match serde_json::from_str::<serde_json::Value>(text) {
        Err(_) => None,
        Ok(v) => Some(v.get(key).and_then(|f| f.as_str()).map(|s| s.to_string())),
    }
}

/// Why a Drive answer could not be read.
#[derive(Debug, Clone, Copy, PartialEq, Eq, Structural)]
pub enum DriveReplyError {
    /// The answer to creating a folder is not JSON.
    CreateUnreadable,
    /// The created folder's id is missing.
    MissingFolderId,
    /// The created folder's name is missing.
    MissingFolderName,
    /// The answer to renaming a folder is not JSON.
    RenameUnreadable,
    /// The renamed folder's name is missing.
    RenameMissingName,
    /// The uploaded file's id is missing (or the answer is not JSON).
    MissingFileId,
}

impl DriveReplyError {
    /// The error's text.
    pub open spec fn message_spec(self) -> Seq<char> {
        match self {
            DriveReplyError::CreateUnreadable => "parse create folder response"@,
            DriveReplyError::MissingFolderId => "missing folder id"@,
            DriveReplyError::MissingFolderName => "missing folder name"@,
            DriveReplyError::RenameUnreadable => "parse rename response"@,
            DriveReplyError::RenameMissingName => "rename response missing name"@,
            DriveReplyError::MissingFileId => "upload response missing file id"@,
        }
    }

    /// The error's text.
    pub fn message(&self) -> (res: &'static str)
        ensures
            res@ == self.message_spec(),
    {
        match self {
            DriveReplyError::CreateUnreadable => "parse create folder response",
            DriveReplyError::MissingFolderId => "missing folder id",
            DriveReplyError::MissingFolderName => "missing folder name",
            DriveReplyError::RenameUnreadable => "parse rename response",
            DriveReplyError::RenameMissingName => "rename response missing name",
            DriveReplyError::MissingFileId => "upload response missing file id",
        }
    }
}

/// The id and name of a folder Drive created, from its answer `text`: the text must be
/// JSON, with the id read before the name.
pub fn created_folder(text: &str) -> (res: Result<(String, String), DriveReplyError>)
    ensures
        match json_top_field(text@, "id"@) {
            None => res == Err::<(String, String), DriveReplyError>(DriveReplyError::CreateUnreadable),
            Some(None) => res == Err::<(String, String), DriveReplyError>(DriveReplyError::MissingFolderId),
            Some(Some(id)) => match json_top_field(text@, "name"@) {
                Some(Some(name)) => res matches Ok((i, n)) && i@ == id && n@ == name,
                _ => res == Err::<(String, String), DriveReplyError>(DriveReplyError::MissingFolderName),
            },
        },
{
    match json_top_string(text, "id") {
        None => Err(DriveReplyError::CreateUnreadable),
        Some(None) => Err(DriveReplyError::MissingFolderId),
        Some(Some(id)) => match json_top_string(text, "name") {
            Some(Some(name)) => Ok((id, name)),
            _ => Err(DriveReplyError::MissingFolderName),
        },
    }
}

/// The name Drive gives a renamed folder, from its answer `text`.
pub fn renamed_folder(text: &str) -> (res: Result<String, DriveReplyError>)
    ensures
        match json_top_field(text@, "name"@) {
            None => res == Err::<String, DriveReplyError>(DriveReplyError::RenameUnreadable),
            Some(None) => res == Err::<String, DriveReplyError>(DriveReplyError::RenameMissingName),
            Some(Some(name)) => res matches Ok(n) && n@ == name,
        },
{
    match json_top_string(text, "name") {
        None => Err(DriveReplyError::RenameUnreadable),
        Some(None) => Err(DriveReplyError::RenameMissingName),
        Some(Some(name)) => Ok(name),
    }
}

/// The id of the file an upload completed, from the final answer `text`; text that is
/// not JSON counts as an answer without an id.
pub fn uploaded_file_id(text: &str) -> (res: Result<String, DriveReplyError>)
    ensures
        match json_top_field(text@, "id"@) {
            Some(Some(id)) => res matches Ok(i) && i@ == id,
            _ => res == Err::<String, DriveReplyError>(DriveReplyError::MissingFileId),
        },
{
    match json_top_string(text, "id") {
        Some(Some(id)) => Ok(id),
        _ => Err(DriveReplyError::MissingFileId),
    }
}

} // verus!
