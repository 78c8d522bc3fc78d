//! Tagging: the six tag mutations, declared and not yet given behaviour.

use crate::client::ClientError;
use crate::client::GetPocket;
use vstd::prelude::*;

verus! {

/// Why a tag mutation could not be put together.
#[derive(Debug, Clone, Copy, PartialEq, Eq)]
pub enum TagsError {
    InvalidParams(&'static str),
}

/// The answer to a tag mutation: one flag per action.
#[derive(Debug, PartialEq, Eq)]
pub struct RecordModified {
    pub action_results: Vec<bool>,
    pub status: i32,
}

/// Adds tags to an item.
#[derive(Debug)]
pub struct RequestAddTags {
    /// The item that the action is performed on.
    pub item_id: i32,
    /// One or more tags, separated by commas.
    pub tags: String,
    /// When the action occurred.
    pub time: Option<i32>,
}

/// Removes tags from an item.
#[derive(Debug)]
pub struct RequestRemoveTags {
    /// The item that the action is performed on.
    pub item_id: i32,
    /// One or more tags, separated by commas.
    pub tags: String,
    /// When the action occurred.
    pub time: Option<i32>,
}

/// Replaces all tags of an item.
#[derive(Debug)]
pub struct RequestReplaceTags {
    /// The item that the action is performed on.
    pub item_id: i32,
    /// One or more tags, separated by commas.
    pub tags: String,
    /// When the action occurred.
    pub time: Option<i32>,
}

/// Removes all tags from an item.
#[derive(Debug)]
pub struct RequestClearTags {
    /// The item that the action is performed on.
    pub item_id: i32,
    /// When the action occurred.
    pub time: Option<i32>,
}

/// Renames a tag on every item that has it.
#[derive(Debug)]
pub struct RequestRenameTags {
    /// The name that is replaced.
    pub old_tag: String,
    /// The name that takes its place.
    pub new_tag: String,
    /// When the action occurred.
    pub time: Option<i32>,
}

/// Deletes a tag from every item that has it.
#[derive(Debug)]
pub struct RequestDeleteTags {
    /// The name that is deleted.
    pub tag: String,
    /// When the action occurred.
    pub time: Option<i32>,
}

impl GetPocket {
    /// Adds one or more tags to an item. Not implemented: the call fails at once, whatever it is given.
    pub fn tags_add(&self, _params: &RequestAddTags) -> (r: Result<RecordModified, ClientError>)
        ensures
            r == Err::<RecordModified, ClientError>(ClientError::NotImplemented),
    {
        Err(ClientError::NotImplemented)
    }

    /// Removes one or more tags from an item. Not implemented: the call fails at once, whatever it is given.
    pub fn tags_remove(&self, _params: &RequestRemoveTags) -> (r: Result<RecordModified, ClientError>)
        ensures
            r == Err::<RecordModified, ClientError>(ClientError::NotImplemented),
    {
        Err(ClientError::NotImplemented)
    }

    /// Replaces all tags of an item. Not implemented: the call fails at once, whatever it is given.
    pub fn tags_replace(&self, _params: &RequestReplaceTags) -> (r: Result<RecordModified, ClientError>)
        ensures
            r == Err::<RecordModified, ClientError>(ClientError::NotImplemented),
    {
        Err(ClientError::NotImplemented)
    }

    /// Removes all tags from an item. Not implemented: the call fails at once, whatever it is given.
    pub fn tags_clear(&self, _params: &RequestClearTags) -> (r: Result<RecordModified, ClientError>)
        ensures
            r == Err::<RecordModified, ClientError>(ClientError::NotImplemented),
    {
        Err(ClientError::NotImplemented)
    }

    /// Renames a tag on every item that has it. Not implemented: the call fails at once, whatever it is given.
    pub fn tag_rename(&self, _params: &RequestRenameTags) -> (r: Result<RecordModified, ClientError>)
        ensures
            r == Err::<RecordModified, ClientError>(ClientError::NotImplemented),
    {
        Err(ClientError::NotImplemented)
    }

    /// Deletes a tag from every item that has it. Not implemented: the call fails at once, whatever it is given.
    pub fn tag_delete(&self, _params: &RequestDeleteTags) -> (r: Result<RecordModified, ClientError>)
        ensures
            r == Err::<RecordModified, ClientError>(ClientError::NotImplemented),
    {
        Err(ClientError::NotImplemented)
    }
}

} // verus!
