//! Bulk mutations: many actions in one call, declared and not yet given
//! behaviour.

use crate::client::ClientError;
use crate::client::GetPocket;
use crate::ext::modifying::RequestArchive;
use crate::ext::modifying::RequestDelete;
use crate::ext::modifying::RequestFavorite;
use crate::ext::modifying::RequestReadd;
use crate::ext::modifying::RequestUnfavorite;
use crate::ext::tags::RequestAddTags;
use crate::ext::tags::RequestClearTags;
use crate::ext::tags::RequestDeleteTags;
use crate::ext::tags::RequestRemoveTags;
use crate::ext::tags::RequestRenameTags;
use crate::ext::tags::RequestReplaceTags;
use vstd::prelude::*;

verus! {

/// The answer to a bulk mutation: one flag per action.
#[derive(Debug, PartialEq, Eq)]
pub struct BulkRecordModified {
    pub action_results: Vec<bool>,
    pub status: i32,
}

/// Adds an item as one action among many.
#[derive(Debug)]
pub struct BulkRequestAdd {
    pub action: String,
    /// The item that the action is performed on.
    pub item_id: i32,
    /// A Twitter status id, for attribution.
    pub ref_id: Option<i32>,
    /// One or more tags, separated by commas.
    pub tags: Option<String>,
    /// When the action occurred.
    pub time: Option<i32>,
    /// The title of the item.
    pub title: Option<String>,
    /// The address of the item, for a caller that has no `item_id`.
    pub url: Option<String>,
}

impl GetPocket {
    /// Performs any actions in one call. Not implemented: the call fails at once, whatever it is given.
    pub fn bulk_modify<T>(&self, _params: &[T]) -> (r: Result<BulkRecordModified, ClientError>)
        ensures
            r == Err::<BulkRecordModified, ClientError>(ClientError::NotImplemented),
    {
        Err(ClientError::NotImplemented)
    }

    /// Adds many items. Not implemented: the call fails at once, whatever it is given.
    pub fn bulk_add(&self, _params: &[BulkRequestAdd]) -> (r: Result<BulkRecordModified, ClientError>)
        ensures
            r == Err::<BulkRecordModified, ClientError>(ClientError::NotImplemented),
    {
        Err(ClientError::NotImplemented)
    }

    /// Archives many items. Not implemented: the call fails at once, whatever it is given.
    pub fn bulk_archive(&self, _params: &[RequestArchive]) -> (r: Result<BulkRecordModified, ClientError>)
        ensures
            r == Err::<BulkRecordModified, ClientError>(ClientError::NotImplemented),
    {
        Err(ClientError::NotImplemented)
    }

    /// Moves many items back to the list. Not implemented: the call fails at once, whatever it is given.
    pub fn bulk_readd(&self, _params: &[RequestReadd]) -> (r: Result<BulkRecordModified, ClientError>)
        ensures
            r == Err::<BulkRecordModified, ClientError>(ClientError::NotImplemented),
    {
        Err(ClientError::NotImplemented)
    }

    /// Marks many items as favorites. Not implemented: the call fails at once, whatever it is given.
    pub fn bulk_favorite(&self, _params: &[RequestFavorite]) -> (r: Result<BulkRecordModified, ClientError>)
        ensures
            r == Err::<BulkRecordModified, ClientError>(ClientError::NotImplemented),
    {
        Err(ClientError::NotImplemented)
    }

    /// Takes the favorite mark off many items. Not implemented: the call fails at once, whatever it is given.
    pub fn bulk_unfavorite(&self, _params: &[RequestUnfavorite]) -> (r: Result<BulkRecordModified, ClientError>)
        ensures
            r == Err::<BulkRecordModified, ClientError>(ClientError::NotImplemented),
    {
        Err(ClientError::NotImplemented)
    }

    /// Removes many items for good. Not implemented: the call fails at once, whatever it is given.
    pub fn bulk_delete(&self, _params: &[RequestDelete]) -> (r: Result<BulkRecordModified, ClientError>)
        ensures
            r == Err::<BulkRecordModified, ClientError>(ClientError::NotImplemented),
    {
        Err(ClientError::NotImplemented)
    }

    /// Adds tags to many items. Not implemented: the call fails at once, whatever it is given.
    pub fn bulk_tags_add(&self, _params: &[RequestAddTags]) -> (r: Result<BulkRecordModified, ClientError>)
        ensures
            r == Err::<BulkRecordModified, ClientError>(ClientError::NotImplemented),
    {
        Err(ClientError::NotImplemented)
    }

    /// Removes tags from many items. Not implemented: the call fails at once, whatever it is given.
    pub fn bulk_tags_remove(&self, _params: &[RequestRemoveTags]) -> (r: Result<BulkRecordModified, ClientError>)
        ensures
            r == Err::<BulkRecordModified, ClientError>(ClientError::NotImplemented),
    {
        Err(ClientError::NotImplemented)
    }

    /// Replaces the tags of many items. Not implemented: the call fails at once, whatever it is given.
    pub fn bulk_tags_replace(&self, _params: &[RequestReplaceTags]) -> (r: Result<BulkRecordModified, ClientError>)
        ensures
            r == Err::<BulkRecordModified, ClientError>(ClientError::NotImplemented),
    {
        Err(ClientError::NotImplemented)
    }

    /// Removes all tags from many items. Not implemented: the call fails at once, whatever it is given.
    pub fn bulk_tags_clear(&self, _params: &[RequestClearTags]) -> (r: Result<BulkRecordModified, ClientError>)
        ensures
            r == Err::<BulkRecordModified, ClientError>(ClientError::NotImplemented),
    {
        Err(ClientError::NotImplemented)
    }

    /// Renames many tags. Not implemented: the call fails at once, whatever it is given.
    pub fn bulk_tag_rename(&self, _params: &[RequestRenameTags]) -> (r: Result<BulkRecordModified, ClientError>)
        ensures
            r == Err::<BulkRecordModified, ClientError>(ClientError::NotImplemented),
    {
        Err(ClientError::NotImplemented)
    }

    /// Deletes many tags. Not implemented: the call fails at once, whatever it is given.
    pub fn bulk_tag_delete(&self, _params: &[RequestDeleteTags]) -> (r: Result<BulkRecordModified, ClientError>)
        ensures
            r == Err::<BulkRecordModified, ClientError>(ClientError::NotImplemented),
    {
        Err(ClientError::NotImplemented)
    }
}

} // verus!
