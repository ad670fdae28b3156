//! Work with a channel's permission overwrites.

use vstd::prelude::*;

use crate::id::ChannelId;
use crate::route::{Addressed, Route};
use crate::transport;
use twilight_http::client::Client;
use twilight_http::request::channel::{DeleteChannelPermission, UpdateChannelPermission};
use twilight_model::http::permission_overwrite::PermissionOverwrite;

verus! {

/// Work with a channel's permission overwrites.
#[derive(Clone, Copy, Debug)]
pub struct ChannelPermissionOverwriteResource<'a> {
    client: &'a Client,
    channel_id: ChannelId,
}

impl<'a> ChannelPermissionOverwriteResource<'a> {
    /// The transport handle this node was built over.
    pub closed spec fn spec_client(&self) -> &'a Client {
        self.client
    }

    /// The channel identifier bound at this node.
    pub closed spec fn spec_channel_id(&self) -> ChannelId {
        self.channel_id
    }

    /// The identifiers addressing this node.
    pub open spec fn tuple(&self) -> Seq<u64> {
        seq![self.spec_channel_id()@]
    }

    /// Create a resource instance to work with a channel's permission
    /// overwrites.
    pub fn new(client: &'a Client, channel_id: ChannelId) -> (r: Self)
        ensures
            r.spec_client() == client,
            r.spec_channel_id() == channel_id,
    {
        ChannelPermissionOverwriteResource { client, channel_id }
    }

    /// The channel identifier bound at this node.
    pub fn channel_id(&self) -> (r: ChannelId)
        ensures
            r == self.spec_channel_id(),
    {
        self.channel_id
    }

    /// Delete a channel's permission overwrites.
    pub fn delete(&self) -> (r: Addressed<DeleteChannelPermission<'a>>)
        ensures
            r.route@ == (Route::ChannelPermissionOverwriteDelete {
                channel_id: self.spec_channel_id()@,
            }),
    {
        let channel_id: u64 = self.channel_id.value();
        Addressed {
            inner: transport::delete_channel_permission(self.client, channel_id),
            route: Ghost(Route::ChannelPermissionOverwriteDelete { channel_id }),
        }
    }

    /// Put a channel permission overwrite.
    pub fn put(&self, permission_overwrite: &PermissionOverwrite) -> (r: Addressed<UpdateChannelPermission<'a>>)
        ensures
            r.route@ == (Route::ChannelPermissionOverwritePut {
                channel_id: self.spec_channel_id()@,
                overwrite: *permission_overwrite,
            }),
    {
        let channel_id: u64 = self.channel_id.value();
        Addressed {
            inner: transport::update_channel_permission(self.client, channel_id, permission_overwrite),
            route: Ghost(Route::ChannelPermissionOverwritePut {
                channel_id,
                overwrite: *permission_overwrite,
            }),
        }
    }
}

} // verus!
