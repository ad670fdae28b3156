//! Work with a user's private channel.

use vstd::prelude::*;

use crate::id::UserId;
use crate::route::{Addressed, Route};
use crate::transport;
use twilight_http::client::Client;
use twilight_http::request::user::CreatePrivateChannel;

verus! {

/// Work with a user's private channel.
#[derive(Clone, Copy, Debug)]
pub struct UserPrivateChannelResource<'a> {
    client: &'a Client,
    user_id: UserId,
}

impl<'a> UserPrivateChannelResource<'a> {
    /// The transport handle this node was built over.
    pub closed spec fn spec_client(&self) -> &'a Client {
        self.client
    }

    /// The user identifier bound at this node.
    pub closed spec fn spec_user_id(&self) -> UserId {
        self.user_id
    }

    /// The identifiers addressing this node.
    pub open spec fn tuple(&self) -> Seq<u64> {
        seq![self.spec_user_id()@]
    }

    /// Create a resource instance to work with a user's private channels.
    pub fn new(client: &'a Client, user_id: UserId) -> (r: Self)
        ensures
            r.spec_client() == client,
            r.spec_user_id() == user_id,
    {
        UserPrivateChannelResource { client, user_id }
    }

    /// The user identifier bound at this node.
    pub fn user_id(&self) -> (r: UserId)
        ensures
            r == self.spec_user_id(),
    {
        self.user_id
    }

    /// Create a private channel with a user.
    pub fn post(&self) -> (r: Addressed<CreatePrivateChannel<'a>>)
        ensures
            r.route@ == (Route::UserPrivateChannelPost { user_id: self.spec_user_id()@ }),
    {
        let user_id: u64 = self.user_id.value();
        Addressed {
            inner: transport::create_private_channel(self.client, user_id),
            route: Ghost(Route::UserPrivateChannelPost { user_id }),
        }
    }
}

} // verus!
