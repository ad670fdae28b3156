//! Work with users and their relationships.

pub mod me;

mod private_channel;

pub use self::{me::UserMeResource, private_channel::UserPrivateChannelResource};

use vstd::prelude::*;

use crate::id::UserId;
use crate::route::{Addressed, Route};
use crate::transport;
use twilight_http::client::Client;
use twilight_http::request::user::GetUser;

verus! {

/// Work with users.
#[derive(Clone, Copy, Debug)]
pub struct UserResource<'a> {
    client: &'a Client,
}

impl<'a> UserResource<'a> {
    /// The transport handle this node was built over.
    pub closed spec fn spec_client(&self) -> &'a Client {
        self.client
    }

    /// The identifiers addressing this node.
    pub open spec fn tuple(&self) -> Seq<u64> {
        Seq::empty()
    }

    /// Create a resource instance to work with users.
    pub fn new(client: &'a Client) -> (r: Self)
        ensures
            r.spec_client() == client,
    {
        UserResource { client }
    }

    /// Get a user.
    pub fn get(&self, id: UserId) -> (r: Addressed<GetUser<'a>>)
        ensures
            r.route@ == (Route::UserGet { user_id: id@ }),
    {
        let user_id: u64 = id.value();
        Addressed {
            inner: transport::user(self.client, user_id),
            route: Ghost(Route::UserGet { user_id }),
        }
    }
}

/// 1:1 user relationships.
impl<'a> UserResource<'a> {
    /// Work with the current user.
    pub fn me(&self) -> (r: UserMeResource<'a>)
        ensures
            r.spec_client() == self.spec_client(),
            r.tuple() == self.tuple(),
    {
        UserMeResource::new(self.client)
    }

    /// Work with a user's private channel.
    pub fn private_channel(&self, user_id: UserId) -> (r: UserPrivateChannelResource<'a>)
        ensures
            r.spec_client() == self.spec_client(),
            r.spec_user_id() == user_id,
            r.tuple() == self.tuple().push(user_id@),
    {
        UserPrivateChannelResource::new(self.client, user_id)
    }
}

} // verus!
