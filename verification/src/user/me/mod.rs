//! Work with the current user and its relationships.

mod connection;
mod guild;

pub use self::{connection::UserMeConnectionResource, guild::UserMeGuildResource};

use vstd::prelude::*;

use crate::route::{Addressed, Route};
use crate::transport;
use twilight_http::client::Client;
use twilight_http::request::user::{GetCurrentUser, UpdateCurrentUser};

verus! {

/// Work with the current user.
#[derive(Clone, Copy, Debug)]
pub struct UserMeResource<'a> {
    client: &'a Client,
}

impl<'a> UserMeResource<'a> {
    /// The transport handle this node was built over.
    pub closed spec fn spec_client(&self) -> &'a Client {
        self.client
    }

    /// The identifiers addressing this node.
    pub open spec fn tuple(&self) -> Seq<u64> {
        Seq::empty()
    }

    /// Create a resource instance to work with the current user.
    pub fn new(client: &'a Client) -> (r: Self)
        ensures
            r.spec_client() == client,
    {
        UserMeResource { client }
    }

    /// Get the current user.
    pub fn get(&self) -> (r: Addressed<GetCurrentUser<'a>>)
        ensures
            r.route@ == Route::UserMeGet,
    {
        Addressed {
            inner: transport::current_user(self.client),
            route: Ghost(Route::UserMeGet),
        }
    }

    /// Update the current user.
    pub fn patch(&self) -> (r: Addressed<UpdateCurrentUser<'a>>)
        ensures
            r.route@ == Route::UserMePatch,
    {
        Addressed {
            inner: transport::update_current_user(self.client),
            route: Ghost(Route::UserMePatch),
        }
    }
}

/// 1:M user relationships.
impl<'a> UserMeResource<'a> {
    /// Work with the current user's connections.
    pub fn connections(&self) -> (r: UserMeConnectionResource<'a>)
        ensures
            r.spec_client() == self.spec_client(),
            r.tuple() == self.tuple(),
    {
        UserMeConnectionResource::new(self.client)
    }

    /// Work with the current user's guilds.
    pub fn guilds(&self) -> (r: UserMeGuildResource<'a>)
        ensures
            r.spec_client() == self.spec_client(),
            r.tuple() == self.tuple(),
    {
        UserMeGuildResource::new(self.client)
    }
}

} // verus!
