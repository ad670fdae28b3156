//! Work with a guild's templates.

use vstd::prelude::*;

use crate::id::GuildId;
use crate::route::{Addressed, Route};
use crate::transport;
use crate::validation::{valid_template_name, ValidationFault};
use twilight_http::client::Client;
use twilight_http::request::template::{
    CreateTemplate, DeleteTemplate, GetTemplates, SyncTemplate, UpdateTemplate,
};

verus! {

/// Work with a guild's templates.
#[derive(Clone, Copy, Debug)]
pub struct GuildTemplateResource<'a> {
    client: &'a Client,
    guild_id: GuildId,
}

impl<'a> GuildTemplateResource<'a> {
    /// The transport handle this node was built over.
    pub closed spec fn spec_client(&self) -> &'a Client {
        self.client
    }

    /// The guild identifier bound at this node.
    pub closed spec fn spec_guild_id(&self) -> GuildId {
        self.guild_id
    }

    /// The identifiers addressing this node.
    pub open spec fn tuple(&self) -> Seq<u64> {
        seq![self.spec_guild_id()@]
    }

    /// Create a resource instance to work with a guild's templates.
    pub fn new(client: &'a Client, guild_id: GuildId) -> (r: Self)
        ensures
            r.spec_client() == client,
            r.spec_guild_id() == guild_id,
    {
        GuildTemplateResource { client, guild_id }
    }

    /// The guild identifier bound at this node.
    pub fn guild_id(&self) -> (r: GuildId)
        ensures
            r == self.spec_guild_id(),
    {
        self.guild_id
    }

    /// Delete a guild's template.
    pub fn delete(&self, code: &'a str) -> (r: Addressed<DeleteTemplate<'a>>)
        ensures
            r.route@ == (Route::GuildTemplateDelete {
                guild_id: self.spec_guild_id()@,
                code: code@,
            }),
    {
        let guild_id: u64 = self.guild_id.value();
        Addressed {
            inner: transport::delete_template(self.client, guild_id, code),
            route: Ghost(Route::GuildTemplateDelete { guild_id, code: code@ }),
        }
    }

    /// List a guild's templates.
    pub fn list(&self) -> (r: Addressed<GetTemplates<'a>>)
        ensures
            r.route@ == (Route::GuildTemplateList { guild_id: self.spec_guild_id()@ }),
    {
        let guild_id: u64 = self.guild_id.value();
        Addressed {
            inner: transport::get_templates(self.client, guild_id),
            route: Ghost(Route::GuildTemplateList { guild_id }),
        }
    }

    /// Update a guild template.
    pub fn patch(&self, template_code: &'a str) -> (r: Addressed<UpdateTemplate<'a>>)
        ensures
            r.route@ == (Route::GuildTemplatePatch {
                guild_id: self.spec_guild_id()@,
                template_code: template_code@,
            }),
    {
        let guild_id: u64 = self.guild_id.value();
        Addressed {
            inner: transport::update_template(self.client, guild_id, template_code),
            route: Ghost(Route::GuildTemplatePatch {
                guild_id,
                template_code: template_code@,
            }),
        }
    }

    /// Create a guild template.
    ///
    /// # Errors
    ///
    /// Returns [`ValidationFault::TemplateName`] if the name is not a valid template name.
    pub fn post(&self, name: &'a str) -> (r: Result<Addressed<CreateTemplate<'a>>, ValidationFault>)
        ensures
            r is Ok <==> valid_template_name(name@),
            r matches Ok(a) ==> a.route@ == (Route::GuildTemplatePost {
                guild_id: self.spec_guild_id()@,
                name: name@,
            }),
            r matches Err(e) ==> e == ValidationFault::TemplateName,
    {
        let guild_id: u64 = self.guild_id.value();
        match transport::create_template(self.client, guild_id, name) {
            Ok(builder) => Ok(
                Addressed {
                    inner: builder,
                    route: Ghost(Route::GuildTemplatePost { guild_id, name: name@ }),
                },
            ),
            Err(_) => Err(ValidationFault::TemplateName),
        }
    }
}

/// RPC calls.
impl<'a> GuildTemplateResource<'a> {
    /// Sync a guild's template.
    pub fn sync(&self, code: &'a str) -> (r: Addressed<SyncTemplate<'a>>)
        ensures
            r.route@ == (Route::GuildTemplateSync {
                guild_id: self.spec_guild_id()@,
                code: code@,
            }),
    {
        let guild_id: u64 = self.guild_id.value();
        Addressed {
            inner: transport::sync_template(self.client, guild_id, code),
            route: Ghost(Route::GuildTemplateSync { guild_id, code: code@ }),
        }
    }
}

} // verus!
