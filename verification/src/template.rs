//! Work with templates.

use vstd::prelude::*;

use crate::route::{Addressed, Route};
use crate::transport;
use twilight_http::client::Client;
use twilight_http::request::template::GetTemplate;

verus! {

/// Work with templates.
#[derive(Clone, Copy, Debug)]
pub struct TemplateResource<'a> {
    client: &'a Client,
}

impl<'a> TemplateResource<'a> {
    /// The transport handle this node was built over.
    pub closed spec fn spec_client(&self) -> &'a Client {
        self.client
    }

    /// The identifiers addressing this node.
    pub open spec fn tuple(&self) -> Seq<u64> {
        Seq::empty()
    }

    /// Create a resource instance to work with templates.
    pub fn new(client: &'a Client) -> (r: Self)
        ensures
            r.spec_client() == client,
    {
        TemplateResource { client }
    }

    /// Get a template.
    pub fn get(&self, template_code: &'a str) -> (r: Addressed<GetTemplate<'a>>)
        ensures
            r.route@ == (Route::TemplateGet { template_code: template_code@ }),
    {
        Addressed {
            inner: transport::get_template(self.client, template_code),
            route: Ghost(Route::TemplateGet { template_code: template_code@ }),
        }
    }
}

} // verus!
