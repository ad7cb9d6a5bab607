//! Create and manage customer profiles and sync CRM systems with Square.
//!
//! The Customers API enables you to create and manage customer profiles, as
//! well as search for customers based on various criteria (including customer
//! group membership).
//!
//! Every operation is one stateless request. The methods of [`CustomersApi`]
//! say which request that is; the caller sends it.

use crate::config::Configuration;
use crate::config::SquareClient;
use crate::http::ApiRequest;
use crate::http::ApiRequestView;
use crate::http::HttpVerb;
use vstd::prelude::*;
use vstd::string::*;

verus! {

/// URL of the customer collection under `base`.
pub open spec fn collection_url(base: Seq<char>) -> Seq<char> {
    base + "/customers"@
}

/// URL of the search endpoint under `base`.
pub open spec fn search_url(base: Seq<char>) -> Seq<char> {
    collection_url(base) + "/search"@
}

/// URL of the profile of customer `customer_id` under `base`.
pub open spec fn customer_url(base: Seq<char>, customer_id: Seq<char>) -> Seq<char> {
    collection_url(base) + "/"@ + customer_id
}

/// URL of the membership of customer `customer_id` in group `group_id`.
pub open spec fn membership_url(
    base: Seq<char>,
    customer_id: Seq<char>,
    group_id: Seq<char>,
) -> Seq<char> {
    customer_url(base, customer_id) + "/groups/"@ + group_id
}

/// Every endpoint of the resource lives under the collection URL: the URL
/// of the search endpoint, of a profile, of a membership, and any of them
/// followed by a query string, starts with it.
pub proof fn lemma_endpoints_extend_collection(
    base: Seq<char>,
    customer_id: Seq<char>,
    group_id: Seq<char>,
    query: Seq<char>,
)
    ensures
        collection_url(base).is_prefix_of(collection_url(base) + query),
        collection_url(base).is_prefix_of(search_url(base)),
        collection_url(base).is_prefix_of(customer_url(base, customer_id)),
        collection_url(base).is_prefix_of(customer_url(base, customer_id) + query),
        collection_url(base).is_prefix_of(membership_url(base, customer_id, group_id)),
{
}

/// Under one base, two customers share the URL of their profile only if
/// they share the ID.
pub proof fn lemma_customer_url_injective(base: Seq<char>, first: Seq<char>, second: Seq<char>)
    requires
        customer_url(base, first) == customer_url(base, second),
    ensures
        first == second,
{
    let stem = collection_url(base) + "/"@;
    assert(first =~= (stem + first).subrange(stem.len() as int, (stem + first).len() as int));
    assert(second =~= (stem + second).subrange(stem.len() as int, (stem + second).len() as int));
}

/// For one customer, two groups share the URL of the membership only if they
/// share the ID.
pub proof fn lemma_membership_url_injective(
    base: Seq<char>,
    customer_id: Seq<char>,
    first: Seq<char>,
    second: Seq<char>,
)
    requires
        membership_url(base, customer_id, first) == membership_url(base, customer_id, second),
    ensures
        first == second,
{
    let stem = customer_url(base, customer_id) + "/groups/"@;
    assert(first =~= (stem + first).subrange(stem.len() as int, (stem + first).len() as int));
    assert(second =~= (stem + second).subrange(stem.len() as int, (stem + second).len() as int));
}

/// Written out in one piece, every endpoint is the base followed by a fixed
/// path: `/customers/search` for the search, `/customers/` and the
/// customer's ID for a profile, and that followed by `/groups/` and the
/// group's ID for a membership.
pub proof fn lemma_endpoint_layout(base: Seq<char>, customer_id: Seq<char>, group_id: Seq<char>)
    ensures
        search_url(base) == base + "/customers/search"@,
        customer_url(base, customer_id) == base + ("/customers/"@ + customer_id),
        membership_url(base, customer_id, group_id) == base + ("/customers/"@ + customer_id
            + "/groups/"@ + group_id),
{
    reveal_strlit("/customers");
    reveal_strlit("/");
    reveal_strlit("/search");
    reveal_strlit("/customers/");
    reveal_strlit("/customers/search");
    assert("/customers"@ + "/"@ =~= "/customers/"@);
    assert("/customers"@ + "/search"@ =~= "/customers/search"@);
    assert(search_url(base) =~= base + "/customers/search"@);
    assert(customer_url(base, customer_id) =~= base + ("/customers/"@ + customer_id));
    assert(membership_url(base, customer_id, group_id) =~= base + ("/customers/"@ + customer_id
        + "/groups/"@ + group_id));
}

/// Create and manage customer profiles and sync CRM systems with Square.
#[derive(Clone, Debug)]
pub struct CustomersApi {
    /// App config information
    config: Configuration,
}

impl CustomersApi {
    /// The URL prefix that this client was configured with.
    pub closed spec fn base_url(&self) -> Seq<char> {
        self.config.base_url@
    }

    /// Instantiates a new `CustomersApi`
    pub fn new(square_client: SquareClient) -> (api: CustomersApi)
        ensures
            api.base_url() == square_client.config.base_url@,
    {
        CustomersApi { config: square_client.config }
    }

    /// The URL of the customer collection, which every endpoint of this
    /// client starts with.
    pub fn url(&self) -> (url: String)
        ensures
            url@ == collection_url(self.base_url()),
    {
        let mut url = self.config.get_base_url();
        url.append("/customers");
        url
    }

    /// Lists customer profiles associated with a Square account.
    ///
    /// `query` is the query string of the listing parameters: empty, or a
    /// question mark followed by the encoded pairs. It is appended as it is.
    pub fn list_customers(&self, query: &str) -> (request: ApiRequest)
        ensures
            request@ == (ApiRequestView {
                verb: HttpVerb::Get,
                url: collection_url(self.base_url()) + query@,
                sends_body: false,
            }),
    {
        let mut url = self.url();
        url.append(query);
        ApiRequest { verb: HttpVerb::Get, url, sends_body: false }
    }

    /// Creates a new customer for a business. The profile travels as the
    /// body of the request.
    pub fn create_customer(&self) -> (request: ApiRequest)
        ensures
            request@ == (ApiRequestView {
                verb: HttpVerb::Post,
                url: collection_url(self.base_url()),
                sends_body: true,
            }),
    {
        ApiRequest { verb: HttpVerb::Post, url: self.url(), sends_body: true }
    }

    /// Searches the customer profiles associated with a Square account using
    /// a supported query filter, which travels as the body of the request.
    pub fn search_customers(&self) -> (request: ApiRequest)
        ensures
            request@ == (ApiRequestView {
                verb: HttpVerb::Post,
                url: search_url(self.base_url()),
                sends_body: true,
            }),
    {
        let mut url = self.url();
        url.append("/search");
        ApiRequest { verb: HttpVerb::Post, url, sends_body: true }
    }

    /// Deletes a customer profile from a business.
    ///
    /// `query` is the query string of the deletion parameters, which may
    /// carry the version of the profile for optimistic concurrency. It is
    /// appended as it is: the service alone judges the version.
    pub fn delete_customer(&self, customer_id: &str, query: &str) -> (request: ApiRequest)
        ensures
            request@ == (ApiRequestView {
                verb: HttpVerb::Delete,
                url: customer_url(self.base_url(), customer_id@) + query@,
                sends_body: false,
            }),
    {
        let mut url = self.customer(customer_id);
        url.append(query);
        ApiRequest { verb: HttpVerb::Delete, url, sends_body: false }
    }

    /// Returns details for a single customer.
    pub fn retrieve_customer(&self, customer_id: &str) -> (request: ApiRequest)
        ensures
            request@ == (ApiRequestView {
                verb: HttpVerb::Get,
                url: customer_url(self.base_url(), customer_id@),
                sends_body: false,
            }),
    {
        ApiRequest { verb: HttpVerb::Get, url: self.customer(customer_id), sends_body: false }
    }

    /// Updates a customer profile. The changed attributes travel as the body
    /// of the request.
    pub fn update_customer(&self, customer_id: &str) -> (request: ApiRequest)
        ensures
            request@ == (ApiRequestView {
                verb: HttpVerb::Put,
                url: customer_url(self.base_url(), customer_id@),
                sends_body: true,
            }),
    {
        ApiRequest { verb: HttpVerb::Put, url: self.customer(customer_id), sends_body: true }
    }

    /// Removes a group membership from a customer.
    ///
    /// The customer is identified by the `customer_id` value and the customer
    /// group is identified by the `group_id` value.
    pub fn remove_group_from_customer(&self, customer_id: &str, group_id: &str) -> (request:
        ApiRequest)
        ensures
            request@ == (ApiRequestView {
                verb: HttpVerb::Delete,
                url: membership_url(self.base_url(), customer_id@, group_id@),
                sends_body: false,
            }),
    {
        ApiRequest {
            verb: HttpVerb::Delete,
            url: self.membership(customer_id, group_id),
            sends_body: false,
        }
    }

    /// Adds a group membership to a customer.
    ///
    /// The customer is identified by the `customer_id` value and the customer
    /// group is identified by the `group_id` value. The request has no body.
    pub fn add_group_to_customer(&self, customer_id: &str, group_id: &str) -> (request:
        ApiRequest)
        ensures
            request@ == (ApiRequestView {
                verb: HttpVerb::Put,
                url: membership_url(self.base_url(), customer_id@, group_id@),
                sends_body: false,
            }),
    {
        ApiRequest {
            verb: HttpVerb::Put,
            url: self.membership(customer_id, group_id),
            sends_body: false,
        }
    }

    /// The URL of one customer's profile.
    fn customer(&self, customer_id: &str) -> (url: String)
        ensures
            url@ == customer_url(self.base_url(), customer_id@),
    {
        let mut url = self.url();
        url.append("/");
        url.append(customer_id);
        url
    }

    /// The URL of one customer's membership in one group.
    fn membership(&self, customer_id: &str, group_id: &str) -> (url: String)
        ensures
            url@ == membership_url(self.base_url(), customer_id@, group_id@),
    {
        let mut url = self.customer(customer_id);
        url.append("/groups/");
        url.append(group_id);
        url
    }
}

} // verus!
