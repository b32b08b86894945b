//! The operations of the service, one method each.
//!
//! A URL is the base URL, the path of the resource, and for some
//! operations an identifier or a name, joined as they are: nothing is
//! escaped and no slash is added or removed. The base URL is therefore
//! given without a trailing slash.

use crate::data::{ApplicationData, InstanceData, ServiceData, ZoneConfig};
use crate::json::{distinct_keys, json_object, json_of, json_string, members_of, Json};
use crate::reply::{Fetch, FetchList, Submit};
use crate::request::{default_headers, delete_of, get_of, post_of, Method, Request};
use serde_json::Value;
use vstd::prelude::*;
use vstd::string::*;

verus! {

/// The client's configuration: where the service is, and how long a request
/// may take. It does not change once made.
#[derive(Debug, Clone)]
pub struct SAPI {
    sapi_base_url: String,
    request_timeout: u64,
}

pub struct SapiView {
    pub base_url: Seq<char>,
    pub request_timeout: u64,
}

impl View for SAPI {
    type V = SapiView;

    closed spec fn view(&self) -> SapiView {
        SapiView { base_url: self.sapi_base_url@, request_timeout: self.request_timeout }
    }
}

/// The body that asks for a new service: an object of exactly two members,
/// the name and the UUID of the application that owns it.
pub open spec fn new_service_body(name: Seq<char>, application_uuid: Seq<char>) -> Json {
    Json::Object(
        Map::empty().insert("name"@, Json::String(name)).insert(
            "application_uuid"@,
            Json::String(application_uuid),
        ),
    )
}

impl SAPI {
    /// A client for the service at `sapi_base_url`, whose requests time out
    /// after `request_timeout` seconds.
    pub fn new(sapi_base_url: &str, request_timeout: u64) -> (r: SAPI)
        ensures
            r@ == (SapiView { base_url: sapi_base_url@, request_timeout }),
    {
        SAPI { sapi_base_url: sapi_base_url.to_owned(), request_timeout }
    }

    /// The base URL that the client was made with.
    pub fn base_url(&self) -> (r: &str)
        ensures
            r@ == self@.base_url,
    {
        self.sapi_base_url.as_str()
    }

    /// The time that one request may take, in seconds.
    pub fn request_timeout(&self) -> (r: u64)
        ensures
            r == self@.request_timeout,
    {
        self.request_timeout
    }

    /// The zone configuration of the zone `uuid`: GET `/configs/{uuid}`.
    pub fn get_zone_config(&self, uuid: &str) -> (r: Fetch<ZoneConfig>)
        ensures
            r.request@ == get_of(self@.base_url + "/configs/"@ + uuid@),
    {
        Fetch::new(self.get(self.url_of("/configs/", uuid)))
    }

    /// The instance `inst_uuid`: GET `/instances/{uuid}`.
    pub fn get_instance(&self, inst_uuid: &str) -> (r: Fetch<InstanceData>)
        ensures
            r.request@ == get_of(self@.base_url + "/instances/"@ + inst_uuid@),
    {
        Fetch::new(self.get(self.url_of("/instances/", inst_uuid)))
    }

    /// All instances: GET `/instances`.
    pub fn list_instances(&self) -> (r: FetchList<InstanceData>)
        ensures
            r.request@ == get_of(self@.base_url + "/instances"@),
    {
        FetchList::new(self.get(self.url("/instances")))
    }

    /// The instances of the service `svc_uuid`: GET
    /// `/instances?service_uuid={uuid}`.
    pub fn list_service_instances(&self, svc_uuid: &str) -> (r: FetchList<InstanceData>)
        ensures
            r.request@ == get_of(self@.base_url + "/instances?service_uuid="@ + svc_uuid@),
    {
        FetchList::new(self.get(self.url_of("/instances?service_uuid=", svc_uuid)))
    }

    /// All services: GET `/services`.
    pub fn list_services(&self) -> (r: FetchList<ServiceData>)
        ensures
            r.request@ == get_of(self@.base_url + "/services"@),
    {
        FetchList::new(self.get(self.url("/services")))
    }

    /// The service `uuid`: GET `/services/{uuid}`.
    pub fn get_service(&self, uuid: &str) -> (r: Fetch<ServiceData>)
        ensures
            r.request@ == get_of(self@.base_url + "/services/"@ + uuid@),
    {
        Fetch::new(self.get(self.url_of("/services/", uuid)))
    }

    /// The services called `name`: GET `/services?name={name}`. A name need
    /// not be unique, so the reply is a list.
    pub fn get_service_by_name(&self, name: &str) -> (r: FetchList<ServiceData>)
        ensures
            r.request@ == get_of(self@.base_url + "/services?name="@ + name@),
    {
        FetchList::new(self.get(self.url_of("/services?name=", name)))
    }

    /// Creates the service `name` under the application `application_uuid`:
    /// POST `/services` with the two as the body.
    pub fn create_service(&self, name: &str, application_uuid: &str) -> (r: Submit)
        ensures
            r.request@ == post_of(
                self@.base_url + "/services"@,
                new_service_body(name@, application_uuid@),
            ),
    {
        let mut entries: Vec<(String, Value)> = Vec::new();
        entries.push(("name".to_owned(), json_string(name)));
        entries.push(("application_uuid".to_owned(), json_string(application_uuid)));
        proof {
            reveal_strlit("name");
            reveal_strlit("application_uuid");
            reveal_with_fuel(members_of, 3);
            assert(entries@.len() == 2);
            assert(entries@[0].0@.len() == 4 && entries@[1].0@.len() == 16);
            assert(distinct_keys(entries@));
            assert(entries@.drop_last().drop_last().len() == 0);
            assert(Json::Object(members_of(entries@)) == new_service_body(
                name@,
                application_uuid@,
            ));
        }
        let body = json_object(entries);
        Submit::new(self.post(self.url("/services"), body))
    }

    /// Changes the service `service_uuid` as `body` says: POST
    /// `/services/{uuid}` with `body` as it is. What the members of `body`
    /// mean is the server's business.
    pub fn update_service(&self, service_uuid: &str, body: Value) -> (r: Submit)
        ensures
            r.request@ == post_of(self@.base_url + "/services/"@ + service_uuid@, json_of(body)),
    {
        Submit::new(self.post(self.url_of("/services/", service_uuid), body))
    }

    /// Deletes the service `service_uuid`: DELETE `/services/{uuid}`.
    pub fn delete_service(&self, service_uuid: &str) -> (r: Submit)
        ensures
            r.request@ == delete_of(self@.base_url + "/services/"@ + service_uuid@),
    {
        Submit::new(self.delete(self.url_of("/services/", service_uuid)))
    }

    /// The applications called `name`: GET `/applications?name={name}`.
    pub fn get_application_by_name(&self, name: &str) -> (r: FetchList<ApplicationData>)
        ensures
            r.request@ == get_of(self@.base_url + "/applications?name="@ + name@),
    {
        FetchList::new(self.get(self.url_of("/applications?name=", name)))
    }

    /// All applications: GET `/applications`.
    pub fn list_applications(&self) -> (r: FetchList<ApplicationData>)
        ensures
            r.request@ == get_of(self@.base_url + "/applications"@),
    {
        FetchList::new(self.get(self.url("/applications")))
    }

    /// The application `uuid`: GET `/applications/{uuid}`.
    pub fn get_application(&self, uuid: &str) -> (r: Fetch<ApplicationData>)
        ensures
            r.request@ == get_of(self@.base_url + "/applications/"@ + uuid@),
    {
        Fetch::new(self.get(self.url_of("/applications/", uuid)))
    }

    /// The URL of a resource: the base URL and `path`, joined as they are.
    fn url(&self, path: &str) -> (r: String)
        ensures
            r@ == self@.base_url + path@,
    {
        let mut url = self.sapi_base_url.clone();
        url.append(path);
        url
    }

    /// The URL of one item of a resource, or of a query: the base URL,
    /// `path` and `tail`, joined as they are.
    fn url_of(&self, path: &str, tail: &str) -> (r: String)
        ensures
            r@ == self@.base_url + path@ + tail@,
    {
        let mut url = self.url(path);
        url.append(tail);
        url
    }

    /// A GET of `url`, with the default headers and no body.
    fn get(&self, url: String) -> (r: Request)
        ensures
            r@ == get_of(url@),
    {
        Request { method: Method::Get, url, headers: default_headers(), body: None }
    }

    /// A POST of `body` to `url`, with the default headers.
    fn post(&self, url: String, body: Value) -> (r: Request)
        ensures
            r@ == post_of(url@, json_of(body)),
    {
        Request { method: Method::Post, url, headers: default_headers(), body: Some(body) }
    }

    /// A DELETE of `url`, with the default headers and no body.
    fn delete(&self, url: String) -> (r: Request)
        ensures
            r@ == delete_of(url@),
    {
        Request { method: Method::Delete, url, headers: default_headers(), body: None }
    }
}

} // verus!
