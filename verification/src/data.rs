//! The records of the service, as its replies carry them.
//!
//! Fields that the service has always stored are required. Everything that
//! came later is optional or has a default, so that a reply from a server
//! with an older or a newer schema still decodes.

use crate::error::DecodeError;
use crate::json::{json_of, member, Json};
use crate::record::{
    blob, blob_of, flag_or_false, list, read_blob, read_document, read_flag_or_false, read_list,
    read_text, read_text_or_empty, text, text_or_empty, views, Record,
};
use serde_json::Value;
use vstd::prelude::*;

verus! {

/// One manifest of a zone's configuration: a template and the file it is
/// rendered to. Only `uuid` is required.
#[derive(Debug, PartialEq, Clone)]
pub struct SapiManifests {
    pub uuid: String,
    pub name: String,
    pub path: String,
    pub template: String,
    pub version: String,
    pub master: bool,
    pub post_cmd: String,
}

pub struct SapiManifestsView {
    pub uuid: Seq<char>,
    pub name: Seq<char>,
    pub path: Seq<char>,
    pub template: Seq<char>,
    pub version: Seq<char>,
    pub master: bool,
    pub post_cmd: Seq<char>,
}

impl View for SapiManifests {
    type V = SapiManifestsView;

    open spec fn view(&self) -> SapiManifestsView {
        SapiManifestsView {
            uuid: self.uuid@,
            name: self.name@,
            path: self.path@,
            template: self.template@,
            version: self.version@,
            master: self.master,
            post_cmd: self.post_cmd@,
        }
    }
}

impl Record for SapiManifests {
    open spec fn of_json(j: Json) -> Option<SapiManifestsView> {
        let uuid = text(member(j, "uuid"@));
        let name = text_or_empty(member(j, "name"@));
        let path = text_or_empty(member(j, "path"@));
        let template = text_or_empty(member(j, "template"@));
        let version = text_or_empty(member(j, "version"@));
        let master = flag_or_false(member(j, "master"@));
        let post_cmd = text_or_empty(member(j, "post_cmd"@));
        if uuid is Some && name is Some && path is Some && template is Some && version is Some
            && master is Some && post_cmd is Some {
            Some(
                SapiManifestsView {
                    uuid: uuid->0,
                    name: name->0,
                    path: path->0,
                    template: template->0,
                    version: version->0,
                    master: master->0,
                    post_cmd: post_cmd->0,
                },
            )
        } else {
            None
        }
    }

    fn from_value(v: &Value) -> (r: Result<SapiManifests, DecodeError>) {
        let uuid = match read_text(v, "uuid") {
            Ok(s) => s,
            Err(e) => { return Err(e); },
        };
        let name = match read_text_or_empty(v, "name") {
            Ok(s) => s,
            Err(e) => { return Err(e); },
        };
        let path = match read_text_or_empty(v, "path") {
            Ok(s) => s,
            Err(e) => { return Err(e); },
        };
        let template = match read_text_or_empty(v, "template") {
            Ok(s) => s,
            Err(e) => { return Err(e); },
        };
        let version = match read_text_or_empty(v, "version") {
            Ok(s) => s,
            Err(e) => { return Err(e); },
        };
        let master = match read_flag_or_false(v, "master") {
            Ok(b) => b,
            Err(e) => { return Err(e); },
        };
        let post_cmd = match read_text_or_empty(v, "post_cmd") {
            Ok(s) => s,
            Err(e) => { return Err(e); },
        };
        Ok(SapiManifests { uuid, name, path, template, version, master, post_cmd })
    }
}

/// The rendered configuration of one zone: its manifests, in the order the
/// service lists them, and its metadata. Both are required; the metadata is
/// any JSON document.
#[derive(Debug, PartialEq, Clone)]
pub struct ZoneConfig {
    pub manifests: Vec<SapiManifests>,
    pub metadata: Value,
}

pub struct ZoneConfigView {
    pub manifests: Seq<SapiManifestsView>,
    pub metadata: Json,
}

impl View for ZoneConfig {
    type V = ZoneConfigView;

    open spec fn view(&self) -> ZoneConfigView {
        ZoneConfigView { manifests: views(self.manifests@), metadata: json_of(self.metadata) }
    }
}

impl Record for ZoneConfig {
    open spec fn of_json(j: Json) -> Option<ZoneConfigView> {
        let manifests = list::<SapiManifests>(member(j, "manifests"@));
        let metadata = member(j, "metadata"@);
        if manifests is Some && metadata is Some {
            Some(ZoneConfigView { manifests: manifests->0, metadata: metadata->0 })
        } else {
            None
        }
    }

    fn from_value(v: &Value) -> (r: Result<ZoneConfig, DecodeError>) {
        let manifests = match read_list::<SapiManifests>(v, "manifests") {
            Ok(m) => m,
            Err(e) => { return Err(e); },
        };
        let metadata = match read_document(v, "metadata") {
            Ok(d) => d,
            Err(e) => { return Err(e); },
        };
        Ok(ZoneConfig { manifests, metadata })
    }
}

/// A service of an application.
#[derive(Debug, Clone)]
pub struct ServiceData {
    pub uuid: String,
    pub name: String,
    pub application_uuid: String,
    pub params: Option<Value>,
    pub metadata: Option<Value>,
    pub master: bool,
}

pub struct ServiceDataView {
    pub uuid: Seq<char>,
    pub name: Seq<char>,
    pub application_uuid: Seq<char>,
    pub params: Option<Json>,
    pub metadata: Option<Json>,
    pub master: bool,
}

impl View for ServiceData {
    type V = ServiceDataView;

    open spec fn view(&self) -> ServiceDataView {
        ServiceDataView {
            uuid: self.uuid@,
            name: self.name@,
            application_uuid: self.application_uuid@,
            params: blob_of(self.params),
            metadata: blob_of(self.metadata),
            master: self.master,
        }
    }
}

impl Record for ServiceData {
    open spec fn of_json(j: Json) -> Option<ServiceDataView> {
        let uuid = text(member(j, "uuid"@));
        let name = text(member(j, "name"@));
        let application_uuid = text(member(j, "application_uuid"@));
        let master = flag_or_false(member(j, "master"@));
        if uuid is Some && name is Some && application_uuid is Some && master is Some {
            Some(
                ServiceDataView {
                    uuid: uuid->0,
                    name: name->0,
                    application_uuid: application_uuid->0,
                    params: blob(member(j, "params"@)),
                    metadata: blob(member(j, "metadata"@)),
                    master: master->0,
                },
            )
        } else {
            None
        }
    }

    fn from_value(v: &Value) -> (r: Result<ServiceData, DecodeError>) {
        let uuid = match read_text(v, "uuid") {
            Ok(s) => s,
            Err(e) => { return Err(e); },
        };
        let name = match read_text(v, "name") {
            Ok(s) => s,
            Err(e) => { return Err(e); },
        };
        let application_uuid = match read_text(v, "application_uuid") {
            Ok(s) => s,
            Err(e) => { return Err(e); },
        };
        let params = read_blob(v, "params");
        let metadata = read_blob(v, "metadata");
        let master = match read_flag_or_false(v, "master") {
            Ok(b) => b,
            Err(e) => { return Err(e); },
        };
        Ok(ServiceData { uuid, name, application_uuid, params, metadata, master })
    }
}

/// A running instance of a service.
#[derive(Debug, Clone)]
pub struct InstanceData {
    pub uuid: String,
    pub service_uuid: String,
    pub params: Option<Value>,
    pub metadata: Option<Value>,
}

pub struct InstanceDataView {
    pub uuid: Seq<char>,
    pub service_uuid: Seq<char>,
    pub params: Option<Json>,
    pub metadata: Option<Json>,
}

impl View for InstanceData {
    type V = InstanceDataView;

    open spec fn view(&self) -> InstanceDataView {
        InstanceDataView {
            uuid: self.uuid@,
            service_uuid: self.service_uuid@,
            params: blob_of(self.params),
            metadata: blob_of(self.metadata),
        }
    }
}

impl Record for InstanceData {
    open spec fn of_json(j: Json) -> Option<InstanceDataView> {
        let uuid = text(member(j, "uuid"@));
        let service_uuid = text(member(j, "service_uuid"@));
        if uuid is Some && service_uuid is Some {
            Some(
                InstanceDataView {
                    uuid: uuid->0,
                    service_uuid: service_uuid->0,
                    params: blob(member(j, "params"@)),
                    metadata: blob(member(j, "metadata"@)),
                },
            )
        } else {
            None
        }
    }

    fn from_value(v: &Value) -> (r: Result<InstanceData, DecodeError>) {
        let uuid = match read_text(v, "uuid") {
            Ok(s) => s,
            Err(e) => { return Err(e); },
        };
        let service_uuid = match read_text(v, "service_uuid") {
            Ok(s) => s,
            Err(e) => { return Err(e); },
        };
        let params = read_blob(v, "params");
        let metadata = read_blob(v, "metadata");
        Ok(InstanceData { uuid, service_uuid, params, metadata })
    }
}

/// An application: the top-level grouping that owns services.
#[derive(Debug, Clone)]
pub struct ApplicationData {
    pub uuid: String,
    pub name: String,
    pub owner_uuid: String,
    pub params: Option<Value>,
    pub metadata: Option<Value>,
    pub manifests: Option<Value>,
}

pub struct ApplicationDataView {
    pub uuid: Seq<char>,
    pub name: Seq<char>,
    pub owner_uuid: Seq<char>,
    pub params: Option<Json>,
    pub metadata: Option<Json>,
    pub manifests: Option<Json>,
}

impl View for ApplicationData {
    type V = ApplicationDataView;

    open spec fn view(&self) -> ApplicationDataView {
        ApplicationDataView {
            uuid: self.uuid@,
            name: self.name@,
            owner_uuid: self.owner_uuid@,
            params: blob_of(self.params),
            metadata: blob_of(self.metadata),
            manifests: blob_of(self.manifests),
        }
    }
}

impl Record for ApplicationData {
    open spec fn of_json(j: Json) -> Option<ApplicationDataView> {
        let uuid = text(member(j, "uuid"@));
        let name = text(member(j, "name"@));
        let owner_uuid = text(member(j, "owner_uuid"@));
        if uuid is Some && name is Some && owner_uuid is Some {
            Some(
                ApplicationDataView {
                    uuid: uuid->0,
                    name: name->0,
                    owner_uuid: owner_uuid->0,
                    params: blob(member(j, "params"@)),
                    metadata: blob(member(j, "metadata"@)),
                    manifests: blob(member(j, "manifests"@)),
                },
            )
        } else {
            None
        }
    }

    fn from_value(v: &Value) -> (r: Result<ApplicationData, DecodeError>) {
        let uuid = match read_text(v, "uuid") {
            Ok(s) => s,
            Err(e) => { return Err(e); },
        };
        let name = match read_text(v, "name") {
            Ok(s) => s,
            Err(e) => { return Err(e); },
        };
        let owner_uuid = match read_text(v, "owner_uuid") {
            Ok(s) => s,
            Err(e) => { return Err(e); },
        };
        let params = read_blob(v, "params");
        let metadata = read_blob(v, "metadata");
        let manifests = read_blob(v, "manifests");
        Ok(ApplicationData { uuid, name, owner_uuid, params, metadata, manifests })
    }
}

pub type Applications = Vec<ApplicationData>;

pub type Services = Vec<ServiceData>;

pub type Instances = Vec<InstanceData>;

} // verus!
