//! What holds of decoding whatever the server sends.
//!
//! Two things keep the client working while the server's schema grows: a
//! member that a record does not name is ignored, and a member that is
//! optional or has a default may be left out.

use crate::data::{
    ApplicationData, ApplicationDataView, InstanceData, InstanceDataView, SapiManifests,
    SapiManifestsView, ServiceData, ServiceDataView, ZoneConfig,
};
use crate::json::Json;
use crate::record::Record;
use vstd::prelude::*;

verus! {

/// The members that a manifest is read from.
pub open spec fn manifest_fields() -> Set<Seq<char>> {
    set!["uuid"@, "name"@, "path"@, "template"@, "version"@, "master"@, "post_cmd"@]
}

/// The members that a zone configuration is read from.
pub open spec fn zone_config_fields() -> Set<Seq<char>> {
    set!["manifests"@, "metadata"@]
}

/// The members that a service is read from.
pub open spec fn service_fields() -> Set<Seq<char>> {
    set!["uuid"@, "name"@, "application_uuid"@, "params"@, "metadata"@, "master"@]
}

/// The members that an instance is read from.
pub open spec fn instance_fields() -> Set<Seq<char>> {
    set!["uuid"@, "service_uuid"@, "params"@, "metadata"@]
}

/// The members that an application is read from.
pub open spec fn application_fields() -> Set<Seq<char>> {
    set!["uuid"@, "name"@, "owner_uuid"@, "params"@, "metadata"@, "manifests"@]
}

/// The field names are what they spell: no two of those that one record
/// reads are the same text.
proof fn names_differ()
    ensures
        "uuid"@ != "name"@,
        "uuid"@ != "path"@,
        "name"@ != "path"@,
        "params"@ != "master"@,
        "template"@ != "metadata"@,
        "template"@ != "post_cmd"@,
        "uuid"@.len() == 4,
        "name"@.len() == 4,
        "path"@.len() == 4,
        "params"@.len() == 6,
        "master"@.len() == 6,
        "version"@.len() == 7,
        "template"@.len() == 8,
        "metadata"@.len() == 8,
        "post_cmd"@.len() == 8,
        "manifests"@.len() == 9,
        "owner_uuid"@.len() == 10,
        "service_uuid"@.len() == 12,
        "application_uuid"@.len() == 16,
{
    reveal_strlit("uuid");
    reveal_strlit("name");
    reveal_strlit("path");
    reveal_strlit("params");
    reveal_strlit("master");
    reveal_strlit("version");
    reveal_strlit("template");
    reveal_strlit("metadata");
    reveal_strlit("post_cmd");
    reveal_strlit("manifests");
    reveal_strlit("owner_uuid");
    reveal_strlit("service_uuid");
    reveal_strlit("application_uuid");
    assert("uuid"@[0] != "name"@[0]);
    assert("uuid"@[0] != "path"@[0]);
    assert("name"@[0] != "path"@[0]);
    assert("params"@[0] != "master"@[0]);
    assert("template"@[0] != "metadata"@[0]);
    assert("template"@[0] != "post_cmd"@[0]);
}

/// A manifest object decodes to the same record with or without a member
/// that manifests do not name.
pub proof fn manifest_ignores_unknown_field(m: Map<Seq<char>, Json>, key: Seq<char>, x: Json)
    requires
        !manifest_fields().contains(key),
    ensures
        SapiManifests::of_json(Json::Object(m.insert(key, x))) == SapiManifests::of_json(
            Json::Object(m),
        ),
{
}

/// A zone configuration object decodes to the same record with or without a
/// member that zone configurations do not name.
pub proof fn zone_config_ignores_unknown_field(m: Map<Seq<char>, Json>, key: Seq<char>, x: Json)
    requires
        !zone_config_fields().contains(key),
    ensures
        ZoneConfig::of_json(Json::Object(m.insert(key, x))) == ZoneConfig::of_json(
            Json::Object(m),
        ),
{
}

/// A service object decodes to the same record with or without a member
/// that services do not name.
pub proof fn service_ignores_unknown_field(m: Map<Seq<char>, Json>, key: Seq<char>, x: Json)
    requires
        !service_fields().contains(key),
    ensures
        ServiceData::of_json(Json::Object(m.insert(key, x))) == ServiceData::of_json(
            Json::Object(m),
        ),
{
}

/// An instance object decodes to the same record with or without a member
/// that instances do not name.
pub proof fn instance_ignores_unknown_field(m: Map<Seq<char>, Json>, key: Seq<char>, x: Json)
    requires
        !instance_fields().contains(key),
    ensures
        InstanceData::of_json(Json::Object(m.insert(key, x))) == InstanceData::of_json(
            Json::Object(m),
        ),
{
}

/// An application object decodes to the same record with or without a
/// member that applications do not name.
pub proof fn application_ignores_unknown_field(m: Map<Seq<char>, Json>, key: Seq<char>, x: Json)
    requires
        !application_fields().contains(key),
    ensures
        ApplicationData::of_json(Json::Object(m.insert(key, x))) == ApplicationData::of_json(
            Json::Object(m),
        ),
{
}

/// Leaving a defaulted member out of a manifest object that decodes gives
/// an object that decodes too, to the same record with the default in that
/// field: the empty string, or `false` for `master`.
pub proof fn manifest_defaults_when_absent(m: Map<Seq<char>, Json>)
    requires
        SapiManifests::of_json(Json::Object(m)) is Some,
    ensures
        ({
            let r = SapiManifests::of_json(Json::Object(m))->0;
            &&& SapiManifests::of_json(Json::Object(m.remove("name"@))) == Some(
                SapiManifestsView { name: Seq::empty(), ..r },
            )
            &&& SapiManifests::of_json(Json::Object(m.remove("path"@))) == Some(
                SapiManifestsView { path: Seq::empty(), ..r },
            )
            &&& SapiManifests::of_json(Json::Object(m.remove("template"@))) == Some(
                SapiManifestsView { template: Seq::empty(), ..r },
            )
            &&& SapiManifests::of_json(Json::Object(m.remove("version"@))) == Some(
                SapiManifestsView { version: Seq::empty(), ..r },
            )
            &&& SapiManifests::of_json(Json::Object(m.remove("master"@))) == Some(
                SapiManifestsView { master: false, ..r },
            )
            &&& SapiManifests::of_json(Json::Object(m.remove("post_cmd"@))) == Some(
                SapiManifestsView { post_cmd: Seq::empty(), ..r },
            )
        }),
{
    names_differ();
}

/// Leaving an optional member out of a service object that decodes gives an
/// object that decodes too, to the same record with nothing in that field,
/// or `false` for `master`.
pub proof fn service_defaults_when_absent(m: Map<Seq<char>, Json>)
    requires
        ServiceData::of_json(Json::Object(m)) is Some,
    ensures
        ({
            let r = ServiceData::of_json(Json::Object(m))->0;
            &&& ServiceData::of_json(Json::Object(m.remove("params"@))) == Some(
                ServiceDataView { params: None, ..r },
            )
            &&& ServiceData::of_json(Json::Object(m.remove("metadata"@))) == Some(
                ServiceDataView { metadata: None, ..r },
            )
            &&& ServiceData::of_json(Json::Object(m.remove("master"@))) == Some(
                ServiceDataView { master: false, ..r },
            )
        }),
{
    names_differ();
}

/// Leaving an optional member out of an instance object that decodes gives
/// an object that decodes too, to the same record with nothing in that
/// field.
pub proof fn instance_defaults_when_absent(m: Map<Seq<char>, Json>)
    requires
        InstanceData::of_json(Json::Object(m)) is Some,
    ensures
        ({
            let r = InstanceData::of_json(Json::Object(m))->0;
            &&& InstanceData::of_json(Json::Object(m.remove("params"@))) == Some(
                InstanceDataView { params: None, ..r },
            )
            &&& InstanceData::of_json(Json::Object(m.remove("metadata"@))) == Some(
                InstanceDataView { metadata: None, ..r },
            )
        }),
{
    names_differ();
}

/// Leaving an optional member out of an application object that decodes
/// gives an object that decodes too, to the same record with nothing in
/// that field.
pub proof fn application_defaults_when_absent(m: Map<Seq<char>, Json>)
    requires
        ApplicationData::of_json(Json::Object(m)) is Some,
    ensures
        ({
            let r = ApplicationData::of_json(Json::Object(m))->0;
            &&& ApplicationData::of_json(Json::Object(m.remove("params"@))) == Some(
                ApplicationDataView { params: None, ..r },
            )
            &&& ApplicationData::of_json(Json::Object(m.remove("metadata"@))) == Some(
                ApplicationDataView { metadata: None, ..r },
            )
            &&& ApplicationData::of_json(Json::Object(m.remove("manifests"@))) == Some(
                ApplicationDataView { manifests: None, ..r },
            )
        }),
{
    names_differ();
}

} // verus!
