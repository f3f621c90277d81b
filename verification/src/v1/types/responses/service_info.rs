//! Responses related to the service itself, with accessor methods.

use vstd::prelude::*;
use crate::v1::json::{jv, Json, JsonV};
use crate::v1::types::responses::service::{
    service_info_decodable, service_info_fields_match, service_type_jv, organization_jv,
};
use crate::v1::types::responses::{ovs, ovsv};

pub mod builder;

pub use builder::Builder;

verus! {

/// The protocol version implemented.
pub const TES_VERSION: &'static str = "1.1.0";

/// Names of specifications supported.
///
/// For a task execution service this can only be `"tes"`, but the protocol
/// still lists it as an enumeration.
#[derive(Copy, Clone, Debug, Eq, PartialEq, Structural)]
pub enum Artifact {
    /// A task execution service.
    TaskExecutionService,
}

impl Default for Artifact {
    /// The only artifact there is.
    fn default() -> (r: Self)
        ensures
            r == Artifact::TaskExecutionService,
    {
        Artifact::TaskExecutionService
    }
}

/// An organization providing a service.
#[derive(Clone, Debug, Eq, PartialEq)]
pub struct Organization {
    /// The organization name.
    pub name: String,

    /// A URL for the organization, kept in the normalized serialization
    /// the `url` crate gives it.
    pub url: String,
}

/// A type of service.
#[derive(Clone, Debug, Default, Eq, PartialEq)]
pub struct ServiceType {
    /// Namespace in reverse domain name format.
    pub group: String,

    /// Name of the specification implemented.
    pub artifact: Artifact,

    /// The version of the specification being implemented.
    pub version: String,
}

/// A set of service information for the server.
#[derive(Clone, Debug, Eq, PartialEq)]
pub struct ServiceInfo {
    /// A unique identifier for the service.
    id: String,

    /// Human-readable name of the service.
    name: String,

    /// The type of the service.
    ty: ServiceType,

    /// An optional description of the service.
    description: Option<String>,

    /// The organization running the service.
    organization: Organization,

    /// An optional contact URL.
    contact_url: Option<String>,

    /// An optional documentation URL, kept normalized.
    documentation_url: Option<String>,

    /// Timestamp when the service was first available, as an RFC 3339
    /// text.
    created_at: Option<String>,

    /// Timestamp when the service was last updated, as an RFC 3339 text.
    updated_at: Option<String>,

    /// An optional string describing the environment that the service is
    /// running within.
    environment: Option<String>,

    /// The version of the service.
    version: String,

    /// Some, but not necessarily all, storage locations supported by the
    /// service.
    storage: Option<Vec<String>>,
}

/// Whether a [`ServiceInfo`] holds what a document says.
pub open spec fn info_matches(si: ServiceInfo, j: JsonV) -> bool {
    &&& si.spec_artifact() == Artifact::TaskExecutionService
    &&& service_info_fields_match(
        si.spec_id(),
        si.spec_name(),
        si.spec_group(),
        si.spec_tes_version(),
        si.spec_description(),
        si.spec_org_name(),
        si.spec_org_url(),
        si.spec_contact_url(),
        si.spec_documentation_url(),
        si.spec_created_at(),
        si.spec_updated_at(),
        si.spec_environment(),
        si.spec_version(),
        si.spec_storage(),
        j,
    )
}

impl ServiceInfo {
    /// The identifier.
    pub closed spec fn spec_id(&self) -> Seq<char> {
        self.id@
    }

    /// The name.
    pub closed spec fn spec_name(&self) -> Seq<char> {
        self.name@
    }

    /// The service type's group.
    pub closed spec fn spec_group(&self) -> Seq<char> {
        self.ty.group@
    }

    /// The service type's artifact.
    pub closed spec fn spec_artifact(&self) -> Artifact {
        self.ty.artifact
    }

    /// The service type's protocol version.
    pub closed spec fn spec_tes_version(&self) -> Seq<char> {
        self.ty.version@
    }

    /// The description.
    pub closed spec fn spec_description(&self) -> Option<Seq<char>> {
        ovs(self.description)
    }

    /// The organization name.
    pub closed spec fn spec_org_name(&self) -> Seq<char> {
        self.organization.name@
    }

    /// The organization URL.
    pub closed spec fn spec_org_url(&self) -> Seq<char> {
        self.organization.url@
    }

    /// The contact URL.
    pub closed spec fn spec_contact_url(&self) -> Option<Seq<char>> {
        ovs(self.contact_url)
    }

    /// The documentation URL.
    pub closed spec fn spec_documentation_url(&self) -> Option<Seq<char>> {
        ovs(self.documentation_url)
    }

    /// The creation time.
    pub closed spec fn spec_created_at(&self) -> Option<Seq<char>> {
        ovs(self.created_at)
    }

    /// The update time.
    pub closed spec fn spec_updated_at(&self) -> Option<Seq<char>> {
        ovs(self.updated_at)
    }

    /// The environment.
    pub closed spec fn spec_environment(&self) -> Option<Seq<char>> {
        ovs(self.environment)
    }

    /// The service version.
    pub closed spec fn spec_version(&self) -> Seq<char> {
        self.version@
    }

    /// The storage locations.
    pub closed spec fn spec_storage(&self) -> Option<Seq<Seq<char>>> {
        ovsv(self.storage)
    }

    /// Assembles service information from its parts; the builder calls
    /// this after checking for the required parts.
    pub fn from_parts(
        id: String,
        name: String,
        ty: ServiceType,
        description: Option<String>,
        organization: Organization,
        contact_url: Option<String>,
        documentation_url: Option<String>,
        created_at: Option<String>,
        updated_at: Option<String>,
        environment: Option<String>,
        version: String,
        storage: Option<Vec<String>>,
    ) -> (r: ServiceInfo)
        ensures
            r.spec_id() == id@,
            r.spec_name() == name@,
            r.spec_group() == ty.group@,
            r.spec_artifact() == ty.artifact,
            r.spec_tes_version() == ty.version@,
            r.spec_description() == ovs(description),
            r.spec_org_name() == organization.name@,
            r.spec_org_url() == organization.url@,
            r.spec_contact_url() == ovs(contact_url),
            r.spec_documentation_url() == ovs(documentation_url),
            r.spec_created_at() == ovs(created_at),
            r.spec_updated_at() == ovs(updated_at),
            r.spec_environment() == ovs(environment),
            r.spec_version() == version@,
            r.spec_storage() == ovsv(storage),
    {
        ServiceInfo {
            id,
            name,
            ty,
            description,
            organization,
            contact_url,
            documentation_url,
            created_at,
            updated_at,
            environment,
            version,
            storage,
        }
    }

    /// Gets the identifier.
    pub fn id(&self) -> (r: &str)
        ensures
            r@ == self.spec_id(),
    {
        self.id.as_str()
    }

    /// Gets the name.
    pub fn name(&self) -> (r: &str)
        ensures
            r@ == self.spec_name(),
    {
        self.name.as_str()
    }

    /// Gets the service type.
    pub fn ty(&self) -> (r: &ServiceType)
        ensures
            r.group@ == self.spec_group(),
            r.artifact == self.spec_artifact(),
            r.version@ == self.spec_tes_version(),
    {
        &self.ty
    }

    /// Gets the description.
    pub fn description(&self) -> (r: Option<&str>)
        ensures
            match r {
                Some(s) => self.spec_description() == Some(s@),
                None => self.spec_description() is None,
            },
    {
        match &self.description {
            Some(s) => Some(s.as_str()),
            None => None,
        }
    }

    /// Gets the organization.
    pub fn organization(&self) -> (r: &Organization)
        ensures
            r.name@ == self.spec_org_name(),
            r.url@ == self.spec_org_url(),
    {
        &self.organization
    }

    /// Gets the contact URL.
    pub fn contact_url(&self) -> (r: Option<&str>)
        ensures
            match r {
                Some(s) => self.spec_contact_url() == Some(s@),
                None => self.spec_contact_url() is None,
            },
    {
        match &self.contact_url {
            Some(s) => Some(s.as_str()),
            None => None,
        }
    }

    /// Gets the documentation URL.
    pub fn documentation_url(&self) -> (r: Option<&String>)
        ensures
            match r {
                Some(s) => self.spec_documentation_url() == Some(s@),
                None => self.spec_documentation_url() is None,
            },
    {
        self.documentation_url.as_ref()
    }

    /// Gets the creation time, as an RFC 3339 text.
    pub fn created_at(&self) -> (r: Option<&String>)
        ensures
            match r {
                Some(s) => self.spec_created_at() == Some(s@),
                None => self.spec_created_at() is None,
            },
    {
        self.created_at.as_ref()
    }

    /// Gets the update time, as an RFC 3339 text.
    pub fn updated_at(&self) -> (r: Option<&String>)
        ensures
            match r {
                Some(s) => self.spec_updated_at() == Some(s@),
                None => self.spec_updated_at() is None,
            },
    {
        self.updated_at.as_ref()
    }

    /// Gets the environment.
    pub fn environment(&self) -> (r: Option<&String>)
        ensures
            match r {
                Some(s) => self.spec_environment() == Some(s@),
                None => self.spec_environment() is None,
            },
    {
        self.environment.as_ref()
    }

    /// Gets the service version.
    pub fn version(&self) -> (r: &str)
        ensures
            r@ == self.spec_version(),
    {
        self.version.as_str()
    }

    /// Gets the storage locations.
    pub fn storage(&self) -> (r: Option<&Vec<String>>)
        ensures
            match r {
                Some(v) => self.spec_storage() == Some(
                    crate::v1::types::responses::str_views(v@),
                ),
                None => self.spec_storage() is None,
            },
    {
        self.storage.as_ref()
    }

    /// Decodes a service-info document; the URLs must be ones the `url`
    /// crate accepts, and are kept normalized.
    pub fn from_json(j: &Json) -> (r: Option<ServiceInfo>)
        ensures
            r is Some <==> service_info_decodable(j@),
            r matches Some(si) ==> info_matches(si, j@),
    {
        match crate::v1::types::responses::service::ServiceInfo::from_json(j) {
            None => None,
            Some(si) => Some(
                ServiceInfo {
                    id: si.id,
                    name: si.name,
                    ty: ServiceType {
                        group: si.ty.group,
                        artifact: Artifact::TaskExecutionService,
                        version: si.ty.version,
                    },
                    description: si.description,
                    organization: Organization {
                        name: si.organization.name,
                        url: si.organization.url,
                    },
                    contact_url: si.contact_url,
                    documentation_url: si.documentation_url,
                    created_at: si.created_at,
                    updated_at: si.updated_at,
                    environment: si.environment,
                    version: si.version,
                    storage: si.storage,
                },
            ),
        }
    }

    /// The document the service information is written as: the same
    /// layout as the plain service-info shape.
    pub closed spec fn spec_jv(&self) -> JsonV {
        crate::v1::types::responses::service::service_info_jv(
            crate::v1::types::responses::service::ServiceInfo {
                id: self.id,
                name: self.name,
                ty: crate::v1::types::responses::service::ServiceType {
                    group: self.ty.group,
                    artifact: crate::v1::types::responses::service::Artifact::TaskExecutionService,
                    version: self.ty.version,
                },
                description: self.description,
                organization: crate::v1::types::responses::service::Organization {
                    name: self.organization.name,
                    url: self.organization.url,
                },
                contact_url: self.contact_url,
                documentation_url: self.documentation_url,
                created_at: self.created_at,
                updated_at: self.updated_at,
                environment: self.environment,
                version: self.version,
                storage: self.storage,
            },
        )
    }

    /// Writes the service information as a document.
    pub fn to_json(&self) -> (r: Json)
        ensures
            jv(r) == self.spec_jv(),
    {
        let plain = crate::v1::types::responses::service::ServiceInfo {
            id: self.id.clone(),
            name: self.name.clone(),
            ty: crate::v1::types::responses::service::ServiceType {
                group: self.ty.group.clone(),
                artifact: crate::v1::types::responses::service::Artifact::TaskExecutionService,
                version: self.ty.version.clone(),
            },
            description: clone_opt_string(&self.description),
            organization: crate::v1::types::responses::service::Organization {
                name: self.organization.name.clone(),
                url: self.organization.url.clone(),
            },
            contact_url: clone_opt_string(&self.contact_url),
            documentation_url: clone_opt_string(&self.documentation_url),
            created_at: clone_opt_string(&self.created_at),
            updated_at: clone_opt_string(&self.updated_at),
            environment: clone_opt_string(&self.environment),
            version: self.version.clone(),
            storage: clone_opt_strings(&self.storage),
        };
        let r = plain.to_json();
        proof {
            assert(crate::v1::types::responses::service::service_info_jv(plain)
                == self.spec_jv());
        }
        r
    }

    /// Writes the service information as JSON text, in the compact form.
    pub fn body_string(&self) -> (r: String)
        ensures
            r@ == crate::v1::json::spec_enc(self.spec_jv()),
    {
        let d = self.to_json();
        crate::v1::json::encode_json(&d)
    }
}

/// A copy of an optional string.
fn clone_opt_string(v: &Option<String>) -> (r: Option<String>)
    ensures
        ovs(r) == ovs(*v),
{
    match v {
        Some(s) => Some(s.clone()),
        None => None,
    }
}

/// A copy of an optional string list, holding the same texts.
#[verifier::loop_isolation(false)]
fn clone_opt_strings(v: &Option<Vec<String>>) -> (r: Option<Vec<String>>)
    ensures
        ovsv(r) == ovsv(*v),
{
    match v {
        None => None,
        Some(items) => {
            let n = items.len();
            let mut out: Vec<String> = Vec::new();
            let mut i: usize = 0;
            while i < n
                invariant
                    i <= n,
                    n == items@.len(),
                    out@.len() == i,
                    forall|m: int| 0 <= m < i ==> (#[trigger] out@[m])@ == items@[m]@,
                decreases n - i,
            {
                out.push(items[i].clone());
                i = i + 1;
            }
            proof {
                assert(crate::v1::types::responses::str_views(out@)
                    =~= crate::v1::types::responses::str_views(items@));
            }
            Some(out)
        },
    }
}

} // verus!
