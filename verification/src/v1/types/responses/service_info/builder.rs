//! Builders for service information.

use vstd::prelude::*;
use crate::v1::types::responses::ovs;
use crate::v1::types::responses::service_info::{
    Artifact, Organization, ServiceInfo, ServiceType, TES_VERSION,
};

verus! {

/// The group every service belongs to, as the protocol dictates.
pub const DEFAULT_GROUP: &'static str = "org.ga4gh";

/// An error related to a [`Builder`].
#[derive(Copy, Clone, Debug, PartialEq, Eq)]
pub enum Error {
    /// A required value was missing for a builder field.
    Missing(&'static str),
}

impl Error {
    /// The error, described for a reader.
    pub fn message(&self) -> (r: String)
        ensures
            *self matches Error::Missing(f) ==> r@ == "missing required value for '"@ + f@
                + "' in a service information builder"@,
    {
        match self {
            Error::Missing(f) => {
                let mut out: Vec<char> = Vec::new();
                crate::v1::json::push_chars(&mut out, "missing required value for '");
                crate::v1::json::push_chars(&mut out, f);
                crate::v1::json::push_chars(&mut out, "' in a service information builder");
                crate::v1::json::chars_to_string(&out)
            },
        }
    }
}

/// A builder for a [`ServiceInfo`].
#[derive(Clone, Debug, Default)]
pub struct Builder {
    /// The unique identifier for this service. Reverse domain name
    /// notation is recommended though not required.
    pub id: Option<String>,

    /// The human readable name of the service.
    pub name: Option<String>,

    /// The protocol version this service supports.
    pub tes_version: Option<String>,

    /// A human readable description of the service.
    pub description: Option<String>,

    /// The name of the organization running this service.
    pub org_name: Option<String>,

    /// A URL that describes the organization.
    pub org_url: Option<String>,

    /// A contact URL; generally a `mailto:`.
    pub contact_url: Option<String>,

    /// A documentation URL.
    pub documentation_url: Option<String>,

    /// Timestamp when the service was first available, as an RFC 3339
    /// text.
    pub created_at: Option<String>,

    /// Timestamp when the service was last updated, as an RFC 3339 text.
    pub updated_at: Option<String>,

    /// The environment the service runs within: usually one of
    /// production, development, or test.
    pub environment: Option<String>,

    /// The version of the service itself.
    pub version: Option<String>,

    /// A list of storage locations supported by the service, not
    /// necessarily all of them.
    pub storage: Option<Vec<String>>,
}

impl Builder {
    /// Sets the identifier for the service.
    ///
    /// This silently overrides any previously set identifier.
    pub fn id(self, value: String) -> (r: Self)
        ensures
            r == (Builder { id: Some(value), ..self }),
    {
        Builder { id: Some(value), ..self }
    }

    /// Sets the name for the service.
    ///
    /// This silently overrides any previously set name.
    pub fn name(self, value: String) -> (r: Self)
        ensures
            r == (Builder { name: Some(value), ..self }),
    {
        Builder { name: Some(value), ..self }
    }

    /// Sets the protocol version for the service.
    ///
    /// This silently overrides any previously set protocol version.
    pub fn tes_version(self, value: String) -> (r: Self)
        ensures
            r == (Builder { tes_version: Some(value), ..self }),
    {
        Builder { tes_version: Some(value), ..self }
    }

    /// Sets the description for the service.
    ///
    /// This silently overrides any previously set description.
    pub fn description(self, value: String) -> (r: Self)
        ensures
            r == (Builder { description: Some(value), ..self }),
    {
        Builder { description: Some(value), ..self }
    }

    /// Sets the organization name for the service.
    ///
    /// This silently overrides any previously set organization name.
    pub fn org_name(self, value: String) -> (r: Self)
        ensures
            r == (Builder { org_name: Some(value), ..self }),
    {
        Builder { org_name: Some(value), ..self }
    }

    /// Sets the organization URL for the service, given as the
    /// serialization of a URL.
    ///
    /// This silently overrides any previously set organization URL.
    pub fn org_url(self, value: String) -> (r: Self)
        ensures
            r == (Builder { org_url: Some(value), ..self }),
    {
        Builder { org_url: Some(value), ..self }
    }

    /// Sets the contact URL for the service.
    ///
    /// This silently overrides any previously set contact URL.
    pub fn contact_url(self, value: String) -> (r: Self)
        ensures
            r == (Builder { contact_url: Some(value), ..self }),
    {
        Builder { contact_url: Some(value), ..self }
    }

    /// Sets the documentation URL for the service, given as the
    /// serialization of a URL.
    ///
    /// This silently overrides any previously set documentation URL.
    pub fn documentation_url(self, value: String) -> (r: Self)
        ensures
            r == (Builder { documentation_url: Some(value), ..self }),
    {
        Builder { documentation_url: Some(value), ..self }
    }

    /// Sets the creation time for the service, as an RFC 3339 text.
    ///
    /// This silently overrides any previously set creation time.
    pub fn created_at(self, value: String) -> (r: Self)
        ensures
            r == (Builder { created_at: Some(value), ..self }),
    {
        Builder { created_at: Some(value), ..self }
    }

    /// Sets the updated time for the service, as an RFC 3339 text.
    ///
    /// This silently overrides any previously set updated time.
    pub fn updated_at(self, value: String) -> (r: Self)
        ensures
            r == (Builder { updated_at: Some(value), ..self }),
    {
        Builder { updated_at: Some(value), ..self }
    }

    /// Sets the environment for the service.
    ///
    /// This silently overrides any previously set environment.
    pub fn environment(self, value: String) -> (r: Self)
        ensures
            r == (Builder { environment: Some(value), ..self }),
    {
        Builder { environment: Some(value), ..self }
    }

    /// Sets the version for the service.
    ///
    /// This silently overrides any previously set version.
    pub fn version(self, value: String) -> (r: Self)
        ensures
            r == (Builder { version: Some(value), ..self }),
    {
        Builder { version: Some(value), ..self }
    }

    /// Sets the storage locations for the service.
    ///
    /// This silently overrides any previously set storage locations.
    pub fn storage(self, value: Vec<String>) -> (r: Self)
        ensures
            r == (Builder { storage: Some(value), ..self }),
    {
        Builder { storage: Some(value), ..self }
    }

    /// Consumes `self` and attempts to build a [`ServiceInfo`].
    ///
    /// The identifier, the name, the organization name, the organization
    /// URL and the version are required, and checked in that order; the
    /// protocol version falls back to [`TES_VERSION`] and the group is
    /// always the protocol's own.
    pub fn try_build(self) -> (r: Result<ServiceInfo, Error>)
        ensures
            r is Ok <==> (self.id is Some && self.name is Some && self.org_name is Some
                && self.org_url is Some && self.version is Some),
            r matches Err(e) ==> e == (if self.id is None {
                Error::Missing("id")
            } else if self.name is None {
                Error::Missing("name")
            } else if self.org_name is None {
                Error::Missing("organization name")
            } else if self.org_url is None {
                Error::Missing("organization URL")
            } else {
                Error::Missing("version")
            }),
            r matches Ok(si) ==> {
                &&& Some(si.spec_id()) == ovs(self.id)
                &&& Some(si.spec_name()) == ovs(self.name)
                &&& si.spec_group() == DEFAULT_GROUP@
                &&& si.spec_artifact() == Artifact::TaskExecutionService
                &&& si.spec_tes_version() == (match self.tes_version {
                    Some(v) => v@,
                    None => TES_VERSION@,
                })
                &&& si.spec_description() == ovs(self.description)
                &&& Some(si.spec_org_name()) == ovs(self.org_name)
                &&& Some(si.spec_org_url()) == ovs(self.org_url)
                &&& si.spec_contact_url() == ovs(self.contact_url)
                &&& si.spec_documentation_url() == ovs(self.documentation_url)
                &&& si.spec_created_at() == ovs(self.created_at)
                &&& si.spec_updated_at() == ovs(self.updated_at)
                &&& si.spec_environment() == ovs(self.environment)
                &&& Some(si.spec_version()) == ovs(self.version)
                &&& si.spec_storage() == crate::v1::types::responses::ovsv(self.storage)
            },
    {
        let id = match self.id {
            Some(v) => v,
            None => {
                return Err(Error::Missing("id"));
            },
        };
        let name = match self.name {
            Some(v) => v,
            None => {
                return Err(Error::Missing("name"));
            },
        };
        let ty = ServiceType {
            // This group is dictated by the protocol.
            group: String::from_str(DEFAULT_GROUP),
            artifact: Artifact::TaskExecutionService,
            version: match self.tes_version {
                Some(v) => v,
                None => String::from_str(TES_VERSION),
            },
        };
        let org_name = match self.org_name {
            Some(v) => v,
            None => {
                return Err(Error::Missing("organization name"));
            },
        };
        let org_url = match self.org_url {
            Some(v) => v,
            None => {
                return Err(Error::Missing("organization URL"));
            },
        };
        let organization = Organization { name: org_name, url: org_url };
        let version = match self.version {
            Some(v) => v,
            None => {
                return Err(Error::Missing("version"));
            },
        };
        Ok(
            ServiceInfo::from_parts(
                id,
                name,
                ty,
                self.description,
                organization,
                self.contact_url,
                self.documentation_url,
                self.created_at,
                self.updated_at,
                self.environment,
                version,
                self.storage,
            ),
        )
    }
}

} // verus!
