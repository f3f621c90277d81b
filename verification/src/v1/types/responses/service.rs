//! Responses related to the service itself.

use vstd::prelude::*;
use crate::v1::client::builder::{parse_url_text, url_normalized, url_parse_ok};
use crate::v1::json::{jget, jv, jv_members, Json, JsonV};
use crate::v1::types::responses::{
    get_opt_str, get_opt_str_arr, get_opt_ts, get_req_str, opt_str_arr_ok, opt_str_arr_val,
    opt_str_ok, opt_str_val, opt_ts_ok, ovs, ovsv, req_str_ok, req_str_val, str_views,
};
use crate::v1::types::task::{jstr, m_null, m_one, push_member, str_arr_jv, str_vec_to_json};

verus! {

/// Names of specifications supported.
///
/// For a task execution service this can only be `"tes"`, but the protocol
/// still lists it as an enumeration.
#[derive(Copy, Clone, Debug, Eq, PartialEq, Structural)]
pub enum Artifact {
    /// A task execution service.
    TaskExecutionService,
}

impl Default for Artifact {
    /// The only artifact there is.
    fn default() -> (r: Self)
        ensures
            r == Artifact::TaskExecutionService,
    {
        Artifact::TaskExecutionService
    }
}

/// An organization providing a service.
#[derive(Debug, Eq, PartialEq)]
pub struct Organization {
    /// The organization name.
    pub name: String,

    /// A URL for the organization, kept in the normalized serialization the
    /// `url` crate gives it.
    pub url: String,
}

/// Whether an organization document has the right shape: a `name` and a
/// `url`, both strings. Whether the URL text parses is decided by the `url`
/// crate when decoding.
pub open spec fn organization_shape_ok(v: JsonV) -> bool {
    v is Obj && req_str_ok(v, "name"@) && req_str_ok(v, "url"@)
}

/// Whether an organization document decodes: the right shape, with a URL
/// text the `url` crate accepts.
pub open spec fn organization_decodable(v: JsonV) -> bool {
    organization_shape_ok(v) && url_parse_ok(req_str_val(v, "url"@))
}

/// Whether an [`Organization`] holds what the document says, its URL
/// normalized.
pub open spec fn organization_matches(o: Organization, v: JsonV) -> bool {
    o.name@ == req_str_val(v, "name"@) && o.url@ == url_normalized(req_str_val(v, "url"@))
}

/// The document an [`Organization`] is written as.
pub open spec fn organization_jv(o: Organization) -> JsonV {
    JsonV::Obj(m_one("name"@, JsonV::Str(o.name@)) + m_one("url"@, JsonV::Str(o.url@)))
}

impl Organization {
    /// Decodes an organization. The URL text must be a URL the `url` crate
    /// accepts; it is kept normalized.
    pub fn from_json(v: &Json) -> (r: Option<Organization>)
        ensures
            r is Some <==> organization_decodable(v@),
            r matches Some(o) ==> organization_matches(o, v@),
    {
        if !matches!(v, Json::Obj(_)) {
            return None;
        }
        let name = get_req_str(v, "name")?;
        let raw = get_req_str(v, "url")?;
        let url = parse_url_text(raw.as_str())?;
        Some(Organization { name, url })
    }

    /// Writes the organization as a document.
    pub fn to_json(&self) -> (r: Json)
        ensures
            jv(r) == organization_jv(*self),
    {
        let mut ms: Vec<(String, Json)> = Vec::new();
        proof {
            assert(jv_members(ms@) =~= Seq::<(Seq<char>, JsonV)>::empty());
        }
        push_member(&mut ms, "name", Json::Str(self.name.clone()));
        push_member(&mut ms, "url", Json::Str(self.url.clone()));
        proof {
            assert(jv_members(ms@) =~= organization_jv(*self)->Obj_0);
        }
        Json::Obj(ms)
    }
}

/// A type of service.
#[derive(Debug, Eq, PartialEq)]
pub struct ServiceType {
    /// Namespace in reverse domain name format.
    pub group: String,

    /// Name of the specification implemented.
    pub artifact: Artifact,

    /// The version of the specification being implemented.
    pub version: String,
}

/// Whether a service-type document has the right shape: a `group`, the
/// `tes` artifact, and a `version`.
pub open spec fn service_type_shape_ok(v: JsonV) -> bool {
    &&& v is Obj
    &&& req_str_ok(v, "group"@)
    &&& jget(v, "artifact"@) matches Some(a) && a matches JsonV::Str(t) && t == "tes"@
    &&& req_str_ok(v, "version"@)
}

/// Whether a [`ServiceType`] holds what the document says.
pub open spec fn service_type_matches(t: ServiceType, v: JsonV) -> bool {
    &&& t.group@ == req_str_val(v, "group"@)
    &&& t.artifact == Artifact::TaskExecutionService
    &&& t.version@ == req_str_val(v, "version"@)
}

/// The document a [`ServiceType`] is written as.
pub open spec fn service_type_jv(t: ServiceType) -> JsonV {
    JsonV::Obj(
        m_one("group"@, JsonV::Str(t.group@)) + m_one("artifact"@, JsonV::Str("tes"@)) + m_one(
            "version"@,
            JsonV::Str(t.version@),
        ),
    )
}

impl ServiceType {
    /// Decodes a service type.
    pub fn from_json(v: &Json) -> (r: Option<ServiceType>)
        ensures
            r is Some <==> service_type_shape_ok(v@),
            r matches Some(t) ==> service_type_matches(t, v@),
    {
        if !matches!(v, Json::Obj(_)) {
            return None;
        }
        let group = get_req_str(v, "group")?;
        let artifact_tok = get_req_str(v, "artifact")?;
        if !crate::v1::json::str_eq(artifact_tok.as_str(), "tes") {
            return None;
        }
        let version = get_req_str(v, "version")?;
        Some(ServiceType { group, artifact: Artifact::TaskExecutionService, version })
    }

    /// Writes the service type as a document.
    pub fn to_json(&self) -> (r: Json)
        ensures
            jv(r) == service_type_jv(*self),
    {
        let mut ms: Vec<(String, Json)> = Vec::new();
        proof {
            assert(jv_members(ms@) =~= Seq::<(Seq<char>, JsonV)>::empty());
        }
        push_member(&mut ms, "group", Json::Str(self.group.clone()));
        push_member(&mut ms, "artifact", Json::Str(String::from_str("tes")));
        push_member(&mut ms, "version", Json::Str(self.version.clone()));
        proof {
            assert(jv_members(ms@) =~= service_type_jv(*self)->Obj_0);
        }
        Json::Obj(ms)
    }
}

/// A set of service information for the server.
#[derive(Debug, Eq, PartialEq)]
pub struct ServiceInfo {
    /// A unique identifier for the service.
    pub id: String,

    /// Human-readable name of the service.
    pub name: String,

    /// The type of the service.
    pub ty: ServiceType,

    /// An optional description of the service.
    pub description: Option<String>,

    /// The organization running the service.
    pub organization: Organization,

    /// An optional contact URL.
    pub contact_url: Option<String>,

    /// An optional documentation URL, kept in the normalized serialization
    /// the `url` crate gives it.
    pub documentation_url: Option<String>,

    /// Timestamp when the service was first available, as an RFC 3339
    /// text.
    pub created_at: Option<String>,

    /// Timestamp when the service was last updated, as an RFC 3339 text.
    pub updated_at: Option<String>,

    /// An optional string describing the environment that the service is
    /// running within.
    pub environment: Option<String>,

    /// The version of the service.
    pub version: String,

    /// Some, but not necessarily all, storage locations supported by the
    /// service.
    pub storage: Option<Vec<String>>,
}

/// Whether a service-info document has the right shape. Whether its URL
/// texts parse is decided by the `url` crate when decoding.
pub open spec fn service_info_shape_ok(j: JsonV) -> bool {
    &&& j is Obj
    &&& req_str_ok(j, "id"@)
    &&& req_str_ok(j, "name"@)
    &&& jget(j, "type"@) matches Some(tv) && service_type_shape_ok(tv)
    &&& opt_str_ok(j, "description"@)
    &&& jget(j, "organization"@) matches Some(ov) && organization_shape_ok(ov)
    &&& opt_str_ok(j, "contactUrl"@)
    &&& opt_str_ok(j, "documentationUrl"@)
    &&& opt_ts_ok(j, "createdAt"@)
    &&& opt_ts_ok(j, "updatedAt"@)
    &&& opt_str_ok(j, "environment"@)
    &&& req_str_ok(j, "version"@)
    &&& opt_str_arr_ok(j, "storage"@)
}

/// Whether a service-info document decodes: the right shape, with URL
/// texts the `url` crate accepts for the organization and, where present,
/// the documentation.
pub open spec fn service_info_decodable(j: JsonV) -> bool {
    &&& service_info_shape_ok(j)
    &&& jget(j, "organization"@) matches Some(ov) && url_parse_ok(req_str_val(ov, "url"@))
    &&& (match opt_str_val(j, "documentationUrl"@) {
        None => true,
        Some(raw) => url_parse_ok(raw),
    })
}

/// Whether the fields of a decoded service-info document hold what the
/// document says, URLs normalized. The artifact of the service type is
/// checked by the shape already: it can only be `tes`.
pub open spec fn service_info_fields_match(
    id: Seq<char>,
    name: Seq<char>,
    ty_group: Seq<char>,
    ty_version: Seq<char>,
    description: Option<Seq<char>>,
    org_name: Seq<char>,
    org_url: Seq<char>,
    contact_url: Option<Seq<char>>,
    documentation_url: Option<Seq<char>>,
    created_at: Option<Seq<char>>,
    updated_at: Option<Seq<char>>,
    environment: Option<Seq<char>>,
    version: Seq<char>,
    storage: Option<Seq<Seq<char>>>,
    j: JsonV,
) -> bool {
    &&& id == req_str_val(j, "id"@)
    &&& name == req_str_val(j, "name"@)
    &&& jget(j, "type"@) matches Some(tv) && ty_group == req_str_val(tv, "group"@) && ty_version
        == req_str_val(tv, "version"@)
    &&& description == opt_str_val(j, "description"@)
    &&& jget(j, "organization"@) matches Some(ov) && org_name == req_str_val(ov, "name"@)
        && org_url == url_normalized(req_str_val(ov, "url"@))
    &&& contact_url == opt_str_val(j, "contactUrl"@)
    &&& (match opt_str_val(j, "documentationUrl"@) {
        None => documentation_url is None,
        Some(raw) => documentation_url matches Some(u) && u == url_normalized(raw),
    })
    &&& created_at == opt_str_val(j, "createdAt"@)
    &&& updated_at == opt_str_val(j, "updatedAt"@)
    &&& environment == opt_str_val(j, "environment"@)
    &&& version == req_str_val(j, "version"@)
    &&& storage == opt_str_arr_val(j, "storage"@)
}

/// Whether a [`ServiceInfo`] holds what the document says.
pub open spec fn service_info_matches(si: ServiceInfo, j: JsonV) -> bool {
    &&& si.ty.artifact == Artifact::TaskExecutionService
    &&& service_info_fields_match(
        si.id@,
        si.name@,
        si.ty.group@,
        si.ty.version@,
        ovs(si.description),
        si.organization.name@,
        si.organization.url@,
        ovs(si.contact_url),
        ovs(si.documentation_url),
        ovs(si.created_at),
        ovs(si.updated_at),
        ovs(si.environment),
        si.version@,
        ovsv(si.storage),
        j,
    )
}

/// The document a [`ServiceInfo`] is written as: every field is emitted,
/// in the protocol's key spelling, the absent ones as `null`.
pub open spec fn service_info_jv(si: ServiceInfo) -> JsonV {
    JsonV::Obj(
        m_one("id"@, JsonV::Str(si.id@)) + m_one("name"@, JsonV::Str(si.name@)) + m_one(
            "type"@,
            service_type_jv(si.ty),
        ) + m_null("description"@, jstr(ovs(si.description))) + m_one(
            "organization"@,
            organization_jv(si.organization),
        ) + m_null("contactUrl"@, jstr(ovs(si.contact_url))) + m_null(
            "documentationUrl"@,
            jstr(ovs(si.documentation_url)),
        ) + m_null("createdAt"@, jstr(ovs(si.created_at))) + m_null(
            "updatedAt"@,
            jstr(ovs(si.updated_at)),
        ) + m_null("environment"@, jstr(ovs(si.environment))) + m_one(
            "version"@,
            JsonV::Str(si.version@),
        ) + m_null(
            "storage"@,
            match si.storage {
                Some(ref v) => Some(str_arr_jv(str_views(v@))),
                None => None,
            },
        ),
    )
}

impl ServiceInfo {
    /// Decodes a service-info document. The organization URL and the
    /// documentation URL must be URLs the `url` crate accepts; they are
    /// kept normalized.
    pub fn from_json(j: &Json) -> (r: Option<ServiceInfo>)
        ensures
            r is Some <==> service_info_decodable(j@),
            r matches Some(si) ==> service_info_matches(si, j@),
    {
        if !matches!(j, Json::Obj(_)) {
            return None;
        }
        let id = get_req_str(j, "id")?;
        let name = get_req_str(j, "name")?;
        let ty = match crate::v1::json::obj_get(j, "type") {
            Some(tv) => ServiceType::from_json(tv)?,
            None => {
                return None;
            },
        };
        let description = get_opt_str(j, "description")?;
        let organization = match crate::v1::json::obj_get(j, "organization") {
            Some(ov) => Organization::from_json(ov)?,
            None => {
                return None;
            },
        };
        let contact_url = get_opt_str(j, "contactUrl")?;
        let documentation_url = match get_opt_str(j, "documentationUrl")? {
            None => None,
            Some(raw) => Some(parse_url_text(raw.as_str())?),
        };
        let created_at = get_opt_ts(j, "createdAt")?;
        let updated_at = get_opt_ts(j, "updatedAt")?;
        let environment = get_opt_str(j, "environment")?;
        let version = get_req_str(j, "version")?;
        let storage = get_opt_str_arr(j, "storage")?;
        Some(
            ServiceInfo {
                id,
                name,
                ty,
                description,
                organization,
                contact_url,
                documentation_url,
                created_at,
                updated_at,
                environment,
                version,
                storage,
            },
        )
    }

    /// Writes the service information as a document.
    #[verifier::rlimit(100)]
    pub fn to_json(&self) -> (r: Json)
        ensures
            jv(r) == service_info_jv(*self),
    {
        let ghost g1 = m_one("id"@, JsonV::Str(self.id@));
        let ghost g2 = m_one("name"@, JsonV::Str(self.name@));
        let ghost g3 = m_one("type"@, service_type_jv(self.ty));
        let ghost g4 = m_null("description"@, jstr(ovs(self.description)));
        let ghost g5 = m_one("organization"@, organization_jv(self.organization));
        let ghost g6 = m_null("contactUrl"@, jstr(ovs(self.contact_url)));
        let ghost g7 = m_null("documentationUrl"@, jstr(ovs(self.documentation_url)));
        let ghost g8 = m_null("createdAt"@, jstr(ovs(self.created_at)));
        let ghost g9 = m_null("updatedAt"@, jstr(ovs(self.updated_at)));
        let ghost g10 = m_null("environment"@, jstr(ovs(self.environment)));
        let ghost g11 = m_one("version"@, JsonV::Str(self.version@));
        let ghost g12 = m_null(
            "storage"@,
            match self.storage {
                Some(ref v) => Some(str_arr_jv(str_views(v@))),
                None => None,
            },
        );
        let mut ms: Vec<(String, Json)> = Vec::new();
        proof {
            assert(jv_members(ms@) =~= Seq::<(Seq<char>, JsonV)>::empty());
        }
        push_member(&mut ms, "id", Json::Str(self.id.clone()));
        assert(jv_members(ms@) =~= g1);
        push_member(&mut ms, "name", Json::Str(self.name.clone()));
        assert(jv_members(ms@) =~= g1 + g2);
        let tyj = self.ty.to_json();
        push_member(&mut ms, "type", tyj);
        assert(jv_members(ms@) =~= (g1 + g2) + g3);
        match &self.description {
            Some(v) => push_member(&mut ms, "description", Json::Str(v.clone())),
            None => push_member(&mut ms, "description", Json::Null),
        }
        assert(jv_members(ms@) =~= ((g1 + g2) + g3) + g4);
        let orgj = self.organization.to_json();
        push_member(&mut ms, "organization", orgj);
        assert(jv_members(ms@) =~= (((g1 + g2) + g3) + g4) + g5);
        match &self.contact_url {
            Some(v) => push_member(&mut ms, "contactUrl", Json::Str(v.clone())),
            None => push_member(&mut ms, "contactUrl", Json::Null),
        }
        assert(jv_members(ms@) =~= ((((g1 + g2) + g3) + g4) + g5) + g6);
        match &self.documentation_url {
            Some(v) => push_member(&mut ms, "documentationUrl", Json::Str(v.clone())),
            None => push_member(&mut ms, "documentationUrl", Json::Null),
        }
        assert(jv_members(ms@) =~= (((((g1 + g2) + g3) + g4) + g5) + g6) + g7);
        match &self.created_at {
            Some(v) => push_member(&mut ms, "createdAt", Json::Str(v.clone())),
            None => push_member(&mut ms, "createdAt", Json::Null),
        }
        assert(jv_members(ms@) =~= ((((((g1 + g2) + g3) + g4) + g5) + g6) + g7) + g8);
        match &self.updated_at {
            Some(v) => push_member(&mut ms, "updatedAt", Json::Str(v.clone())),
            None => push_member(&mut ms, "updatedAt", Json::Null),
        }
        assert(jv_members(ms@) =~= (((((((g1 + g2) + g3) + g4) + g5) + g6) + g7) + g8) + g9);
        match &self.environment {
            Some(v) => push_member(&mut ms, "environment", Json::Str(v.clone())),
            None => push_member(&mut ms, "environment", Json::Null),
        }
        assert(jv_members(ms@) =~= ((((((((g1 + g2) + g3) + g4) + g5) + g6) + g7) + g8) + g9)
            + g10);
        push_member(&mut ms, "version", Json::Str(self.version.clone()));
        assert(jv_members(ms@) =~= (((((((((g1 + g2) + g3) + g4) + g5) + g6) + g7) + g8) + g9)
            + g10) + g11);
        match &self.storage {
            Some(v) => {
                let arr = str_vec_to_json(v);
                push_member(&mut ms, "storage", arr);
            },
            None => push_member(&mut ms, "storage", Json::Null),
        }
        assert(jv_members(ms@) =~= ((((((((((g1 + g2) + g3) + g4) + g5) + g6) + g7) + g8) + g9)
            + g10) + g11) + g12);
        proof {
            assert(service_info_jv(*self)->Obj_0 =~= ((((((((((g1 + g2) + g3) + g4) + g5) + g6)
                + g7) + g8) + g9) + g10) + g11) + g12);
        }
        Json::Obj(ms)
    }

    /// Writes the service information as JSON text, in the compact form.
    pub fn body_string(&self) -> (r: String)
        ensures
            r@ == crate::v1::json::spec_enc(service_info_jv(*self)),
    {
        let d = self.to_json();
        crate::v1::json::encode_json(&d)
    }
}

} // verus!
