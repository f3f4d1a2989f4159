//! The typed records of the bootstrap data, one per relational table, with
//! their decoders from JSON objects and the dispatcher from a type tag to
//! the decoded record.

use vstd::prelude::*;
use crate::json::{JsonValue, field_of, find_field};
use crate::ids::uuid_of;
use crate::text::chars_vec;
use crate::classify::ObjectType;
use crate::credential::{
    CredentialError, spec_parse_key, parse_key, spec_api_key_prefix, api_key_prefix,
    key_message, derive_api_key_hash,
};
use crate::outside::sha256_of;

verus! {

pub struct NewUser {
    pub id: u128,
    pub name: String,
    pub email: String,
}

pub ghost struct UserV {
    pub id: u128,
    pub name: Seq<char>,
    pub email: Seq<char>,
}

impl View for NewUser {
    type V = UserV;

    open spec fn view(&self) -> UserV {
        UserV { id: self.id, name: self.name@, email: self.email@ }
    }
}

pub struct NewTeam {
    pub id: u128,
    pub name: String,
}

pub ghost struct TeamV {
    pub id: u128,
    pub name: Seq<char>,
}

impl View for NewTeam {
    type V = TeamV;

    open spec fn view(&self) -> TeamV {
        TeamV { id: self.id, name: self.name@ }
    }
}

/// The association of a user with a role inside a team.
pub struct UserAndRole {
    pub user_id: u128,
    pub team_id: u128,
    pub role_id: u128,
}

pub ghost struct UserRoleV {
    pub user_id: u128,
    pub team_id: u128,
    pub role_id: u128,
}

impl View for UserAndRole {
    type V = UserRoleV;

    open spec fn view(&self) -> UserRoleV {
        UserRoleV { user_id: self.user_id, team_id: self.team_id, role_id: self.role_id }
    }
}

pub struct NewProject {
    pub id: u128,
    pub team_id: u128,
    pub name: String,
}

pub ghost struct ProjectV {
    pub id: u128,
    pub team_id: u128,
    pub name: Seq<char>,
}

impl View for NewProject {
    type V = ProjectV;

    open spec fn view(&self) -> ProjectV {
        ProjectV { id: self.id, team_id: self.team_id, name: self.name@ }
    }
}

pub struct NewRole {
    pub id: u128,
    pub name: String,
}

pub ghost struct RoleV {
    pub id: u128,
    pub name: Seq<char>,
}

impl View for NewRole {
    type V = RoleV;

    open spec fn view(&self) -> RoleV {
        RoleV { id: self.id, name: self.name@ }
    }
}

pub struct RolePermission {
    pub role_id: u128,
    pub permission: String,
}

pub ghost struct RolePermissionV {
    pub role_id: u128,
    pub permission: Seq<char>,
}

impl View for RolePermission {
    type V = RolePermissionV;

    open spec fn view(&self) -> RolePermissionV {
        RolePermissionV { role_id: self.role_id, permission: self.permission@ }
    }
}

pub struct NewConversionProfile {
    pub id: u128,
    pub team_id: u128,
    pub project_id: Option<u128>,
    pub name: String,
}

pub ghost struct ConversionProfileV {
    pub id: u128,
    pub team_id: u128,
    pub project_id: Option<u128>,
    pub name: Seq<char>,
}

impl View for NewConversionProfile {
    type V = ConversionProfileV;

    open spec fn view(&self) -> ConversionProfileV {
        ConversionProfileV {
            id: self.id,
            team_id: self.team_id,
            project_id: self.project_id,
            name: self.name@,
        }
    }
}

pub struct NewStorageLocation {
    pub id: u128,
    pub team_id: u128,
    pub connection: String,
}

pub ghost struct StorageLocationV {
    pub id: u128,
    pub team_id: u128,
    pub connection: Seq<char>,
}

impl View for NewStorageLocation {
    type V = StorageLocationV;

    open spec fn view(&self) -> StorageLocationV {
        StorageLocationV { id: self.id, team_id: self.team_id, connection: self.connection@ }
    }
}

pub struct NewUploadProfile {
    pub id: u128,
    pub team_id: u128,
    pub project_id: Option<u128>,
    pub name: String,
}

pub ghost struct UploadProfileV {
    pub id: u128,
    pub team_id: u128,
    pub project_id: Option<u128>,
    pub name: Seq<char>,
}

impl View for NewUploadProfile {
    type V = UploadProfileV;

    open spec fn view(&self) -> UploadProfileV {
        UploadProfileV {
            id: self.id,
            team_id: self.team_id,
            project_id: self.project_id,
            name: self.name@,
        }
    }
}

/// A stored credential record: only the derived digest, never the raw
/// random component.
pub struct ApiKey {
    pub id: u128,
    pub name: String,
    pub prefix: String,
    pub hash: Vec<u8>,
    pub team_id: u128,
    pub user_id: u128,
    pub inherits_user_permissions: bool,
    pub created: i64,
    pub expires: i64,
}

pub ghost struct ApiKeyV {
    pub id: u128,
    pub name: Seq<char>,
    pub prefix: Seq<char>,
    pub hash: Seq<u8>,
    pub team_id: u128,
    pub user_id: u128,
    pub inherits_user_permissions: bool,
    pub created: i64,
    pub expires: i64,
}

impl View for ApiKey {
    type V = ApiKeyV;

    open spec fn view(&self) -> ApiKeyV {
        ApiKeyV {
            id: self.id,
            name: self.name@,
            prefix: self.prefix@,
            hash: self.hash@,
            team_id: self.team_id,
            user_id: self.user_id,
            inherits_user_permissions: self.inherits_user_permissions,
            created: self.created,
            expires: self.expires,
        }
    }
}

/// The fields supplied for an api-key entry in bootstrap data: the
/// plaintext credential and the record's plain attributes.
pub struct ApiKeyInput {
    pub key: String,
    pub name: String,
    pub team_id: u128,
    pub user_id: u128,
    pub inherits_user_permissions: bool,
    pub expires: i64,
}

pub ghost struct ApiKeyInputV {
    pub key: Seq<char>,
    pub name: Seq<char>,
    pub team_id: u128,
    pub user_id: u128,
    pub inherits_user_permissions: bool,
    pub expires: i64,
}

impl View for ApiKeyInput {
    type V = ApiKeyInputV;

    open spec fn view(&self) -> ApiKeyInputV {
        ApiKeyInputV {
            key: self.key@,
            name: self.name@,
            team_id: self.team_id,
            user_id: self.user_id,
            inherits_user_permissions: self.inherits_user_permissions,
            expires: self.expires,
        }
    }
}

pub enum Record {
    User(NewUser),
    UserRole(UserAndRole),
    Team(NewTeam),
    Project(NewProject),
    ConversionProfile(NewConversionProfile),
    StorageLocation(NewStorageLocation),
    UploadProfile(NewUploadProfile),
    Role(NewRole),
    RolePermission(RolePermission),
    ApiKey(ApiKey),
}

pub ghost enum RecordV {
    User(UserV),
    UserRole(UserRoleV),
    Team(TeamV),
    Project(ProjectV),
    ConversionProfile(ConversionProfileV),
    StorageLocation(StorageLocationV),
    UploadProfile(UploadProfileV),
    Role(RoleV),
    RolePermission(RolePermissionV),
    ApiKey(ApiKeyV),
}

impl View for Record {
    type V = RecordV;

    open spec fn view(&self) -> RecordV {
        match self {
            Record::User(x) => RecordV::User(x@),
            Record::UserRole(x) => RecordV::UserRole(x@),
            Record::Team(x) => RecordV::Team(x@),
            Record::Project(x) => RecordV::Project(x@),
            Record::ConversionProfile(x) => RecordV::ConversionProfile(x@),
            Record::StorageLocation(x) => RecordV::StorageLocation(x@),
            Record::UploadProfile(x) => RecordV::UploadProfile(x@),
            Record::Role(x) => RecordV::Role(x@),
            Record::RolePermission(x) => RecordV::RolePermission(x@),
            Record::ApiKey(x) => RecordV::ApiKey(x@),
        }
    }
}

/// Why a single JSON object was rejected.
pub enum ObjectError {
    /// A missing or mismatched field, named.
    Decode(String),
    MalformedCredential,
    PrefixMismatch,
}

pub ghost enum ObjectErrorV {
    Decode(Seq<char>),
    MalformedCredential,
    PrefixMismatch,
}

impl View for ObjectError {
    type V = ObjectErrorV;

    open spec fn view(&self) -> ObjectErrorV {
        match self {
            ObjectError::Decode(f) => ObjectErrorV::Decode(f@),
            ObjectError::MalformedCredential => ObjectErrorV::MalformedCredential,
            ObjectError::PrefixMismatch => ObjectErrorV::PrefixMismatch,
        }
    }
}

// ---- field readers ----

/// A required field holding the textual form of an identifier.
pub open spec fn spec_req_uuid(fields: Seq<(String, JsonValue)>, name: Seq<char>) -> Result<
    u128,
    Seq<char>,
> {
    match field_of(fields, name) {
        Some(JsonValue::Str(s)) => match uuid_of(s@) {
            Some(id) => Ok(id),
            None => Err(name),
        },
        _ => Err(name),
    }
}

pub fn req_uuid(fields: &Vec<(String, JsonValue)>, name: &str) -> (r: Result<u128, String>)
    ensures
        match r {
            Ok(v) => spec_req_uuid(fields@, name@) == Ok::<u128, Seq<char>>(v),
            Err(e) => spec_req_uuid(fields@, name@) == Err::<u128, Seq<char>>(name@) && e@
                == name@,
        },
{
    match find_field(fields, name) {
        Some(i) => {
            let pair = &fields[i];
            match &pair.1 {
                JsonValue::Str(s) => {
                    let cs = chars_vec(s.as_str());
                    match crate::ids::parse_uuid(&cs) {
                        Some(id) => Ok(id),
                        None => Err(name.to_owned()),
                    }
                },
                _ => Err(name.to_owned()),
            }
        },
        None => Err(name.to_owned()),
    }
}

/// An optional field holding the textual form of an identifier.
pub open spec fn spec_opt_uuid(fields: Seq<(String, JsonValue)>, name: Seq<char>) -> Result<
    Option<u128>,
    Seq<char>,
> {
    match field_of(fields, name) {
        None => Ok(None),
        Some(JsonValue::Str(s)) => match uuid_of(s@) {
            Some(id) => Ok(Some(id)),
            None => Err(name),
        },
        Some(_) => Err(name),
    }
}

pub fn opt_uuid(fields: &Vec<(String, JsonValue)>, name: &str) -> (r: Result<
    Option<u128>,
    String,
>)
    ensures
        match r {
            Ok(v) => spec_opt_uuid(fields@, name@) == Ok::<Option<u128>, Seq<char>>(v),
            Err(e) => spec_opt_uuid(fields@, name@) == Err::<Option<u128>, Seq<char>>(name@)
                && e@ == name@,
        },
{
    match find_field(fields, name) {
        Some(i) => {
            let pair = &fields[i];
            match &pair.1 {
                JsonValue::Str(s) => {
                    let cs = chars_vec(s.as_str());
                    match crate::ids::parse_uuid(&cs) {
                        Some(id) => Ok(Some(id)),
                        None => Err(name.to_owned()),
                    }
                },
                _ => Err(name.to_owned()),
            }
        },
        None => Ok(None),
    }
}

/// A required text field.
pub open spec fn spec_req_string(fields: Seq<(String, JsonValue)>, name: Seq<char>) -> Result<
    Seq<char>,
    Seq<char>,
> {
    match field_of(fields, name) {
        Some(JsonValue::Str(s)) => Ok(s@),
        _ => Err(name),
    }
}

pub fn req_string(fields: &Vec<(String, JsonValue)>, name: &str) -> (r: Result<String, String>)
    ensures
        match r {
            Ok(v) => spec_req_string(fields@, name@) == Ok::<Seq<char>, Seq<char>>(v@),
            Err(e) => spec_req_string(fields@, name@) == Err::<Seq<char>, Seq<char>>(name@)
                && e@ == name@,
        },
{
    match find_field(fields, name) {
        Some(i) => {
            let pair = &fields[i];
            match &pair.1 {
                JsonValue::Str(s) => Ok(s.clone()),
                _ => Err(name.to_owned()),
            }
        },
        None => Err(name.to_owned()),
    }
}

/// A required boolean field.
pub open spec fn spec_req_bool(fields: Seq<(String, JsonValue)>, name: Seq<char>) -> Result<
    bool,
    Seq<char>,
> {
    match field_of(fields, name) {
        Some(JsonValue::Bool(b)) => Ok(b),
        _ => Err(name),
    }
}

pub fn req_bool(fields: &Vec<(String, JsonValue)>, name: &str) -> (r: Result<bool, String>)
    ensures
        match r {
            Ok(v) => spec_req_bool(fields@, name@) == Ok::<bool, Seq<char>>(v),
            Err(e) => spec_req_bool(fields@, name@) == Err::<bool, Seq<char>>(name@) && e@
                == name@,
        },
{
    match find_field(fields, name) {
        Some(i) => {
            let pair = &fields[i];
            match &pair.1 {
                JsonValue::Bool(b) => Ok(*b),
                _ => Err(name.to_owned()),
            }
        },
        None => Err(name.to_owned()),
    }
}

/// A required integer field.
pub open spec fn spec_req_i64(fields: Seq<(String, JsonValue)>, name: Seq<char>) -> Result<
    i64,
    Seq<char>,
> {
    match field_of(fields, name) {
        Some(JsonValue::Int(n)) => Ok(n),
        _ => Err(name),
    }
}

pub fn req_i64(fields: &Vec<(String, JsonValue)>, name: &str) -> (r: Result<i64, String>)
    ensures
        match r {
            Ok(v) => spec_req_i64(fields@, name@) == Ok::<i64, Seq<char>>(v),
            Err(e) => spec_req_i64(fields@, name@) == Err::<i64, Seq<char>>(name@) && e@
                == name@,
        },
{
    match find_field(fields, name) {
        Some(i) => {
            let pair = &fields[i];
            match &pair.1 {
                JsonValue::Int(n) => Ok(*n),
                _ => Err(name.to_owned()),
            }
        },
        None => Err(name.to_owned()),
    }
}

// ---- decoders, one per type tag ----

pub open spec fn spec_decode_user(fields: Seq<(String, JsonValue)>) -> Result<UserV, Seq<char>> {
    match spec_req_uuid(fields, "id"@) {
        Err(e) => Err(e),
        Ok(id) => match spec_req_string(fields, "name"@) {
            Err(e) => Err(e),
            Ok(name) => match spec_req_string(fields, "email"@) {
                Err(e) => Err(e),
                Ok(email) => Ok(UserV { id, name, email }),
            },
        },
    }
}

pub fn decode_user(fields: &Vec<(String, JsonValue)>) -> (r: Result<NewUser, String>)
    ensures
        match r {
            Ok(v) => spec_decode_user(fields@) == Ok::<UserV, Seq<char>>(v@),
            Err(e) => spec_decode_user(fields@) == Err::<UserV, Seq<char>>(e@),
        },
{
    let id = match req_uuid(fields, "id") {
        Ok(v) => v,
        Err(e) => return Err(e),
    };
    let name = match req_string(fields, "name") {
        Ok(v) => v,
        Err(e) => return Err(e),
    };
    let email = match req_string(fields, "email") {
        Ok(v) => v,
        Err(e) => return Err(e),
    };
    Ok(NewUser { id, name, email })
}

pub open spec fn spec_decode_team(fields: Seq<(String, JsonValue)>) -> Result<TeamV, Seq<char>> {
    match spec_req_uuid(fields, "id"@) {
        Err(e) => Err(e),
        Ok(id) => match spec_req_string(fields, "name"@) {
            Err(e) => Err(e),
            Ok(name) => Ok(TeamV { id, name }),
        },
    }
}

pub fn decode_team(fields: &Vec<(String, JsonValue)>) -> (r: Result<NewTeam, String>)
    ensures
        match r {
            Ok(v) => spec_decode_team(fields@) == Ok::<TeamV, Seq<char>>(v@),
            Err(e) => spec_decode_team(fields@) == Err::<TeamV, Seq<char>>(e@),
        },
{
    let id = match req_uuid(fields, "id") {
        Ok(v) => v,
        Err(e) => return Err(e),
    };
    let name = match req_string(fields, "name") {
        Ok(v) => v,
        Err(e) => return Err(e),
    };
    Ok(NewTeam { id, name })
}

pub open spec fn spec_decode_user_role(fields: Seq<(String, JsonValue)>) -> Result<UserRoleV, Seq<char>> {
    match spec_req_uuid(fields, "user_id"@) {
        Err(e) => Err(e),
        Ok(user_id) => match spec_req_uuid(fields, "team_id"@) {
            Err(e) => Err(e),
            Ok(team_id) => match spec_req_uuid(fields, "role_id"@) {
                Err(e) => Err(e),
                Ok(role_id) => Ok(UserRoleV { user_id, team_id, role_id }),
            },
        },
    }
}

pub fn decode_user_role(fields: &Vec<(String, JsonValue)>) -> (r: Result<UserAndRole, String>)
    ensures
        match r {
            Ok(v) => spec_decode_user_role(fields@) == Ok::<UserRoleV, Seq<char>>(v@),
            Err(e) => spec_decode_user_role(fields@) == Err::<UserRoleV, Seq<char>>(e@),
        },
{
    let user_id = match req_uuid(fields, "user_id") {
        Ok(v) => v,
        Err(e) => return Err(e),
    };
    let team_id = match req_uuid(fields, "team_id") {
        Ok(v) => v,
        Err(e) => return Err(e),
    };
    let role_id = match req_uuid(fields, "role_id") {
        Ok(v) => v,
        Err(e) => return Err(e),
    };
    Ok(UserAndRole { user_id, team_id, role_id })
}

pub open spec fn spec_decode_project(fields: Seq<(String, JsonValue)>) -> Result<ProjectV, Seq<char>> {
    match spec_req_uuid(fields, "id"@) {
        Err(e) => Err(e),
        Ok(id) => match spec_req_uuid(fields, "team_id"@) {
            Err(e) => Err(e),
            Ok(team_id) => match spec_req_string(fields, "name"@) {
                Err(e) => Err(e),
                Ok(name) => Ok(ProjectV { id, team_id, name }),
            },
        },
    }
}

pub fn decode_project(fields: &Vec<(String, JsonValue)>) -> (r: Result<NewProject, String>)
    ensures
        match r {
            Ok(v) => spec_decode_project(fields@) == Ok::<ProjectV, Seq<char>>(v@),
            Err(e) => spec_decode_project(fields@) == Err::<ProjectV, Seq<char>>(e@),
        },
{
    let id = match req_uuid(fields, "id") {
        Ok(v) => v,
        Err(e) => return Err(e),
    };
    let team_id = match req_uuid(fields, "team_id") {
        Ok(v) => v,
        Err(e) => return Err(e),
    };
    let name = match req_string(fields, "name") {
        Ok(v) => v,
        Err(e) => return Err(e),
    };
    Ok(NewProject { id, team_id, name })
}

pub open spec fn spec_decode_role(fields: Seq<(String, JsonValue)>) -> Result<RoleV, Seq<char>> {
    match spec_req_uuid(fields, "id"@) {
        Err(e) => Err(e),
        Ok(id) => match spec_req_string(fields, "name"@) {
            Err(e) => Err(e),
            Ok(name) => Ok(RoleV { id, name }),
        },
    }
}

pub fn decode_role(fields: &Vec<(String, JsonValue)>) -> (r: Result<NewRole, String>)
    ensures
        match r {
            Ok(v) => spec_decode_role(fields@) == Ok::<RoleV, Seq<char>>(v@),
            Err(e) => spec_decode_role(fields@) == Err::<RoleV, Seq<char>>(e@),
        },
{
    let id = match req_uuid(fields, "id") {
        Ok(v) => v,
        Err(e) => return Err(e),
    };
    let name = match req_string(fields, "name") {
        Ok(v) => v,
        Err(e) => return Err(e),
    };
    Ok(NewRole { id, name })
}

pub open spec fn spec_decode_role_permission(fields: Seq<(String, JsonValue)>) -> Result<RolePermissionV, Seq<char>> {
    match spec_req_uuid(fields, "role_id"@) {
        Err(e) => Err(e),
        Ok(role_id) => match spec_req_string(fields, "permission"@) {
            Err(e) => Err(e),
            Ok(permission) => Ok(RolePermissionV { role_id, permission }),
        },
    }
}

pub fn decode_role_permission(fields: &Vec<(String, JsonValue)>) -> (r: Result<RolePermission, String>)
    ensures
        match r {
            Ok(v) => spec_decode_role_permission(fields@) == Ok::<RolePermissionV, Seq<char>>(v@),
            Err(e) => spec_decode_role_permission(fields@) == Err::<RolePermissionV, Seq<char>>(e@),
        },
{
    let role_id = match req_uuid(fields, "role_id") {
        Ok(v) => v,
        Err(e) => return Err(e),
    };
    let permission = match req_string(fields, "permission") {
        Ok(v) => v,
        Err(e) => return Err(e),
    };
    Ok(RolePermission { role_id, permission })
}

pub open spec fn spec_decode_conversion_profile(fields: Seq<(String, JsonValue)>) -> Result<ConversionProfileV, Seq<char>> {
    match spec_req_uuid(fields, "id"@) {
        Err(e) => Err(e),
        Ok(id) => match spec_req_uuid(fields, "team_id"@) {
            Err(e) => Err(e),
            Ok(team_id) => match spec_opt_uuid(fields, "project_id"@) {
                Err(e) => Err(e),
                Ok(project_id) => match spec_req_string(fields, "name"@) {
                    Err(e) => Err(e),
                    Ok(name) => Ok(ConversionProfileV { id, team_id, project_id, name }),
                },
            },
        },
    }
}

pub fn decode_conversion_profile(fields: &Vec<(String, JsonValue)>) -> (r: Result<NewConversionProfile, String>)
    ensures
        match r {
            Ok(v) => spec_decode_conversion_profile(fields@) == Ok::<ConversionProfileV, Seq<char>>(v@),
            Err(e) => spec_decode_conversion_profile(fields@) == Err::<ConversionProfileV, Seq<char>>(e@),
        },
{
    let id = match req_uuid(fields, "id") {
        Ok(v) => v,
        Err(e) => return Err(e),
    };
    let team_id = match req_uuid(fields, "team_id") {
        Ok(v) => v,
        Err(e) => return Err(e),
    };
    let project_id = match opt_uuid(fields, "project_id") {
        Ok(v) => v,
        Err(e) => return Err(e),
    };
    let name = match req_string(fields, "name") {
        Ok(v) => v,
        Err(e) => return Err(e),
    };
    Ok(NewConversionProfile { id, team_id, project_id, name })
}

pub open spec fn spec_decode_storage_location(fields: Seq<(String, JsonValue)>) -> Result<StorageLocationV, Seq<char>> {
    match spec_req_uuid(fields, "id"@) {
        Err(e) => Err(e),
        Ok(id) => match spec_req_uuid(fields, "team_id"@) {
            Err(e) => Err(e),
            Ok(team_id) => match spec_req_string(fields, "connection"@) {
                Err(e) => Err(e),
                Ok(connection) => Ok(StorageLocationV { id, team_id, connection }),
            },
        },
    }
}

pub fn decode_storage_location(fields: &Vec<(String, JsonValue)>) -> (r: Result<NewStorageLocation, String>)
    ensures
        match r {
            Ok(v) => spec_decode_storage_location(fields@) == Ok::<StorageLocationV, Seq<char>>(v@),
            Err(e) => spec_decode_storage_location(fields@) == Err::<StorageLocationV, Seq<char>>(e@),
        },
{
    let id = match req_uuid(fields, "id") {
        Ok(v) => v,
        Err(e) => return Err(e),
    };
    let team_id = match req_uuid(fields, "team_id") {
        Ok(v) => v,
        Err(e) => return Err(e),
    };
    let connection = match req_string(fields, "connection") {
        Ok(v) => v,
        Err(e) => return Err(e),
    };
    Ok(NewStorageLocation { id, team_id, connection })
}

pub open spec fn spec_decode_upload_profile(fields: Seq<(String, JsonValue)>) -> Result<UploadProfileV, Seq<char>> {
    match spec_req_uuid(fields, "id"@) {
        Err(e) => Err(e),
        Ok(id) => match spec_req_uuid(fields, "team_id"@) {
            Err(e) => Err(e),
            Ok(team_id) => match spec_opt_uuid(fields, "project_id"@) {
                Err(e) => Err(e),
                Ok(project_id) => match spec_req_string(fields, "name"@) {
                    Err(e) => Err(e),
                    Ok(name) => Ok(UploadProfileV { id, team_id, project_id, name }),
                },
            },
        },
    }
}

pub fn decode_upload_profile(fields: &Vec<(String, JsonValue)>) -> (r: Result<NewUploadProfile, String>)
    ensures
        match r {
            Ok(v) => spec_decode_upload_profile(fields@) == Ok::<UploadProfileV, Seq<char>>(v@),
            Err(e) => spec_decode_upload_profile(fields@) == Err::<UploadProfileV, Seq<char>>(e@),
        },
{
    let id = match req_uuid(fields, "id") {
        Ok(v) => v,
        Err(e) => return Err(e),
    };
    let team_id = match req_uuid(fields, "team_id") {
        Ok(v) => v,
        Err(e) => return Err(e),
    };
    let project_id = match opt_uuid(fields, "project_id") {
        Ok(v) => v,
        Err(e) => return Err(e),
    };
    let name = match req_string(fields, "name") {
        Ok(v) => v,
        Err(e) => return Err(e),
    };
    Ok(NewUploadProfile { id, team_id, project_id, name })
}

pub open spec fn spec_decode_api_key_input(fields: Seq<(String, JsonValue)>) -> Result<ApiKeyInputV, Seq<char>> {
    match spec_req_string(fields, "key"@) {
        Err(e) => Err(e),
        Ok(key) => match spec_req_string(fields, "name"@) {
            Err(e) => Err(e),
            Ok(name) => match spec_req_uuid(fields, "team_id"@) {
                Err(e) => Err(e),
                Ok(team_id) => match spec_req_uuid(fields, "user_id"@) {
                    Err(e) => Err(e),
                    Ok(user_id) => match spec_req_bool(fields, "inherits_user_permissions"@) {
                        Err(e) => Err(e),
                        Ok(inherits_user_permissions) => match spec_req_i64(fields, "expires"@) {
                            Err(e) => Err(e),
                            Ok(expires) => Ok(ApiKeyInputV {
                                key,
                                name,
                                team_id,
                                user_id,
                                inherits_user_permissions,
                                expires,
                            }),
                        },
                    },
                },
            },
        },
    }
}

pub fn decode_api_key_input(fields: &Vec<(String, JsonValue)>) -> (r: Result<ApiKeyInput, String>)
    ensures
        match r {
            Ok(v) => spec_decode_api_key_input(fields@) == Ok::<ApiKeyInputV, Seq<char>>(v@),
            Err(e) => spec_decode_api_key_input(fields@) == Err::<ApiKeyInputV, Seq<char>>(e@),
        },
{
    let key = match req_string(fields, "key") {
        Ok(v) => v,
        Err(e) => return Err(e),
    };
    let name = match req_string(fields, "name") {
        Ok(v) => v,
        Err(e) => return Err(e),
    };
    let team_id = match req_uuid(fields, "team_id") {
        Ok(v) => v,
        Err(e) => return Err(e),
    };
    let user_id = match req_uuid(fields, "user_id") {
        Ok(v) => v,
        Err(e) => return Err(e),
    };
    let inherits_user_permissions = match req_bool(fields, "inherits_user_permissions") {
        Ok(v) => v,
        Err(e) => return Err(e),
    };
    let expires = match req_i64(fields, "expires") {
        Ok(v) => v,
        Err(e) => return Err(e),
    };
    Ok(ApiKeyInput { key, name, team_id, user_id, inherits_user_permissions, expires })
}

// ---- the dispatcher ----

/// What dispatching one JSON object of type `t` yields: the decoded record
/// — for an api-key entry, with the credential reconstructed and the digest
/// derived — or the first failure.
pub open spec fn spec_apply_object(
    t: ObjectType,
    fields: Seq<(String, JsonValue)>,
    now: i64,
) -> Result<RecordV, ObjectErrorV> {
    match t {
        ObjectType::User => match spec_decode_user(fields) {
            Ok(v) => Ok(RecordV::User(v)),
            Err(e) => Err(ObjectErrorV::Decode(e)),
        },
        ObjectType::UserRole => match spec_decode_user_role(fields) {
            Ok(v) => Ok(RecordV::UserRole(v)),
            Err(e) => Err(ObjectErrorV::Decode(e)),
        },
        ObjectType::Team => match spec_decode_team(fields) {
            Ok(v) => Ok(RecordV::Team(v)),
            Err(e) => Err(ObjectErrorV::Decode(e)),
        },
        ObjectType::Project => match spec_decode_project(fields) {
            Ok(v) => Ok(RecordV::Project(v)),
            Err(e) => Err(ObjectErrorV::Decode(e)),
        },
        ObjectType::ConversionProfile => match spec_decode_conversion_profile(fields) {
            Ok(v) => Ok(RecordV::ConversionProfile(v)),
            Err(e) => Err(ObjectErrorV::Decode(e)),
        },
        ObjectType::StorageLocation => match spec_decode_storage_location(fields) {
            Ok(v) => Ok(RecordV::StorageLocation(v)),
            Err(e) => Err(ObjectErrorV::Decode(e)),
        },
        ObjectType::UploadProfile => match spec_decode_upload_profile(fields) {
            Ok(v) => Ok(RecordV::UploadProfile(v)),
            Err(e) => Err(ObjectErrorV::Decode(e)),
        },
        ObjectType::Role => match spec_decode_role(fields) {
            Ok(v) => Ok(RecordV::Role(v)),
            Err(e) => Err(ObjectErrorV::Decode(e)),
        },
        ObjectType::RolePermission => match spec_decode_role_permission(fields) {
            Ok(v) => Ok(RecordV::RolePermission(v)),
            Err(e) => Err(ObjectErrorV::Decode(e)),
        },
        ObjectType::ApiKey => match spec_decode_api_key_input(fields) {
            Err(e) => Err(ObjectErrorV::Decode(e)),
            Ok(inp) => match spec_parse_key(inp.key) {
                Err(CredentialError::Malformed) => Err(ObjectErrorV::MalformedCredential),
                Err(CredentialError::PrefixMismatch) => Err(ObjectErrorV::PrefixMismatch),
                Ok((id, random)) => Ok(RecordV::ApiKey(ApiKeyV {
                    id,
                    name: inp.name,
                    prefix: spec_api_key_prefix(),
                    hash: sha256_of(key_message(spec_api_key_prefix(), id, random, inp.expires)),
                    team_id: inp.team_id,
                    user_id: inp.user_id,
                    inherits_user_permissions: inp.inherits_user_permissions,
                    created: now,
                    expires: inp.expires,
                })),
            },
        },
    }
}

/// Decodes one JSON object against the schema for `t` and builds the record
/// to insert; `now` becomes the creation stamp of a credential record.
pub fn apply_object(t: ObjectType, fields: &Vec<(String, JsonValue)>, now: i64) -> (r: Result<
    Record,
    ObjectError,
>)
    ensures
        match r {
            Ok(rec) => spec_apply_object(t, fields@, now) == Ok::<RecordV, ObjectErrorV>(rec@),
            Err(e) => spec_apply_object(t, fields@, now) == Err::<RecordV, ObjectErrorV>(e@),
        },
{
    match t {
        ObjectType::User => match decode_user(fields) {
            Ok(v) => Ok(Record::User(v)),
            Err(e) => Err(ObjectError::Decode(e)),
        },
        ObjectType::UserRole => match decode_user_role(fields) {
            Ok(v) => Ok(Record::UserRole(v)),
            Err(e) => Err(ObjectError::Decode(e)),
        },
        ObjectType::Team => match decode_team(fields) {
            Ok(v) => Ok(Record::Team(v)),
            Err(e) => Err(ObjectError::Decode(e)),
        },
        ObjectType::Project => match decode_project(fields) {
            Ok(v) => Ok(Record::Project(v)),
            Err(e) => Err(ObjectError::Decode(e)),
        },
        ObjectType::ConversionProfile => match decode_conversion_profile(fields) {
            Ok(v) => Ok(Record::ConversionProfile(v)),
            Err(e) => Err(ObjectError::Decode(e)),
        },
        ObjectType::StorageLocation => match decode_storage_location(fields) {
            Ok(v) => Ok(Record::StorageLocation(v)),
            Err(e) => Err(ObjectError::Decode(e)),
        },
        ObjectType::UploadProfile => match decode_upload_profile(fields) {
            Ok(v) => Ok(Record::UploadProfile(v)),
            Err(e) => Err(ObjectError::Decode(e)),
        },
        ObjectType::Role => match decode_role(fields) {
            Ok(v) => Ok(Record::Role(v)),
            Err(e) => Err(ObjectError::Decode(e)),
        },
        ObjectType::RolePermission => match decode_role_permission(fields) {
            Ok(v) => Ok(Record::RolePermission(v)),
            Err(e) => Err(ObjectError::Decode(e)),
        },
        ObjectType::ApiKey => {
            let inp = match decode_api_key_input(fields) {
                Ok(v) => v,
                Err(e) => return Err(ObjectError::Decode(e)),
            };
            match parse_key(inp.key.as_str()) {
                Err(CredentialError::Malformed) => Err(ObjectError::MalformedCredential),
                Err(CredentialError::PrefixMismatch) => Err(ObjectError::PrefixMismatch),
                Ok((id, random)) => {
                    let prefix = api_key_prefix();
                    let hash = derive_api_key_hash(prefix, id, random, inp.expires);
                    Ok(Record::ApiKey(ApiKey {
                        id,
                        name: inp.name,
                        prefix: prefix.to_owned(),
                        hash,
                        team_id: inp.team_id,
                        user_id: inp.user_id,
                        inherits_user_permissions: inp.inherits_user_permissions,
                        created: now,
                        expires: inp.expires,
                    }))
                },
            }
        },
    }
}


} // verus!
