//! The type classifier: a bootstrap file is named `<name>.<type-tag>.<ext>`,
//! and the tag — the second-from-last dot-delimited segment — selects the
//! decoder. Singular and plural spellings are synonyms.

use vstd::prelude::*;
use crate::text::{split_on, split_char, chars_vec, eq_str};

verus! {

#[derive(Clone, Copy, PartialEq, Eq, Structural, Debug)]
pub enum ObjectType {
    User,
    UserRole,
    Team,
    Project,
    ConversionProfile,
    StorageLocation,
    UploadProfile,
    Role,
    RolePermission,
    ApiKey,
}

/// The decoder selected by a type tag, `None` for a tag outside the closed
/// set.
pub open spec fn type_for_tag(tag: Seq<char>) -> Option<ObjectType> {
    if tag == "user"@ || tag == "users"@ {
        Some(ObjectType::User)
    } else if tag == "user_role"@ || tag == "user_roles"@ {
        Some(ObjectType::UserRole)
    } else if tag == "team"@ || tag == "teams"@ {
        Some(ObjectType::Team)
    } else if tag == "project"@ || tag == "projects"@ {
        Some(ObjectType::Project)
    } else if tag == "conversion_profile"@ || tag == "conversion_profiles"@ {
        Some(ObjectType::ConversionProfile)
    } else if tag == "storage_location"@ || tag == "storage_locations"@ {
        Some(ObjectType::StorageLocation)
    } else if tag == "upload_profile"@ || tag == "upload_profiles"@ {
        Some(ObjectType::UploadProfile)
    } else if tag == "role"@ || tag == "roles"@ {
        Some(ObjectType::Role)
    } else if tag == "role_permission"@ || tag == "role_permissions"@ {
        Some(ObjectType::RolePermission)
    } else if tag == "api_key"@ || tag == "api_keys"@ {
        Some(ObjectType::ApiKey)
    } else {
        None
    }
}

/// The type named by a filename: the second-from-last dot segment of a name
/// with at least three such segments; `None` otherwise.
pub open spec fn spec_classify(filename: Seq<char>) -> Option<ObjectType> {
    let parts = split_on(filename, '.');
    if parts.len() < 3 {
        None
    } else {
        type_for_tag(parts[parts.len() - 2])
    }
}

/// Derives the object type from a filename, `None` where the name has fewer
/// than three dot segments or carries an unknown tag.
pub fn classify(filename: &str) -> (r: Option<ObjectType>)
    ensures
        r == spec_classify(filename@),
{
    let chars = chars_vec(filename);
    let parts = split_char(&chars, '.');
    if parts.len() < 3 {
        return None;
    }
    let tag = &parts[parts.len() - 2];
    proof {
        assert(parts@.map_values(|p: Vec<char>| p@)[parts@.len() - 2] == tag@);
    }
    if eq_str(tag, "user") || eq_str(tag, "users") {
        Some(ObjectType::User)
    } else if eq_str(tag, "user_role") || eq_str(tag, "user_roles") {
        Some(ObjectType::UserRole)
    } else if eq_str(tag, "team") || eq_str(tag, "teams") {
        Some(ObjectType::Team)
    } else if eq_str(tag, "project") || eq_str(tag, "projects") {
        Some(ObjectType::Project)
    } else if eq_str(tag, "conversion_profile") || eq_str(tag, "conversion_profiles") {
        Some(ObjectType::ConversionProfile)
    } else if eq_str(tag, "storage_location") || eq_str(tag, "storage_locations") {
        Some(ObjectType::StorageLocation)
    } else if eq_str(tag, "upload_profile") || eq_str(tag, "upload_profiles") {
        Some(ObjectType::UploadProfile)
    } else if eq_str(tag, "role") || eq_str(tag, "roles") {
        Some(ObjectType::Role)
    } else if eq_str(tag, "role_permission") || eq_str(tag, "role_permissions") {
        Some(ObjectType::RolePermission)
    } else if eq_str(tag, "api_key") || eq_str(tag, "api_keys") {
        Some(ObjectType::ApiKey)
    } else {
        None
    }
}

/// Law: the singular and the plural spelling of every type tag select the
/// same decoder, so two files that differ only in that spelling have
/// identical effects for identical content.
#[verifier::rlimit(100)]
pub proof fn lemma_tag_synonyms()
    ensures
        type_for_tag("user"@) == type_for_tag("users"@),
        type_for_tag("user_role"@) == type_for_tag("user_roles"@),
        type_for_tag("team"@) == type_for_tag("teams"@),
        type_for_tag("project"@) == type_for_tag("projects"@),
        type_for_tag("conversion_profile"@) == type_for_tag("conversion_profiles"@),
        type_for_tag("storage_location"@) == type_for_tag("storage_locations"@),
        type_for_tag("upload_profile"@) == type_for_tag("upload_profiles"@),
        type_for_tag("role"@) == type_for_tag("roles"@),
        type_for_tag("role_permission"@) == type_for_tag("role_permissions"@),
        type_for_tag("api_key"@) == type_for_tag("api_keys"@),
{
    reveal_strlit("user");
    reveal_strlit("users");
    reveal_strlit("user_role");
    reveal_strlit("user_roles");
    reveal_strlit("team");
    reveal_strlit("teams");
    reveal_strlit("project");
    reveal_strlit("projects");
    reveal_strlit("conversion_profile");
    reveal_strlit("conversion_profiles");
    reveal_strlit("storage_location");
    reveal_strlit("storage_locations");
    reveal_strlit("upload_profile");
    reveal_strlit("upload_profiles");
    reveal_strlit("role");
    reveal_strlit("roles");
    reveal_strlit("role_permission");
    reveal_strlit("role_permissions");
    reveal_strlit("api_key");
    reveal_strlit("api_keys");
    assert("user"@.len() == 4);
    assert("users"@.len() == 5);
    assert("user_role"@.len() == 9);
    assert("user_roles"@.len() == 10);
    assert("team"@.len() == 4);
    assert("teams"@.len() == 5);
    assert("project"@.len() == 7);
    assert("projects"@.len() == 8);
    assert("conversion_profile"@.len() == 18);
    assert("conversion_profiles"@.len() == 19);
    assert("storage_location"@.len() == 16);
    assert("storage_locations"@.len() == 17);
    assert("upload_profile"@.len() == 14);
    assert("upload_profiles"@.len() == 15);
    assert("role"@.len() == 4);
    assert("roles"@.len() == 5);
    assert("role_permission"@.len() == 15);
    assert("role_permissions"@.len() == 16);
    assert("api_key"@.len() == 7);
    assert("api_keys"@.len() == 8);
    assert("team"@[0] != "user"@[0]);
    assert("team"@ != "user"@);
    assert("teams"@[0] != "users"@[0]);
    assert("teams"@ != "users"@);
    assert("role"@[0] != "user"@[0]);
    assert("role"@ != "user"@);
    assert("role"@[0] != "team"@[0]);
    assert("role"@ != "team"@);
    assert("roles"@[0] != "users"@[0]);
    assert("roles"@ != "users"@);
    assert("roles"@[0] != "teams"@[0]);
    assert("roles"@ != "teams"@);
    assert("role_permission"@[0] != "upload_profiles"@[0]);
    assert("role_permission"@ != "upload_profiles"@);
    assert("role_permissions"@[0] != "storage_location"@[0]);
    assert("role_permissions"@ != "storage_location"@);
    assert("api_key"@[0] != "project"@[0]);
    assert("api_key"@ != "project"@);
    assert("api_keys"@[0] != "projects"@[0]);
    assert("api_keys"@ != "projects"@);
}


} // verus!
