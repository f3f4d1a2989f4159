use pic_store_bootstrap::loader::{bootstrap, BootstrapError, SourceFile};
use pic_store_bootstrap::records::Record;

fn file(name: &str, source: &str) -> SourceFile {
    SourceFile { name: name.to_string(), source: source.to_string() }
}

fn no_env() -> Vec<(String, String)> {
    Vec::new()
}

const TEAM_A: &str = "11111111-2222-3333-4444-555555555555";
const USER_A: &str = "aaaaaaaa-bbbb-cccc-dddd-eeeeeeeeeeee";
const ROLE_A: &str = "99999999-8888-7777-6666-555555555555";
const PROJECT_A: &str = "01234567-89ab-cdef-0123-456789abcdef";

fn team_json() -> String {
    format!("{{\"id\": \"{}\", \"name\": \"alpha\"}}", TEAM_A)
}

fn user_json() -> String {
    format!("{{\"id\": \"{}\", \"name\": \"ada\", \"email\": \"ada@example.com\"}}", USER_A)
}

fn project_json() -> String {
    format!("{{\"id\": \"{}\", \"team_id\": \"{}\", \"name\": \"site\"}}", PROJECT_A, TEAM_A)
}

#[test]
fn loads_a_single_team_file() {
    let files = vec![file("t.team.json", &team_json())];
    let recs = bootstrap(&files, &no_env(), 7).unwrap();
    assert_eq!(recs.len(), 1);
    match &recs[0] {
        Record::Team(t) => {
            assert_eq!(t.id, 0x11111111_2222_3333_4444_555555555555u128);
            assert_eq!(t.name, "alpha");
        }
        other => panic!("expected a team record, got {:?}", record_tag(other)),
    }
}

fn record_tag(r: &Record) -> &'static str {
    match r {
        Record::User(_) => "user",
        Record::UserRole(_) => "user_role",
        Record::Team(_) => "team",
        Record::Project(_) => "project",
        Record::ConversionProfile(_) => "conversion_profile",
        Record::StorageLocation(_) => "storage_location",
        Record::UploadProfile(_) => "upload_profile",
        Record::Role(_) => "role",
        Record::RolePermission(_) => "role_permission",
        Record::ApiKey(_) => "api_key",
    }
}

#[test]
fn atomicity_one_invalid_file_means_zero_records() {
    // The invalid file in every position: the load never yields any records.
    let team = team_json();
    let user = user_json();
    for pos in 0..3 {
        let mut files = vec![
            file("a.team.json", &team),
            file("b.user.json", &user),
        ];
        files.insert(pos, file("x.widget.json", "{}"));
        let r = bootstrap(&files, &no_env(), 0);
        assert!(r.is_err(), "invalid file at position {} must abort the load", pos);
    }
    // Without the invalid file the same data loads completely.
    let files = vec![file("a.team.json", &team), file("b.user.json", &user)];
    assert_eq!(bootstrap(&files, &no_env(), 0).unwrap().len(), 2);
}

#[test]
fn constraint_deferral_forward_reference_loads() {
    // The project file comes first and references a team defined later.
    let files = vec![
        file("p.project.json", &project_json()),
        file("t.team.json", &team_json()),
    ];
    let recs = bootstrap(&files, &no_env(), 0).unwrap();
    assert_eq!(recs.len(), 2);
}

#[test]
fn integrity_missing_reference_rolls_back() {
    let files = vec![file("p.project.json", &project_json())];
    match bootstrap(&files, &no_env(), 0) {
        Err(BootstrapError::Integrity) => {}
        other => panic!("expected an integrity failure, got {}", describe(&other)),
    }
}

fn describe(r: &Result<Vec<Record>, BootstrapError>) -> String {
    match r {
        Ok(recs) => format!("Ok with {} records", recs.len()),
        Err(BootstrapError::Discovery(m)) => format!("Discovery({})", m),
        Err(BootstrapError::Template { file }) => format!("Template({})", file),
        Err(BootstrapError::Parse { file }) => format!("Parse({})", file),
        Err(BootstrapError::UnknownObjectType { file }) => format!("UnknownObjectType({})", file),
        Err(BootstrapError::MalformedRecord { file }) => format!("MalformedRecord({})", file),
        Err(BootstrapError::Decode { file, field }) => format!("Decode({}, {})", file, field),
        Err(BootstrapError::MalformedCredential { file }) => {
            format!("MalformedCredential({})", file)
        }
        Err(BootstrapError::PrefixMismatch { file }) => format!("PrefixMismatch({})", file),
        Err(BootstrapError::Integrity) => "Integrity".to_string(),
    }
}

#[test]
fn type_synonyms_have_identical_effects() {
    let content = user_json();
    let singular = bootstrap(&vec![file("x.user.json", &content)], &no_env(), 3).unwrap();
    let plural = bootstrap(&vec![file("x.users.json", &content)], &no_env(), 3).unwrap();
    assert_eq!(singular.len(), 1);
    assert_eq!(plural.len(), 1);
    match (&singular[0], &plural[0]) {
        (Record::User(a), Record::User(b)) => {
            assert_eq!(a.id, b.id);
            assert_eq!(a.name, b.name);
            assert_eq!(a.email, b.email);
        }
        _ => panic!("both files must decode as user records"),
    }
}

#[test]
fn unknown_type_is_rejected() {
    let files = vec![file("x.widget.json", "{}")];
    match bootstrap(&files, &no_env(), 0) {
        Err(BootstrapError::UnknownObjectType { file }) => assert_eq!(file, "x.widget.json"),
        other => panic!("expected UnknownObjectType, got {}", describe(&other)),
    }
}

#[test]
fn too_few_dot_segments_is_rejected() {
    let files = vec![file("team.json", &team_json())];
    match bootstrap(&files, &no_env(), 0) {
        Err(BootstrapError::UnknownObjectType { file }) => assert_eq!(file, "team.json"),
        other => panic!("expected UnknownObjectType, got {}", describe(&other)),
    }
}

#[test]
fn array_top_level_inserts_one_record_per_element() {
    let source = format!(
        "[{{\"id\": \"{}\", \"name\": \"alpha\"}}, {{\"id\": \"{}\", \"name\": \"beta\"}}]",
        TEAM_A, "21111111-2222-3333-4444-555555555555"
    );
    let files = vec![file("t.teams.json", &source)];
    let recs = bootstrap(&files, &no_env(), 0).unwrap();
    assert_eq!(recs.len(), 2);
}

#[test]
fn bare_string_top_level_is_malformed() {
    let files = vec![file("t.team.json", "\"not a record\"")];
    match bootstrap(&files, &no_env(), 0) {
        Err(BootstrapError::MalformedRecord { file }) => assert_eq!(file, "t.team.json"),
        other => panic!("expected MalformedRecord, got {}", describe(&other)),
    }
}

#[test]
fn array_with_non_object_element_is_malformed() {
    let source = format!("[{{\"id\": \"{}\", \"name\": \"alpha\"}}, 17]", TEAM_A);
    let files = vec![file("t.teams.json", &source)];
    match bootstrap(&files, &no_env(), 0) {
        Err(BootstrapError::MalformedRecord { .. }) => {}
        other => panic!("expected MalformedRecord, got {}", describe(&other)),
    }
}

#[test]
fn invalid_json_is_a_parse_error() {
    let files = vec![file("t.team.json", "{not json at all")];
    match bootstrap(&files, &no_env(), 0) {
        Err(BootstrapError::Parse { file }) => assert_eq!(file, "t.team.json"),
        other => panic!("expected Parse, got {}", describe(&other)),
    }
}

#[test]
fn missing_field_names_the_field() {
    let files = vec![file("t.team.json", &format!("{{\"id\": \"{}\"}}", TEAM_A))];
    match bootstrap(&files, &no_env(), 0) {
        Err(BootstrapError::Decode { file, field }) => {
            assert_eq!(file, "t.team.json");
            assert_eq!(field, "name");
        }
        other => panic!("expected Decode, got {}", describe(&other)),
    }
}

#[test]
fn bad_template_is_a_template_error() {
    let files = vec![file("t.team.json", "{% if %}")];
    match bootstrap(&files, &no_env(), 0) {
        Err(BootstrapError::Template { file }) => assert_eq!(file, "t.team.json"),
        other => panic!("expected Template, got {}", describe(&other)),
    }
}

#[test]
fn template_renders_environment_variables() {
    // Proves the renderer really substitutes: with the variables absent the
    // file would not even parse as JSON.
    let source = "{\"id\": \"{{ TEAM_ID }}\", \"name\": \"{{ TEAM_NAME }}\"}";
    let env = vec![
        ("TEAM_ID".to_string(), TEAM_A.to_string()),
        ("TEAM_NAME".to_string(), "rendered".to_string()),
    ];
    let recs = bootstrap(&vec![file("t.team.json", source)], &env, 0).unwrap();
    match &recs[0] {
        Record::Team(t) => assert_eq!(t.name, "rendered"),
        _ => panic!("expected a team record"),
    }
}

#[test]
fn full_record_set_with_references_loads() {
    let role = format!("{{\"id\": \"{}\", \"name\": \"admin\"}}", ROLE_A);
    let user_role = format!(
        "{{\"user_id\": \"{}\", \"team_id\": \"{}\", \"role_id\": \"{}\"}}",
        USER_A, TEAM_A, ROLE_A
    );
    let role_permission =
        format!("{{\"role_id\": \"{}\", \"permission\": \"write\"}}", ROLE_A);
    let conversion = format!(
        "{{\"id\": \"31111111-2222-3333-4444-555555555555\", \"team_id\": \"{}\", \"project_id\": \"{}\", \"name\": \"webp\"}}",
        TEAM_A, PROJECT_A
    );
    let storage = format!(
        "{{\"id\": \"41111111-2222-3333-4444-555555555555\", \"team_id\": \"{}\", \"connection\": \"s3://bucket\"}}",
        TEAM_A
    );
    let upload = format!(
        "{{\"id\": \"51111111-2222-3333-4444-555555555555\", \"team_id\": \"{}\", \"name\": \"default\"}}",
        TEAM_A
    );
    let files = vec![
        // Referencing records first: deferral makes the order irrelevant.
        file("f.user_role.json", &user_role),
        file("g.role_permission.json", &role_permission),
        file("h.conversion_profile.json", &conversion),
        file("i.storage_location.json", &storage),
        file("j.upload_profile.json", &upload),
        file("a.team.json", &team_json()),
        file("b.user.json", &user_json()),
        file("c.role.json", &role),
        file("d.project.json", &project_json()),
    ];
    let recs = bootstrap(&files, &no_env(), 0).unwrap();
    assert_eq!(recs.len(), 9);
}

#[test]
fn user_role_with_missing_role_rolls_back() {
    let user_role = format!(
        "{{\"user_id\": \"{}\", \"team_id\": \"{}\", \"role_id\": \"{}\"}}",
        USER_A, TEAM_A, ROLE_A
    );
    let files = vec![
        file("f.user_role.json", &user_role),
        file("a.team.json", &team_json()),
        file("b.user.json", &user_json()),
    ];
    match bootstrap(&files, &no_env(), 0) {
        Err(BootstrapError::Integrity) => {}
        other => panic!("expected Integrity, got {}", describe(&other)),
    }
}

#[test]
fn malformed_uuid_field_is_a_decode_error() {
    let files = vec![file("t.team.json", "{\"id\": \"not-a-uuid\", \"name\": \"x\"}")];
    match bootstrap(&files, &no_env(), 0) {
        Err(BootstrapError::Decode { field, .. }) => assert_eq!(field, "id"),
        other => panic!("expected Decode, got {}", describe(&other)),
    }
}

#[test]
fn empty_file_set_loads_zero_records() {
    let recs = bootstrap(&Vec::new(), &no_env(), 0).unwrap();
    assert_eq!(recs.len(), 0);
}

#[test]
fn empty_array_file_loads_zero_records() {
    let files = vec![file("t.teams.json", "[]")];
    let recs = bootstrap(&files, &no_env(), 0).unwrap();
    assert_eq!(recs.len(), 0);
}
