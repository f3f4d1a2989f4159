use pic_store_bootstrap::credential::{
    api_key_prefix, derive_api_key_hash, parse_key, CredentialError,
};
use pic_store_bootstrap::classify::{classify, ObjectType};
use pic_store_bootstrap::loader::{bootstrap, BootstrapError, SourceFile};
use pic_store_bootstrap::records::Record;
use sha2::Digest;

const TEAM_A: &str = "11111111-2222-3333-4444-555555555555";
const USER_A: &str = "aaaaaaaa-bbbb-cccc-dddd-eeeeeeeeeeee";

fn key_string(id: u128, random: u128) -> String {
    format!(
        "{}.{}.{}",
        api_key_prefix(),
        base64::encode_config(id.to_be_bytes(), base64::URL_SAFE_NO_PAD),
        base64::encode_config(random.to_be_bytes(), base64::URL_SAFE_NO_PAD),
    )
}

#[test]
fn parse_key_round_trips_the_components() {
    let id: u128 = 0x00112233_4455_6677_8899_aabbccddeeff;
    let random: u128 = 0xffeeddcc_bbaa_9988_7766_554433221100;
    let (pid, prandom) = parse_key(&key_string(id, random)).unwrap();
    assert_eq!(pid, id);
    assert_eq!(prandom, random);
}

#[test]
fn derivation_is_deterministic_and_sensitive_to_every_part() {
    let id: u128 = 1;
    let random: u128 = 2;
    let expires: i64 = 1700000000;
    let h = derive_api_key_hash(api_key_prefix(), id, random, expires);
    let again = derive_api_key_hash(api_key_prefix(), id, random, expires);
    assert_eq!(h, again);
    assert_eq!(h.len(), 32);
    // Changing any one of prefix, id, random or expiry changes the digest.
    assert_ne!(h, derive_api_key_hash("qs1", id, random, expires));
    assert_ne!(h, derive_api_key_hash(api_key_prefix(), id + 1, random, expires));
    assert_ne!(h, derive_api_key_hash(api_key_prefix(), id, random + 1, expires));
    assert_ne!(h, derive_api_key_hash(api_key_prefix(), id, random, expires + 1));
}

#[test]
fn derived_hash_is_the_digest_of_the_fixed_layout() {
    // The digest message is id, random and expiry big-endian at fixed
    // offsets, then the prefix bytes; the stored hash is its SHA-256.
    let id: u128 = 0x0102030405060708090a0b0c0d0e0f10;
    let random: u128 = 0x1112131415161718191a1b1c1d1e1f20;
    let expires: i64 = 123456789;
    let mut message: Vec<u8> = Vec::new();
    message.extend_from_slice(&id.to_be_bytes());
    message.extend_from_slice(&random.to_be_bytes());
    message.extend_from_slice(&(expires as u64).to_be_bytes());
    message.extend_from_slice(api_key_prefix().as_bytes());
    let expected = sha2::Sha256::digest(&message).to_vec();
    assert_eq!(derive_api_key_hash(api_key_prefix(), id, random, expires), expected);
}

#[test]
fn malformed_credential_is_rejected() {
    match parse_key(&format!("{}.onlytwoparts", api_key_prefix())) {
        Err(CredentialError::Malformed) => {}
        _ => panic!("two-part key must be malformed"),
    }
    match parse_key("way.too.many.parts") {
        Err(CredentialError::Malformed) => {}
        _ => panic!("four-part key must be malformed"),
    }
    // Valid shape but a part that is not 16 bytes of base64.
    match parse_key(&format!("{}.AAAA.AAAA", api_key_prefix())) {
        Err(CredentialError::Malformed) => {}
        _ => panic!("short parts must be malformed"),
    }
}

#[test]
fn wrong_prefix_is_rejected() {
    let id: u128 = 3;
    let random: u128 = 4;
    let good = key_string(id, random);
    let bad = format!("WRONG{}", &good[good.find('.').unwrap()..]);
    match parse_key(&bad) {
        Err(CredentialError::PrefixMismatch) => {}
        _ => panic!("wrong prefix must be a prefix mismatch"),
    }
}

fn api_key_file(key: &str, expires: i64) -> String {
    format!(
        "{{\"key\": \"{}\", \"name\": \"ci\", \"team_id\": \"{}\", \"user_id\": \"{}\", \"inherits_user_permissions\": true, \"expires\": {}}}",
        key, TEAM_A, USER_A, expires
    )
}

fn base_files(extra_name: &str, extra_source: &str) -> Vec<SourceFile> {
    vec![
        SourceFile {
            name: "a.team.json".to_string(),
            source: format!("{{\"id\": \"{}\", \"name\": \"alpha\"}}", TEAM_A),
        },
        SourceFile {
            name: "b.user.json".to_string(),
            source: format!(
                "{{\"id\": \"{}\", \"name\": \"ada\", \"email\": \"ada@example.com\"}}",
                USER_A
            ),
        },
        SourceFile { name: extra_name.to_string(), source: extra_source.to_string() },
    ]
}

#[test]
fn api_key_record_is_reconstructed_without_the_secret() {
    let id: u128 = 0x00112233_4455_6677_8899_aabbccddeeff;
    let random: u128 = 0x0f1e2d3c_4b5a_6978_8796_a5b4c3d2e1f0;
    let expires: i64 = 1893456000;
    let key = key_string(id, random);
    let files = base_files("k.api_key.json", &api_key_file(&key, expires));
    let now: i64 = 1700000099;
    let recs = bootstrap(&files, &Vec::new(), now).unwrap();
    let rec = recs
        .iter()
        .find_map(|r| match r {
            Record::ApiKey(k) => Some(k),
            _ => None,
        })
        .expect("an api key record");
    assert_eq!(rec.id, id);
    assert_eq!(rec.name, "ci");
    assert_eq!(rec.prefix, api_key_prefix());
    assert_eq!(rec.created, now);
    assert_eq!(rec.expires, expires);
    assert!(rec.inherits_user_permissions);
    // The stored hash is exactly what a verifier recomputes from the
    // presented credential.
    let (pid, prandom) = parse_key(&key).unwrap();
    let recomputed = derive_api_key_hash(api_key_prefix(), pid, prandom, expires);
    assert_eq!(rec.hash, recomputed);
    // And the raw random component is in no field of the record.
    assert_ne!(rec.hash, random.to_be_bytes().to_vec());
}

#[test]
fn bad_credential_aborts_the_load() {
    let files =
        base_files("k.api_key.json", &api_key_file("ps1.onlytwoparts", 1893456000));
    match bootstrap(&files, &Vec::new(), 0) {
        Err(BootstrapError::MalformedCredential { file }) => {
            assert_eq!(file, "k.api_key.json")
        }
        _ => panic!("expected MalformedCredential"),
    }
    let id: u128 = 5;
    let random: u128 = 6;
    let good = key_string(id, random);
    let wrong = format!("XXX{}", &good[good.find('.').unwrap()..]);
    let files = base_files("k.api_keys.json", &api_key_file(&wrong, 1893456000));
    match bootstrap(&files, &Vec::new(), 0) {
        Err(BootstrapError::PrefixMismatch { file }) => assert_eq!(file, "k.api_keys.json"),
        _ => panic!("expected PrefixMismatch"),
    }
}

#[test]
fn classify_accepts_singular_and_plural_tags() {
    assert_eq!(classify("x.user.json"), Some(ObjectType::User));
    assert_eq!(classify("x.users.json"), Some(ObjectType::User));
    assert_eq!(classify("x.team.json"), Some(ObjectType::Team));
    assert_eq!(classify("x.teams.json"), Some(ObjectType::Team));
    assert_eq!(classify("x.user_role.json"), Some(ObjectType::UserRole));
    assert_eq!(classify("x.project.json"), Some(ObjectType::Project));
    assert_eq!(classify("x.conversion_profiles.json"), Some(ObjectType::ConversionProfile));
    assert_eq!(classify("x.storage_location.json"), Some(ObjectType::StorageLocation));
    assert_eq!(classify("x.upload_profiles.json"), Some(ObjectType::UploadProfile));
    assert_eq!(classify("x.role.json"), Some(ObjectType::Role));
    assert_eq!(classify("x.role_permissions.json"), Some(ObjectType::RolePermission));
    assert_eq!(classify("x.api_key.json"), Some(ObjectType::ApiKey));
    assert_eq!(classify("deep/dir/x.api_keys.json"), Some(ObjectType::ApiKey));
}

#[test]
fn classify_rejects_unknown_and_short_names() {
    assert_eq!(classify("x.widget.json"), None);
    assert_eq!(classify("team.json"), None);
    assert_eq!(classify("noextension"), None);
    assert_eq!(classify(""), None);
}
