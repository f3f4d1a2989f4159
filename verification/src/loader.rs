//! The transactional loader: applies every discovered file — render, parse,
//! classify, dispatch — and validates referential integrity over the whole
//! record set at the end, the way a deferred-constraint transaction does at
//! commit. The result is every record of every file, or one error and no
//! records at all.

use vstd::prelude::*;
use crate::json::JsonValue;
use crate::classify::{ObjectType, spec_classify, classify};
use crate::records::{
    Record, RecordV, ObjectError, ObjectErrorV, spec_apply_object, apply_object,
};
use crate::outside::{parsed_json, parse_json, render_template};

verus! {

/// One discovered bootstrap file: its filename (which carries the type tag)
/// and its raw template source.
pub struct SourceFile {
    pub name: String,
    pub source: String,
}

/// Why a bootstrap run failed; every variant aborts the whole load.
#[derive(Debug)]
pub enum BootstrapError {
    /// The root directory or pattern could not be walked.
    Discovery(String),
    /// The file's template did not render.
    Template { file: String },
    /// The rendered text is not JSON the loader accepts.
    Parse { file: String },
    /// The filename carries no known type tag.
    UnknownObjectType { file: String },
    /// The top level is neither an object nor an array of objects.
    MalformedRecord { file: String },
    /// A missing or mismatched field, named.
    Decode { file: String, field: String },
    MalformedCredential { file: String },
    PrefixMismatch { file: String },
    /// A foreign-key target missing from the full record set at commit.
    Integrity,
}

pub ghost enum LoadErrV {
    Discovery(Seq<char>),
    Template,
    Parse,
    UnknownObjectType,
    MalformedRecord,
    Decode(Seq<char>),
    MalformedCredential,
    PrefixMismatch,
    Integrity,
}

pub ghost struct BootstrapErrorV {
    pub kind: LoadErrV,
    pub file: Option<Seq<char>>,
}

impl View for BootstrapError {
    type V = BootstrapErrorV;

    open spec fn view(&self) -> BootstrapErrorV {
        match self {
            BootstrapError::Discovery(m) => BootstrapErrorV {
                kind: LoadErrV::Discovery(m@),
                file: None,
            },
            BootstrapError::Template { file } => BootstrapErrorV {
                kind: LoadErrV::Template,
                file: Some(file@),
            },
            BootstrapError::Parse { file } => BootstrapErrorV {
                kind: LoadErrV::Parse,
                file: Some(file@),
            },
            BootstrapError::UnknownObjectType { file } => BootstrapErrorV {
                kind: LoadErrV::UnknownObjectType,
                file: Some(file@),
            },
            BootstrapError::MalformedRecord { file } => BootstrapErrorV {
                kind: LoadErrV::MalformedRecord,
                file: Some(file@),
            },
            BootstrapError::Decode { file, field } => BootstrapErrorV {
                kind: LoadErrV::Decode(field@),
                file: Some(file@),
            },
            BootstrapError::MalformedCredential { file } => BootstrapErrorV {
                kind: LoadErrV::MalformedCredential,
                file: Some(file@),
            },
            BootstrapError::PrefixMismatch { file } => BootstrapErrorV {
                kind: LoadErrV::PrefixMismatch,
                file: Some(file@),
            },
            BootstrapError::Integrity => BootstrapErrorV {
                kind: LoadErrV::Integrity,
                file: None,
            },
        }
    }
}

/// The views of a vector of records.
pub open spec fn views_of(recs: Seq<Record>) -> Seq<RecordV> {
    recs.map_values(|x: Record| x@)
}

pub open spec fn obj_err_kind(e: ObjectErrorV) -> LoadErrV {
    match e {
        ObjectErrorV::Decode(f) => LoadErrV::Decode(f),
        ObjectErrorV::MalformedCredential => LoadErrV::MalformedCredential,
        ObjectErrorV::PrefixMismatch => LoadErrV::PrefixMismatch,
    }
}

/// The records of an array-shaped file: one per element, each of which must
/// be a JSON object; the first failure wins.
pub open spec fn spec_apply_items(t: ObjectType, items: Seq<JsonValue>, now: i64) -> Result<
    Seq<RecordV>,
    LoadErrV,
>
    decreases items.len(),
{
    if items.len() == 0 {
        Ok(Seq::<RecordV>::empty())
    } else {
        match items[0] {
            JsonValue::Object(fields) => match spec_apply_object(t, fields@, now) {
                Err(e) => Err(obj_err_kind(e)),
                Ok(rv) => match spec_apply_items(t, items.drop_first(), now) {
                    Err(e) => Err(e),
                    Ok(rest) => Ok(seq![rv] + rest),
                },
            },
            _ => Err(LoadErrV::MalformedRecord),
        }
    }
}

/// The records of a parsed file: a single object inserts one record, an
/// array one per element, anything else is malformed.
pub open spec fn spec_apply_parsed(t: ObjectType, v: JsonValue, now: i64) -> Result<
    Seq<RecordV>,
    LoadErrV,
> {
    match v {
        JsonValue::Object(fields) => match spec_apply_object(t, fields@, now) {
            Ok(rv) => Ok(seq![rv]),
            Err(e) => Err(obj_err_kind(e)),
        },
        JsonValue::Array(items) => spec_apply_items(t, items@, now),
        _ => Err(LoadErrV::MalformedRecord),
    }
}

/// The records of one file, given its rendered text: parse, classify,
/// dispatch.
pub open spec fn spec_apply_rendered(name: Seq<char>, text: Seq<char>, now: i64) -> Result<
    Seq<RecordV>,
    LoadErrV,
> {
    match parsed_json(text) {
        None => Err(LoadErrV::Parse),
        Some(v) => match spec_classify(name) {
            None => Err(LoadErrV::UnknownObjectType),
            Some(t) => spec_apply_parsed(t, v, now),
        },
    }
}

/// Applies one file's rendered text: parses it, classifies the filename and
/// dispatches every record in it.
#[verifier::rlimit(100)]
#[verifier::loop_isolation(false)]
pub fn apply_rendered(name: &str, text: &str, now: i64) -> (r: Result<
    Vec<Record>,
    BootstrapError,
>)
    ensures
        match r {
            Ok(recs) => spec_apply_rendered(name@, text@, now) == Ok::<Seq<RecordV>, LoadErrV>(
                views_of(recs@),
            ),
            Err(e) => spec_apply_rendered(name@, text@, now) == Err::<Seq<RecordV>, LoadErrV>(
                e@.kind,
            ) && e@.file == Some(name@),
        },
{
    let parsed = match parse_json(text) {
        Some(v) => v,
        None => return Err(BootstrapError::Parse { file: name.to_owned() }),
    };
    let t = match classify(name) {
        Some(t) => t,
        None => return Err(BootstrapError::UnknownObjectType { file: name.to_owned() }),
    };
    match parsed {
        JsonValue::Object(fields) => match apply_object(t, &fields, now) {
            Ok(rec) => {
                let mut out: Vec<Record> = Vec::new();
                out.push(rec);
                proof {
                    assert(views_of(out@) =~= seq![out@[0]@]);
                }
                Ok(out)
            },
            Err(e) => Err(object_error_with_file(e, name)),
        },
        JsonValue::Array(items) => {
            let mut out: Vec<Record> = Vec::new();
            let mut i: usize = 0;
            proof {
                assert(items@.skip(0) =~= items@);
                assert(views_of(out@) + Seq::<RecordV>::empty() =~= views_of(out@));
            }
            while i < items.len()
                invariant
                    i <= items@.len(),
                    items_loop_inv(t, items@, now, views_of(out@), i as int),
                decreases items@.len() - i,
            {
                proof {
                    let suf = items@.skip(i as int);
                    assert(suf[0] == items@[i as int]);
                    assert(suf.drop_first() =~= items@.skip(i as int + 1));
                }
                let item = &items[i];
                match item {
                    JsonValue::Object(fields) => {
                        match apply_object(t, fields, now) {
                            Ok(rec) => {
                                let ghost oldviews = views_of(out@);
                                out.push(rec);
                                proof {
                                    assert(views_of(out@) =~= oldviews + seq![out@.last()@]);
                                    assert_items_step(t, items@, now, oldviews, i as int);
                                }
                            },
                            Err(e) => {
                                proof {
                                    let suf = items@.skip(i as int);
                                    assert(suf[0] == items@[i as int]);
                                    assert(spec_apply_items(t, suf, now) == Err::<
                                        Seq<RecordV>,
                                        LoadErrV,
                                    >(obj_err_kind(e@)));
                                }
                                return Err(object_error_with_file(e, name));
                            },
                        }
                    },
                    _ => {
                        proof {
                            let suf = items@.skip(i as int);
                            assert(suf[0] == items@[i as int]);
                            assert(spec_apply_items(t, suf, now) == Err::<Seq<RecordV>, LoadErrV>(
                                LoadErrV::MalformedRecord,
                            ));
                        }
                        return Err(BootstrapError::MalformedRecord { file: name.to_owned() });
                    },
                }
                i += 1;
            }
            proof {
                assert(items@.skip(items@.len() as int) =~= Seq::<JsonValue>::empty());
                assert(views_of(out@) + Seq::<RecordV>::empty() =~= views_of(out@));
            }
            Ok(out)
        },
        _ => Err(BootstrapError::MalformedRecord { file: name.to_owned() }),
    }
}

/// The loop relation of `apply_rendered` on an array file: what the whole
/// array yields is the records gathered so far plus whatever the unprocessed
/// suffix yields.
pub open spec fn items_loop_inv(
    t: ObjectType,
    items: Seq<JsonValue>,
    now: i64,
    sofar: Seq<RecordV>,
    i: int,
) -> bool {
    match spec_apply_items(t, items.skip(i), now) {
        Ok(rest) => spec_apply_items(t, items, now) == Ok::<Seq<RecordV>, LoadErrV>(
            sofar + rest,
        ),
        Err(e) => spec_apply_items(t, items, now) == Err::<Seq<RecordV>, LoadErrV>(e),
    }
}

proof fn assert_items_step(
    t: ObjectType,
    items: Seq<JsonValue>,
    now: i64,
    sofar: Seq<RecordV>,
    i: int,
)
    requires
        0 <= i < items.len(),
        items_loop_inv(t, items, now, sofar, i),
        items[i] matches JsonValue::Object(fields) && spec_apply_object(t, fields@, now) is Ok,
    ensures
        items_loop_inv(
            t,
            items,
            now,
            sofar + seq![spec_apply_object(t, items[i]->Object_0@, now)->Ok_0],
            i + 1,
        ),
{
    let suf = items.skip(i);
    assert(suf[0] == items[i]);
    assert(suf.drop_first() =~= items.skip(i + 1));
    let rv = spec_apply_object(t, items[i]->Object_0@, now)->Ok_0;
    match spec_apply_items(t, items.skip(i + 1), now) {
        Ok(rest) => {
            assert(spec_apply_items(t, suf, now) == Ok::<Seq<RecordV>, LoadErrV>(
                seq![rv] + rest,
            ));
            assert(sofar + (seq![rv] + rest) =~= (sofar + seq![rv]) + rest);
        },
        Err(e) => {},
    }
}

/// Attaches the offending file's name to an object-level error.
fn object_error_with_file(e: ObjectError, name: &str) -> (r: BootstrapError)
    ensures
        r@.kind == obj_err_kind(e@),
        r@.file == Some(name@),
{
    match e {
        ObjectError::Decode(f) => BootstrapError::Decode { file: name.to_owned(), field: f },
        ObjectError::MalformedCredential => BootstrapError::MalformedCredential {
            file: name.to_owned(),
        },
        ObjectError::PrefixMismatch => BootstrapError::PrefixMismatch {
            file: name.to_owned(),
        },
    }
}

// ---- referential integrity, validated over the whole set at commit ----

pub open spec fn team_exists(recs: Seq<RecordV>, id: u128) -> bool {
    exists|i: int|
        {
            &&& 0 <= i < recs.len()
            &&& #[trigger] recs[i] matches RecordV::Team(t)
            &&& t.id == id
        }
}

pub open spec fn user_exists(recs: Seq<RecordV>, id: u128) -> bool {
    exists|i: int|
        {
            &&& 0 <= i < recs.len()
            &&& #[trigger] recs[i] matches RecordV::User(u)
            &&& u.id == id
        }
}

pub open spec fn role_exists(recs: Seq<RecordV>, id: u128) -> bool {
    exists|i: int|
        {
            &&& 0 <= i < recs.len()
            &&& #[trigger] recs[i] matches RecordV::Role(r)
            &&& r.id == id
        }
}

pub open spec fn project_exists(recs: Seq<RecordV>, id: u128) -> bool {
    exists|i: int|
        {
            &&& 0 <= i < recs.len()
            &&& #[trigger] recs[i] matches RecordV::Project(p)
            &&& p.id == id
        }
}

/// Whether every reference a record makes is defined somewhere in the set —
/// anywhere, not necessarily before the record itself.
pub open spec fn record_refs_ok(r: RecordV, recs: Seq<RecordV>) -> bool {
    match r {
        RecordV::User(_) => true,
        RecordV::Team(_) => true,
        RecordV::Role(_) => true,
        RecordV::UserRole(x) => user_exists(recs, x.user_id) && team_exists(recs, x.team_id)
            && role_exists(recs, x.role_id),
        RecordV::Project(x) => team_exists(recs, x.team_id),
        RecordV::RolePermission(x) => role_exists(recs, x.role_id),
        RecordV::ConversionProfile(x) => team_exists(recs, x.team_id) && (match x.project_id {
            Some(p) => project_exists(recs, p),
            None => true,
        }),
        RecordV::StorageLocation(x) => team_exists(recs, x.team_id),
        RecordV::UploadProfile(x) => team_exists(recs, x.team_id) && (match x.project_id {
            Some(p) => project_exists(recs, p),
            None => true,
        }),
        RecordV::ApiKey(x) => team_exists(recs, x.team_id) && user_exists(recs, x.user_id),
    }
}

/// The deferred-constraint condition: every reference of every record is
/// satisfied by the full set.
pub open spec fn integrity_ok(recs: Seq<RecordV>) -> bool {
    forall|i: int| 0 <= i < recs.len() ==> #[trigger] record_refs_ok(recs[i], recs)
}

fn contains_team(recs: &Vec<Record>, id: u128) -> (b: bool)
    ensures
        b == team_exists(views_of(recs@), id),
{
    let mut j: usize = 0;
    while j < recs.len()
        invariant
            j <= recs@.len(),
            forall|k: int|
                0 <= k < j ==> !(#[trigger] views_of(recs@)[k] matches RecordV::Team(t) && t.id
                    == id),
        decreases recs@.len() - j,
    {
        match &recs[j] {
            Record::Team(t) => {
                if t.id == id {
                    proof {
                        assert(views_of(recs@)[j as int] matches RecordV::Team(tv) && tv.id
                            == id);
                    }
                    return true;
                }
            },
            _ => {},
        }
        proof {
            assert(!(views_of(recs@)[j as int] matches RecordV::Team(t) && t.id == id));
        }
        j += 1;
    }
    false
}

fn contains_user(recs: &Vec<Record>, id: u128) -> (b: bool)
    ensures
        b == user_exists(views_of(recs@), id),
{
    let mut j: usize = 0;
    while j < recs.len()
        invariant
            j <= recs@.len(),
            forall|k: int|
                0 <= k < j ==> !(#[trigger] views_of(recs@)[k] matches RecordV::User(u) && u.id
                    == id),
        decreases recs@.len() - j,
    {
        match &recs[j] {
            Record::User(u) => {
                if u.id == id {
                    proof {
                        assert(views_of(recs@)[j as int] matches RecordV::User(uv) && uv.id
                            == id);
                    }
                    return true;
                }
            },
            _ => {},
        }
        proof {
            assert(!(views_of(recs@)[j as int] matches RecordV::User(u) && u.id == id));
        }
        j += 1;
    }
    false
}

fn contains_role(recs: &Vec<Record>, id: u128) -> (b: bool)
    ensures
        b == role_exists(views_of(recs@), id),
{
    let mut j: usize = 0;
    while j < recs.len()
        invariant
            j <= recs@.len(),
            forall|k: int|
                0 <= k < j ==> !(#[trigger] views_of(recs@)[k] matches RecordV::Role(r) && r.id
                    == id),
        decreases recs@.len() - j,
    {
        match &recs[j] {
            Record::Role(r) => {
                if r.id == id {
                    proof {
                        assert(views_of(recs@)[j as int] matches RecordV::Role(rv) && rv.id
                            == id);
                    }
                    return true;
                }
            },
            _ => {},
        }
        proof {
            assert(!(views_of(recs@)[j as int] matches RecordV::Role(r) && r.id == id));
        }
        j += 1;
    }
    false
}

fn contains_project(recs: &Vec<Record>, id: u128) -> (b: bool)
    ensures
        b == project_exists(views_of(recs@), id),
{
    let mut j: usize = 0;
    while j < recs.len()
        invariant
            j <= recs@.len(),
            forall|k: int|
                0 <= k < j ==> !(#[trigger] views_of(recs@)[k] matches RecordV::Project(p)
                    && p.id == id),
        decreases recs@.len() - j,
    {
        match &recs[j] {
            Record::Project(p) => {
                if p.id == id {
                    proof {
                        assert(views_of(recs@)[j as int] matches RecordV::Project(pv) && pv.id
                            == id);
                    }
                    return true;
                }
            },
            _ => {},
        }
        proof {
            assert(!(views_of(recs@)[j as int] matches RecordV::Project(p) && p.id == id));
        }
        j += 1;
    }
    false
}

/// Validates every reference of every record against the full set, as the
/// store does for deferred constraints at commit time.
pub fn check_integrity(recs: &Vec<Record>) -> (b: bool)
    ensures
        b == integrity_ok(views_of(recs@)),
{
    let mut i: usize = 0;
    while i < recs.len()
        invariant
            i <= recs@.len(),
            forall|j: int|
                0 <= j < i ==> #[trigger] record_refs_ok(views_of(recs@)[j], views_of(recs@)),
        decreases recs@.len() - i,
    {
        let ok: bool = match &recs[i] {
            Record::User(_) => true,
            Record::Team(_) => true,
            Record::Role(_) => true,
            Record::UserRole(x) => contains_user(recs, x.user_id) && contains_team(
                recs,
                x.team_id,
            ) && contains_role(recs, x.role_id),
            Record::Project(x) => contains_team(recs, x.team_id),
            Record::RolePermission(x) => contains_role(recs, x.role_id),
            Record::ConversionProfile(x) => contains_team(recs, x.team_id) && (match x.project_id {
                Some(p) => contains_project(recs, p),
                None => true,
            }),
            Record::StorageLocation(x) => contains_team(recs, x.team_id),
            Record::UploadProfile(x) => contains_team(recs, x.team_id) && (match x.project_id {
                Some(p) => contains_project(recs, p),
                None => true,
            }),
            Record::ApiKey(x) => contains_team(recs, x.team_id) && contains_user(
                recs,
                x.user_id,
            ),
        };
        if !ok {
            proof {
                assert(!record_refs_ok(views_of(recs@)[i as int], views_of(recs@)));
            }
            return false;
        }
        proof {
            assert(record_refs_ok(views_of(recs@)[i as int], views_of(recs@)));
        }
        i += 1;
    }
    true
}

// ---- the whole load ----

/// Whether every file, rendered to the given texts, applies without error.
pub open spec fn all_files_ok(files: Seq<SourceFile>, texts: Seq<Seq<char>>, now: i64) -> bool {
    texts.len() == files.len() && forall|i: int|
        0 <= i < files.len() ==> #[trigger] spec_apply_rendered(files[i].name@, texts[i], now)
            is Ok
}

/// The records of a sequence of files, rendered to the given texts, in file
/// order.
pub open spec fn loaded_records(files: Seq<SourceFile>, texts: Seq<Seq<char>>, now: i64) -> Seq<
    RecordV,
>
    decreases files.len(),
{
    if files.len() == 0 {
        Seq::<RecordV>::empty()
    } else {
        (match spec_apply_rendered(files[0].name@, texts[0], now) {
            Ok(rs) => rs,
            Err(_) => Seq::<RecordV>::empty(),
        }) + loaded_records(files.drop_first(), texts.drop_first(), now)
    }
}

#[verifier::rlimit(100)]
proof fn lemma_loaded_snoc(
    files: Seq<SourceFile>,
    texts: Seq<Seq<char>>,
    now: i64,
    f: SourceFile,
    t: Seq<char>,
)
    requires
        texts.len() == files.len(),
    ensures
        loaded_records(files.push(f), texts.push(t), now) == loaded_records(files, texts, now)
            + (match spec_apply_rendered(f.name@, t, now) {
            Ok(rs) => rs,
            Err(_) => Seq::<RecordV>::empty(),
        }),
    decreases files.len(),
{
    let tail = match spec_apply_rendered(f.name@, t, now) {
        Ok(rs) => rs,
        Err(_) => Seq::<RecordV>::empty(),
    };
    if files.len() == 0 {
        assert(files.push(f)[0] == f);
        assert(texts.push(t)[0] == t);
        assert(files.push(f).drop_first() =~= Seq::<SourceFile>::empty());
        assert(texts.push(t).drop_first() =~= Seq::<Seq<char>>::empty());
        assert(loaded_records(Seq::<SourceFile>::empty(), Seq::<Seq<char>>::empty(), now)
            == Seq::<RecordV>::empty());
        assert(loaded_records(files.push(f), texts.push(t), now) == tail
            + Seq::<RecordV>::empty());
        assert(tail + Seq::<RecordV>::empty() =~= tail);
        assert(loaded_records(files, texts, now) + tail =~= tail);
    } else {
        lemma_loaded_snoc(files.drop_first(), texts.drop_first(), now, f, t);
        assert(files.push(f).drop_first() =~= files.drop_first().push(f));
        assert(texts.push(t).drop_first() =~= texts.drop_first().push(t));
        assert(files.push(f)[0] == files[0]);
        assert(texts.push(t)[0] == texts[0]);
        let head = match spec_apply_rendered(files[0].name@, texts[0], now) {
            Ok(rs) => rs,
            Err(_) => Seq::<RecordV>::empty(),
        };
        assert(loaded_records(files.push(f), texts.push(t), now) == head + (loaded_records(
            files.drop_first(),
            texts.drop_first(),
            now,
        ) + tail));
        assert(head + (loaded_records(files.drop_first(), texts.drop_first(), now) + tail)
            =~= (head + loaded_records(files.drop_first(), texts.drop_first(), now)) + tail);
    }
}

/// Renders, parses, classifies and dispatches every discovered file, then
/// validates referential integrity over the full record set: the model of
/// one deferred-constraint transaction. Either every record of every file
/// comes back, or one error and no records.
#[verifier::loop_isolation(false)]
pub fn bootstrap(files: &Vec<SourceFile>, env: &Vec<(String, String)>, now: i64) -> (r: Result<
    Vec<Record>,
    BootstrapError,
>)
    ensures
        match r {
            Ok(recs) => integrity_ok(views_of(recs@)) && exists|texts: Seq<Seq<char>>|
                #[trigger] all_files_ok(files@, texts, now) && views_of(recs@)
                    == loaded_records(files@, texts, now),
            Err(e) => {
                &&& (e@.kind matches LoadErrV::Integrity ==> exists|texts: Seq<Seq<char>>|
                    #[trigger] all_files_ok(files@, texts, now) && !integrity_ok(
                        loaded_records(files@, texts, now),
                    ))
                &&& (!(e@.kind matches LoadErrV::Integrity) ==> exists|i: int|
                    0 <= i < files@.len() && e@.file == Some(#[trigger] files@[i].name@))
                &&& (!(e@.kind matches LoadErrV::Integrity) && !(e@.kind
                    matches LoadErrV::Template) ==> exists|i: int, text: Seq<char>|
                    0 <= i < files@.len() && e@.file == Some(files@[i].name@) && #[trigger]
                    spec_apply_rendered(files@[i].name@, text, now) == Err::<
                        Seq<RecordV>,
                        LoadErrV,
                    >(e@.kind))
            },
        },
{
    let mut recs: Vec<Record> = Vec::new();
    let ghost mut texts: Seq<Seq<char>> = Seq::<Seq<char>>::empty();
    let mut i: usize = 0;
    proof {
        assert(files@.take(0) =~= Seq::<SourceFile>::empty());
    }
    while i < files.len()
        invariant
            i <= files@.len(),
            texts.len() == i,
            forall|j: int|
                0 <= j < i ==> #[trigger] spec_apply_rendered(files@[j].name@, texts[j], now)
                    is Ok,
            views_of(recs@) == loaded_records(files@.take(i as int), texts, now),
        decreases files@.len() - i,
    {
        let file = &files[i];
        let text = match render_template(file.source.as_str(), env) {
            Ok(t) => t,
            Err(_) => {
                let err = BootstrapError::Template { file: file.name.clone() };
                proof {
                    assert(err@.file == Some(files@[i as int].name@));
                }
                return Err(err);
            },
        };
        let mut rs = match apply_rendered(file.name.as_str(), text.as_str(), now) {
            Ok(v) => v,
            Err(e) => {
                proof {
                    assert(e@.file == Some(files@[i as int].name@));
                    assert(spec_apply_rendered(files@[i as int].name@, text@, now) == Err::<
                        Seq<RecordV>,
                        LoadErrV,
                    >(e@.kind));
                }
                return Err(e);
            },
        };
        proof {
            lemma_loaded_snoc(files@.take(i as int), texts, now, files@[i as int], text@);
            assert(files@.take(i as int).push(files@[i as int]) =~= files@.take(i as int + 1));
        }
        let ghost oldrecs = recs@;
        let ghost rsv = rs@;
        recs.append(&mut rs);
        proof {
            texts = texts.push(text@);
            assert(recs@ == oldrecs + rsv);
            assert(views_of(recs@) =~= views_of(oldrecs) + views_of(rsv));
        }
        i += 1;
    }
    proof {
        assert(files@.take(files@.len() as int) =~= files@);
    }
    if check_integrity(&recs) {
        proof {
            assert(all_files_ok(files@, texts, now));
        }
        Ok(recs)
    } else {
        proof {
            assert(all_files_ok(files@, texts, now));
        }
        Err(BootstrapError::Integrity)
    }
}


// ---- laws of the integrity condition ----

proof fn lemma_exists_transfer(a: Seq<RecordV>, b: Seq<RecordV>, id: u128)
    requires
        forall|x: RecordV| a.contains(x) ==> b.contains(x),
    ensures
        team_exists(a, id) ==> team_exists(b, id),
        user_exists(a, id) ==> user_exists(b, id),
        role_exists(a, id) ==> role_exists(b, id),
        project_exists(a, id) ==> project_exists(b, id),
{
    if team_exists(a, id) {
        let i = choose|i: int|
            {
                &&& 0 <= i < a.len()
                &&& #[trigger] a[i] matches RecordV::Team(t)
                &&& t.id == id
            };
        assert(a.contains(a[i]));
        let j = choose|j: int| 0 <= j < b.len() && b[j] == a[i];
        assert(b[j] matches RecordV::Team(t) && t.id == id);
    }
    if user_exists(a, id) {
        let i = choose|i: int|
            {
                &&& 0 <= i < a.len()
                &&& #[trigger] a[i] matches RecordV::User(u)
                &&& u.id == id
            };
        assert(a.contains(a[i]));
        let j = choose|j: int| 0 <= j < b.len() && b[j] == a[i];
        assert(b[j] matches RecordV::User(u) && u.id == id);
    }
    if role_exists(a, id) {
        let i = choose|i: int|
            {
                &&& 0 <= i < a.len()
                &&& #[trigger] a[i] matches RecordV::Role(r)
                &&& r.id == id
            };
        assert(a.contains(a[i]));
        let j = choose|j: int| 0 <= j < b.len() && b[j] == a[i];
        assert(b[j] matches RecordV::Role(r) && r.id == id);
    }
    if project_exists(a, id) {
        let i = choose|i: int|
            {
                &&& 0 <= i < a.len()
                &&& #[trigger] a[i] matches RecordV::Project(p)
                &&& p.id == id
            };
        assert(a.contains(a[i]));
        let j = choose|j: int| 0 <= j < b.len() && b[j] == a[i];
        assert(b[j] matches RecordV::Project(p) && p.id == id);
    }
}

proof fn lemma_refs_ok_transfer(r: RecordV, a: Seq<RecordV>, b: Seq<RecordV>)
    requires
        forall|x: RecordV| a.contains(x) ==> b.contains(x),
    ensures
        record_refs_ok(r, a) ==> record_refs_ok(r, b),
{
    match r {
        RecordV::UserRole(x) => {
            lemma_exists_transfer(a, b, x.user_id);
            lemma_exists_transfer(a, b, x.team_id);
            lemma_exists_transfer(a, b, x.role_id);
        },
        RecordV::Project(x) => {
            lemma_exists_transfer(a, b, x.team_id);
        },
        RecordV::RolePermission(x) => {
            lemma_exists_transfer(a, b, x.role_id);
        },
        RecordV::ConversionProfile(x) => {
            lemma_exists_transfer(a, b, x.team_id);
            match x.project_id {
                Some(p) => lemma_exists_transfer(a, b, p),
                None => (),
            }
        },
        RecordV::StorageLocation(x) => {
            lemma_exists_transfer(a, b, x.team_id);
        },
        RecordV::UploadProfile(x) => {
            lemma_exists_transfer(a, b, x.team_id);
            match x.project_id {
                Some(p) => lemma_exists_transfer(a, b, p),
                None => (),
            }
        },
        RecordV::ApiKey(x) => {
            lemma_exists_transfer(a, b, x.team_id);
            lemma_exists_transfer(a, b, x.user_id);
        },
        _ => (),
    }
}

/// Law: referential integrity of a record set does not depend on the order
/// the records were gathered in — two sequences holding the same records
/// either both satisfy it or both violate it. A record may therefore
/// reference one that a later file defines: validation happens over the
/// whole set, as with constraints deferred to commit.
pub proof fn lemma_integrity_order_irrelevant(a: Seq<RecordV>, b: Seq<RecordV>)
    requires
        a.to_multiset() == b.to_multiset(),
    ensures
        integrity_ok(a) == integrity_ok(b),
{
    broadcast use vstd::seq_lib::group_to_multiset_ensures;

    assert forall|x: RecordV| a.contains(x) implies b.contains(x) by {
        assert(a.to_multiset().count(x) > 0);
    }
    assert forall|x: RecordV| b.contains(x) implies a.contains(x) by {
        assert(b.to_multiset().count(x) > 0);
    }
    if integrity_ok(a) {
        assert forall|i: int| 0 <= i < b.len() implies #[trigger] record_refs_ok(b[i], b) by {
            assert(b.contains(b[i]));
            let j = choose|j: int| 0 <= j < a.len() && a[j] == b[i];
            assert(record_refs_ok(a[j], a));
            lemma_refs_ok_transfer(b[i], a, b);
        }
    }
    if integrity_ok(b) {
        assert forall|i: int| 0 <= i < a.len() implies #[trigger] record_refs_ok(a[i], a) by {
            assert(a.contains(a[i]));
            let j = choose|j: int| 0 <= j < b.len() && b[j] == a[i];
            assert(record_refs_ok(b[j], b));
            lemma_refs_ok_transfer(a[i], b, a);
        }
    }
}

/// Law: the records a file yields depend on its filename only through the
/// classified type — filenames that classify alike (such as a singular and
/// its plural tag) have identical effects for identical content.
pub proof fn lemma_same_tag_same_records(
    n1: Seq<char>,
    n2: Seq<char>,
    text: Seq<char>,
    now: i64,
)
    requires
        spec_classify(n1) == spec_classify(n2),
    ensures
        spec_apply_rendered(n1, text, now) == spec_apply_rendered(n2, text, now),
{
}


/// Law: a file whose name carries no known type tag can never contribute to
/// a successful load, whatever its template renders to — so one such file
/// in the set leaves the store untouched: `bootstrap` cannot return
/// records over it.
pub proof fn lemma_unknown_type_aborts(
    files: Seq<SourceFile>,
    texts: Seq<Seq<char>>,
    now: i64,
    i: int,
)
    requires
        0 <= i < files.len(),
        spec_classify(files[i].name@) is None,
    ensures
        !all_files_ok(files, texts, now),
{
    if all_files_ok(files, texts, now) {
        assert(spec_apply_rendered(files[i].name@, texts[i], now) is Ok);
    }
}


} // verus!
