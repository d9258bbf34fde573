use vstd::prelude::*;

verus! {

/// Log filter used when no source sets `log`.
pub open spec fn default_log_spec() -> Seq<char> {
    "role_playing_guild=info"@
}

/// Listen address used when no source sets `api_addr`.
pub open spec fn default_listen_spec() -> Seq<char> {
    "0.0.0.0:8080"@
}

/// Database path used when no source sets `db_path`.
pub open spec fn default_db_path_spec() -> Seq<char> {
    "database.db"@
}

/// Signing-key path used when no source sets `jwt_key_path`.
pub open spec fn default_key_path_spec() -> Seq<char> {
    "jwt_signing_key.bin"@
}

pub fn default_log() -> (r: String)
    ensures
        r@ == default_log_spec(),
{
    String::from_str("role_playing_guild=info")
}

pub fn default_listen() -> (r: String)
    ensures
        r@ == default_listen_spec(),
{
    String::from_str("0.0.0.0:8080")
}

pub fn default_db_path() -> (r: String)
    ensures
        r@ == default_db_path_spec(),
{
    String::from_str("database.db")
}

pub fn default_key_path() -> (r: String)
    ensures
        r@ == default_key_path_spec(),
{
    String::from_str("jwt_signing_key.bin")
}


/// A field of the settings.
#[derive(Clone, Copy, Debug, PartialEq, Eq, Structural)]
pub enum Field {
    Log,
    ApiAddr,
    DbPath,
    DbMaxConnections,
    JwtKeyPath,
}

/// The source a value came from.
#[derive(Clone, Copy, Debug, PartialEq, Eq, Structural)]
pub enum Origin {
    File,
    Environment,
}

/// Why resolution failed.
#[derive(Clone, Copy, Debug, PartialEq, Eq, Structural)]
pub enum ResolutionError {
    /// No source set a field that has no default.
    MissingField(Field),
    /// A source set a field to a value of the wrong shape.
    TypeMismatch { field: Field, origin: Origin },
}

/// A value as the configuration file holds it: a scalar in its text form,
/// or a table or a list.
#[derive(Clone, Debug, PartialEq, Eq)]
pub enum RawValue {
    Scalar(String),
    Composite,
}

/// What the sources say of one field once they are merged.
pub enum Found {
    Unset,
    Composite(Origin),
    Text(Seq<char>, Origin),
}

impl Field {
    /// The key under which the file names the field.
    pub open spec fn key_spec(self) -> Seq<char> {
        match self {
            Field::Log => "log"@,
            Field::ApiAddr => "api_addr"@,
            Field::DbPath => "db_path"@,
            Field::DbMaxConnections => "db_max_connections"@,
            Field::JwtKeyPath => "jwt_key_path"@,
        }
    }

    pub fn key(&self) -> (r: &'static str)
        ensures
            r@ == self.key_spec(),
    {
        match self {
            Field::Log => "log",
            Field::ApiAddr => "api_addr",
            Field::DbPath => "db_path",
            Field::DbMaxConnections => "db_max_connections",
            Field::JwtKeyPath => "jwt_key_path",
        }
    }
}

/// Lower-case form of a text, as the standard library computes it.
pub uninterp spec fn lower_of(s: Seq<char>) -> Seq<char>;

/// Unsigned number that the config crate reads from a text value, if any.
pub uninterp spec fn config_uint_of(s: Seq<char>) -> Option<u64>;

/// Relies on str::to_lowercase: the result depends on the characters alone.
#[verifier::external_body]
fn lowercase(s: &String) -> (r: String)
    ensures
        r@ == lower_of(s@),
{
    s.to_lowercase()
}

/// Relies on config::Value::into_uint on a string value: the number that the
/// config crate reads from the text, or none; it depends on the text alone.
#[verifier::external_body]
fn config_uint(text: &String) -> (r: Option<u64>)
    ensures
        r == config_uint_of(text@),
{
    config::Value::new(None, text.clone()).into_uint().ok()
}

/// What the file says of `key`: its last entry under exactly that key.
pub open spec fn file_lookup(file: Seq<(String, RawValue)>, key: Seq<char>) -> Found
    decreases file.len(),
{
    if file.len() == 0 {
        Found::Unset
    } else if file.last().0@ == key {
        match file.last().1 {
            RawValue::Scalar(t) => Found::Text(t@, Origin::File),
            RawValue::Composite => Found::Composite(Origin::File),
        }
    } else {
        file_lookup(file.drop_last(), key)
    }
}

/// Name of the environment variable for `key`, once lower-cased: the prefix
/// `rpg` and the separator `__` before the key.
pub open spec fn env_name(key: Seq<char>) -> Seq<char> {
    "rpg__"@ + key
}

/// The environment as pairs of name and value.
pub open spec fn pairs_view(env: Seq<(String, String)>) -> Seq<(Seq<char>, Seq<char>)> {
    env.map_values(|p: (String, String)| (p.0@, p.1@))
}

/// The environment with every name lower-cased.
pub open spec fn lower_names(env: Seq<(Seq<char>, Seq<char>)>) -> Seq<(Seq<char>, Seq<char>)> {
    env.map_values(|p: (Seq<char>, Seq<char>)| (lower_of(p.0), p.1))
}

/// What an environment whose names are lower-cased says of `key`: the value
/// of its last variable named `env_name(key)`.
pub open spec fn env_lookup(env: Seq<(Seq<char>, Seq<char>)>, key: Seq<char>) -> Option<Seq<char>>
    decreases env.len(),
{
    if env.len() == 0 {
        None
    } else if env.last().0 == env_name(key) {
        Some(env.last().1)
    } else {
        env_lookup(env.drop_last(), key)
    }
}

/// The merged value of a field: the environment's where it sets one, else the file's.
pub open spec fn effective(file: Seq<(String, RawValue)>, env: Seq<(Seq<char>, Seq<char>)>, f: Field) -> Found {
    match env_lookup(env, f.key_spec()) {
        Some(t) => Found::Text(t, Origin::Environment),
        None => file_lookup(file, f.key_spec()),
    }
}


/// A merged value held by executable code; `found` is its meaning.
enum Setting {
    Unset,
    Composite(Origin),
    Text(String, Origin),
}

impl Setting {
    spec fn found(&self) -> Found {
        match self {
            Setting::Unset => Found::Unset,
            Setting::Composite(o) => Found::Composite(*o),
            Setting::Text(t, o) => Found::Text(t@, *o),
        }
    }
}

fn lookup_file(file: &Vec<(String, RawValue)>, key: &str) -> (r: Setting)
    ensures
        r.found() == file_lookup(file@, key@),
{
    let wanted = String::from_str(key);
    let mut found = Setting::Unset;
    let mut i: usize = 0;
    while i < file.len()
        invariant
            i <= file@.len(),
            wanted@ == key@,
            found.found() == file_lookup(file@.subrange(0, i as int), key@),
        decreases file.len() - i,
    {
        let entry = &file[i];
        if entry.0 == wanted {
            found = match &entry.1 {
                RawValue::Scalar(t) => Setting::Text(t.clone(), Origin::File),
                RawValue::Composite => Setting::Composite(Origin::File),
            };
        }
        assert(file@.subrange(0, i + 1).drop_last() =~= file@.subrange(0, i as int));
        i += 1;
    }
    assert(file@.subrange(0, file@.len() as int) =~= file@);
    found
}

fn lookup_env(env: &Vec<(String, String)>, key: &str) -> (r: Option<String>)
    ensures
        r is Some <==> env_lookup(pairs_view(env@), key@) is Some,
        r is Some ==> r->0@ == env_lookup(pairs_view(env@), key@)->0,
{
    let mut wanted = String::from_str("rpg__");
    wanted.append(key);
    proof {
        reveal_strlit("rpg__");
    }
    let ghost all = pairs_view(env@);
    let mut found: Option<String> = None;
    let mut i: usize = 0;
    while i < env.len()
        invariant
            i <= env@.len(),
            all == pairs_view(env@),
            wanted@ == env_name(key@),
            found is Some <==> env_lookup(all.subrange(0, i as int), key@) is Some,
            found is Some ==> found->0@ == env_lookup(all.subrange(0, i as int), key@)->0,
        decreases env.len() - i,
    {
        let var = &env[i];
        if var.0 == wanted {
            found = Some(var.1.clone());
        }
        assert(all.subrange(0, i + 1).drop_last() =~= all.subrange(0, i as int));
        i += 1;
    }
    assert(all.subrange(0, env@.len() as int) =~= all);
    found
}

fn lower_environment(env: &Vec<(String, String)>) -> (r: Vec<(String, String)>)
    ensures
        pairs_view(r@) == lower_names(pairs_view(env@)),
{
    let mut lowered: Vec<(String, String)> = Vec::new();
    let mut i: usize = 0;
    while i < env.len()
        invariant
            i <= env@.len(),
            lowered@.len() == i,
            pairs_view(lowered@) =~= lower_names(pairs_view(env@)).subrange(0, i as int),
        decreases env.len() - i,
    {
        let var = &env[i];
        let name = lowercase(&var.0);
        let value = var.1.clone();
        lowered.push((name, value));
        assert(lowered@[i as int].0@ == lower_of(env@[i as int].0@));
        assert(lowered@[i as int].1@ == env@[i as int].1@);
        assert(pairs_view(lowered@) =~= lower_names(pairs_view(env@)).subrange(0, i + 1));
        i += 1;
    }
    assert(lower_names(pairs_view(env@)).subrange(0, env@.len() as int) =~= lower_names(pairs_view(env@)));
    lowered
}

fn lookup(file: &Vec<(String, RawValue)>, env: &Vec<(String, String)>, f: Field) -> (r: Setting)
    ensures
        r.found() == effective(file@, pairs_view(env@), f),
{
    let key = f.key();
    match lookup_env(env, key) {
        Some(t) => Setting::Text(t, Origin::Environment),
        None => lookup_file(file, key),
    }
}


/// Runtime settings, resolved once at start.
#[derive(Clone, Debug, PartialEq, Eq)]
pub struct Settings {
    pub log: String,
    pub api_addr: String,
    pub db_path: String,
    pub db_max_connections: u32,
    pub jwt_key_path: String,
}

/// The meaning of `Settings`.
pub struct SettingsModel {
    pub log: Seq<char>,
    pub api_addr: Seq<char>,
    pub db_path: Seq<char>,
    pub db_max_connections: u32,
    pub jwt_key_path: Seq<char>,
}

impl View for Settings {
    type V = SettingsModel;

    open spec fn view(&self) -> SettingsModel {
        SettingsModel {
            log: self.log@,
            api_addr: self.api_addr@,
            db_path: self.db_path@,
            db_max_connections: self.db_max_connections,
            jwt_key_path: self.jwt_key_path@,
        }
    }
}

impl SettingsModel {
    /// The text of a field that holds text.
    pub open spec fn text(self, f: Field) -> Seq<char> {
        match f {
            Field::Log => self.log,
            Field::ApiAddr => self.api_addr,
            Field::DbPath => self.db_path,
            Field::JwtKeyPath => self.jwt_key_path,
            Field::DbMaxConnections => Seq::empty(),
        }
    }
}

/// A field that holds text: its merged value, or `default` where no source sets it.
pub open spec fn text_setting(found: Found, f: Field, default: Seq<char>) -> Result<Seq<char>, ResolutionError> {
    match found {
        Found::Unset => Ok(default),
        Found::Composite(o) => Err(ResolutionError::TypeMismatch { field: f, origin: o }),
        Found::Text(t, _) => Ok(t),
    }
}

/// The connection bound: required, and a number that fits in 32 bits.
pub open spec fn count_setting(found: Found) -> Result<u32, ResolutionError> {
    match found {
        Found::Unset => Err(ResolutionError::MissingField(Field::DbMaxConnections)),
        Found::Composite(o) => Err(ResolutionError::TypeMismatch { field: Field::DbMaxConnections, origin: o }),
        Found::Text(t, o) => {
            let n = config_uint_of(t);
            if n is Some && n->0 <= u32::MAX {
                Ok(n->0 as u32)
            } else {
                Err(ResolutionError::TypeMismatch { field: Field::DbMaxConnections, origin: o })
            }
        },
    }
}

/// The settings that a file and an environment (names lower-cased) resolve
/// to. The text fields are checked first (`log`, `api_addr`, `db_path`,
/// `jwt_key_path`), then the connection bound; the first failure is the result.
pub open spec fn resolve_spec(file: Seq<(String, RawValue)>, env: Seq<(Seq<char>, Seq<char>)>) -> Result<SettingsModel, ResolutionError> {
    let log = text_setting(effective(file, env, Field::Log), Field::Log, default_log_spec());
    let api = text_setting(effective(file, env, Field::ApiAddr), Field::ApiAddr, default_listen_spec());
    let db = text_setting(effective(file, env, Field::DbPath), Field::DbPath, default_db_path_spec());
    let key = text_setting(effective(file, env, Field::JwtKeyPath), Field::JwtKeyPath, default_key_path_spec());
    let count = count_setting(effective(file, env, Field::DbMaxConnections));
    if log is Err {
        Err(log->Err_0)
    } else if api is Err {
        Err(api->Err_0)
    } else if db is Err {
        Err(db->Err_0)
    } else if key is Err {
        Err(key->Err_0)
    } else if count is Err {
        Err(count->Err_0)
    } else {
        Ok(SettingsModel {
            log: log->Ok_0,
            api_addr: api->Ok_0,
            db_path: db->Ok_0,
            db_max_connections: count->Ok_0,
            jwt_key_path: key->Ok_0,
        })
    }
}

fn text_field(found: Setting, f: Field, default: String) -> (r: Result<String, ResolutionError>)
    ensures
        r is Ok <==> text_setting(found.found(), f, default@) is Ok,
        r is Ok ==> r->Ok_0@ == text_setting(found.found(), f, default@)->Ok_0,
        r is Err ==> r->Err_0 == text_setting(found.found(), f, default@)->Err_0,
{
    match found {
        Setting::Unset => Ok(default),
        Setting::Composite(o) => Err(ResolutionError::TypeMismatch { field: f, origin: o }),
        Setting::Text(t, _) => Ok(t),
    }
}

/// The connection bound from the number that the config crate read from a
/// text of `origin` (none where it read none): it must fit in 32 bits.
pub fn connections_from(parsed: Option<u64>, origin: Origin) -> (r: Result<u32, ResolutionError>)
    ensures
        parsed is Some && parsed->0 <= u32::MAX ==> r == Ok::<u32, ResolutionError>(parsed->0 as u32),
        !(parsed is Some && parsed->0 <= u32::MAX) ==> r == Err::<u32, ResolutionError>(
            ResolutionError::TypeMismatch { field: Field::DbMaxConnections, origin },
        ),
{
    match parsed {
        Some(n) if n <= u32::MAX as u64 => Ok(n as u32),
        _ => Err(ResolutionError::TypeMismatch { field: Field::DbMaxConnections, origin }),
    }
}

fn count_field(found: Setting) -> (r: Result<u32, ResolutionError>)
    ensures
        r == count_setting(found.found()),
{
    match found {
        Setting::Unset => Err(ResolutionError::MissingField(Field::DbMaxConnections)),
        Setting::Composite(o) => Err(ResolutionError::TypeMismatch { field: Field::DbMaxConnections, origin: o }),
        Setting::Text(t, o) => connections_from(config_uint(&t), o),
    }
}

impl Settings {
    /// Resolves the settings from the entries of the configuration file (empty
    /// where there is no file) and the process environment, by `resolve_spec`
    /// once the environment's names are lower-cased.
    pub fn new(file: &Vec<(String, RawValue)>, environment: &Vec<(String, String)>) -> (r: Result<Settings, ResolutionError>)
        ensures
            r is Ok <==> resolve_spec(file@, lower_names(pairs_view(environment@))) is Ok,
            r is Ok ==> r->Ok_0@ == resolve_spec(file@, lower_names(pairs_view(environment@)))->Ok_0,
            r is Err ==> r->Err_0 == resolve_spec(file@, lower_names(pairs_view(environment@)))->Err_0,
    {
        let lowered = lower_environment(environment);
        Settings::resolve(file, &lowered)
    }

    /// Resolves the settings from the file's entries and an environment whose
    /// names are already lower-cased, by `resolve_spec`.
    pub fn resolve(file: &Vec<(String, RawValue)>, lowered: &Vec<(String, String)>) -> (r: Result<Settings, ResolutionError>)
        ensures
            r is Ok <==> resolve_spec(file@, pairs_view(lowered@)) is Ok,
            r is Ok ==> r->Ok_0@ == resolve_spec(file@, pairs_view(lowered@))->Ok_0,
            r is Err ==> r->Err_0 == resolve_spec(file@, pairs_view(lowered@))->Err_0,
    {
        let log = text_field(lookup(file, lowered, Field::Log), Field::Log, default_log());
        let api = text_field(lookup(file, lowered, Field::ApiAddr), Field::ApiAddr, default_listen());
        let db = text_field(lookup(file, lowered, Field::DbPath), Field::DbPath, default_db_path());
        let key = text_field(lookup(file, lowered, Field::JwtKeyPath), Field::JwtKeyPath, default_key_path());
        let count = count_field(lookup(file, lowered, Field::DbMaxConnections));
        match (log, api, db, key, count) {
            (Err(e), _, _, _, _) => Err(e),
            (Ok(_), Err(e), _, _, _) => Err(e),
            (Ok(_), Ok(_), Err(e), _, _) => Err(e),
            (Ok(_), Ok(_), Ok(_), Err(e), _) => Err(e),
            (Ok(_), Ok(_), Ok(_), Ok(_), Err(e)) => Err(e),
            (Ok(log), Ok(api_addr), Ok(db_path), Ok(jwt_key_path), Ok(db_max_connections)) => Ok(
                Settings { log, api_addr, db_path, db_max_connections, jwt_key_path },
            ),
        }
    }
}

/// Where the environment sets a field, the resolved settings hold the
/// environment's value for it, whatever the file says of that field.
pub proof fn lemma_environment_wins(
    file: Seq<(String, RawValue)>,
    env: Seq<(Seq<char>, Seq<char>)>,
    f: Field,
    t: Seq<char>,
)
    requires
        env_lookup(env, f.key_spec()) == Some(t),
    ensures
        effective(file, env, f) == Found::Text(t, Origin::Environment),
        resolve_spec(file, env) is Ok && f != Field::DbMaxConnections
            ==> resolve_spec(file, env)->Ok_0.text(f) == t,
        resolve_spec(file, env) is Ok && f == Field::DbMaxConnections
            ==> resolve_spec(file, env)->Ok_0.db_max_connections as int == config_uint_of(t)->0 as int,
{
}

/// Where neither the file nor the environment sets the connection bound,
/// resolution fails: with the missing field, unless a text field set to a
/// value of the wrong shape fails first. It never falls back to a default.
pub proof fn lemma_connections_required(file: Seq<(String, RawValue)>, env: Seq<(Seq<char>, Seq<char>)>)
    requires
        env_lookup(env, Field::DbMaxConnections.key_spec()) is None,
        file_lookup(file, Field::DbMaxConnections.key_spec()) == Found::Unset,
    ensures
        resolve_spec(file, env) is Err,
        resolve_spec(file, env) == Err::<SettingsModel, ResolutionError>(
            ResolutionError::MissingField(Field::DbMaxConnections),
        ) || resolve_spec(file, env)->Err_0 is TypeMismatch,
{
}

} // verus!
