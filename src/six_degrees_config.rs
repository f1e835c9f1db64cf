use vstd::prelude::*;

verus! {

/// Root of the upstream movie-database API, version 3.
pub const BASE_URL_V3: &'static str = "https://api.themoviedb.org/3";

/// The settings the service runs with: where the upstream API lives and the
/// bearer token sent to it.
#[derive(PartialEq, Eq)]
pub struct SixDegreesConfig {
    pub base_url: String,
    pub api_token: String,
}

/// What one source of settings gives for a field: a string, or a value of
/// another type that no string can be read from.
pub enum Setting {
    Given(String),
    Malformed,
}

/// One source of settings (a file, a set of environment variables): each field
/// is either given by that source (`Some`) or left to the sources below it.
pub struct ConfigLayer {
    pub base_url: Option<Setting>,
    pub api_token: Option<Setting>,
}

/// Why the merged settings could not be read.
#[derive(Debug, PartialEq, Eq, Structural)]
pub enum ConfigError {
    /// The source that wins for `base_url` gives no string.
    MalformedBaseUrl,
    /// The source that wins for `api_token` gives no string.
    MalformedApiToken,
}

/// What a layer says of a field: nothing (`None`), a string (`Some(Some(_))`)
/// or a value that is no string (`Some(None)`).
pub open spec fn setting_view(f: Option<Setting>) -> Option<Option<Seq<char>>> {
    match f {
        None => None,
        Some(Setting::Given(s)) => Some(Some(s@)),
        Some(Setting::Malformed) => Some(None),
    }
}

/// What two layers say of a field once `high` is placed over `low`.
pub open spec fn layered(low: Option<Option<Seq<char>>>, high: Option<Option<Seq<char>>>) -> Option<
    Option<Seq<char>>,
> {
    match high {
        Some(v) => Some(v),
        None => low,
    }
}

/// The value of one field once the environment is placed over the file and
/// the file over the built-in default; `None` when the value that wins is no
/// string.
pub open spec fn resolved(
    default: Seq<char>,
    file: Option<Option<Seq<char>>>,
    env: Option<Option<Seq<char>>>,
) -> Option<Seq<char>> {
    match layered(file, env) {
        None => Some(default),
        Some(v) => v,
    }
}

/// The merged `base_url` of the file, the token namespace and the service
/// namespace of the environment.
pub open spec fn resolved_base_url(file: ConfigLayer, token_env: ConfigLayer, service_env: ConfigLayer) -> Option<
    Seq<char>,
> {
    resolved(
        BASE_URL_V3@,
        setting_view(file.base_url),
        layered(setting_view(token_env.base_url), setting_view(service_env.base_url)),
    )
}

/// The merged `api_token` of the file, the token namespace and the service
/// namespace of the environment.
pub open spec fn resolved_api_token(file: ConfigLayer, token_env: ConfigLayer, service_env: ConfigLayer) -> Option<
    Seq<char>,
> {
    resolved(
        Seq::<char>::empty(),
        setting_view(file.api_token),
        layered(setting_view(token_env.api_token), setting_view(service_env.api_token)),
    )
}

fn clone_setting(f: &Option<Setting>) -> (r: Option<Setting>)
    ensures
        setting_view(r) == setting_view(*f),
{
    match f {
        None => None,
        Some(Setting::Given(s)) => Some(Setting::Given(s.clone())),
        Some(Setting::Malformed) => Some(Setting::Malformed),
    }
}

fn setting_over(low: &Option<Setting>, high: &Option<Setting>) -> (r: Option<Setting>)
    ensures
        setting_view(r) == layered(setting_view(*low), setting_view(*high)),
{
    match high {
        Some(_) => clone_setting(high),
        None => clone_setting(low),
    }
}

fn read_field(default: &'static str, f: &Option<Setting>) -> (r: Option<String>)
    ensures
        r matches Some(s) ==> f is Some ==> setting_view(*f) == Some(Some(s@)),
        f is None ==> r is Some && r->Some_0@ == default@,
        r is None <==> setting_view(*f) == Some(None::<Seq<char>>),
{
    match f {
        None => Some(String::from_str(default)),
        Some(Setting::Given(s)) => Some(s.clone()),
        Some(Setting::Malformed) => None,
    }
}

impl ConfigLayer {
    /// A layer that gives no field.
    pub fn empty() -> (r: ConfigLayer)
        ensures
            r.base_url is None,
            r.api_token is None,
    {
        ConfigLayer { base_url: None, api_token: None }
    }

    /// This layer with `higher` placed over it: each field that `higher`
    /// gives wins, the others stay as they are here.
    pub fn under(&self, higher: &ConfigLayer) -> (r: ConfigLayer)
        ensures
            setting_view(r.base_url) == layered(
                setting_view(self.base_url),
                setting_view(higher.base_url),
            ),
            setting_view(r.api_token) == layered(
                setting_view(self.api_token),
                setting_view(higher.api_token),
            ),
    {
        ConfigLayer {
            base_url: setting_over(&self.base_url, &higher.base_url),
            api_token: setting_over(&self.api_token, &higher.api_token),
        }
    }
}

impl SixDegreesConfig {
    /// Whether a token is set at all; an upstream client needs one.
    pub fn has_token(&self) -> (r: bool)
        ensures
            r == (self.api_token@.len() > 0),
    {
        !self.api_token.as_str().is_empty()
    }
}

impl Default for SixDegreesConfig {
    /// The upstream API's public root and no token.
    fn default() -> (r: SixDegreesConfig)
        ensures
            r.base_url@ == BASE_URL_V3@,
            r.api_token@.len() == 0,
    {
        SixDegreesConfig { base_url: String::from_str(BASE_URL_V3), api_token: String::new() }
    }
}

/// Merges the built-in defaults, the settings file and the two groups of
/// environment variables (the token namespace, then the service namespace),
/// lowest precedence first, and reads the fields from the result: a field
/// fails only when the value that wins for it is no string.
pub fn resolve_config(file: &ConfigLayer, token_env: &ConfigLayer, service_env: &ConfigLayer) -> (r:
    Result<SixDegreesConfig, ConfigError>)
    ensures
        resolved_base_url(*file, *token_env, *service_env) is None ==> r == Err::<
            SixDegreesConfig,
            ConfigError,
        >(ConfigError::MalformedBaseUrl),
        resolved_base_url(*file, *token_env, *service_env) is Some && resolved_api_token(
            *file,
            *token_env,
            *service_env,
        ) is None ==> r == Err::<SixDegreesConfig, ConfigError>(ConfigError::MalformedApiToken),
        r is Ok <==> resolved_base_url(*file, *token_env, *service_env) is Some
            && resolved_api_token(*file, *token_env, *service_env) is Some,
        r matches Ok(c) ==> c.base_url@ == resolved_base_url(*file, *token_env, *service_env)->Some_0
            && c.api_token@ == resolved_api_token(*file, *token_env, *service_env)->Some_0,
{
    let env = token_env.under(service_env);
    let merged = file.under(&env);
    let base_url = match read_field(BASE_URL_V3, &merged.base_url) {
        Some(s) => s,
        None => {
            return Err(ConfigError::MalformedBaseUrl);
        },
    };
    let api_token = match read_field("", &merged.api_token) {
        Some(s) => s,
        None => {
            return Err(ConfigError::MalformedApiToken);
        },
    };
    proof {
        reveal_strlit("");
    }
    Ok(SixDegreesConfig { base_url, api_token })
}

/// Field by field, the environment wins over the settings file, which wins
/// over the built-in default; a field no layer gives keeps the default.
pub proof fn lemma_precedence(
    default: Seq<char>,
    file: Option<Option<Seq<char>>>,
    env: Option<Option<Seq<char>>>,
)
    ensures
        env is Some ==> resolved(default, file, env) == env->Some_0,
        env is None && file is Some ==> resolved(default, file, env) == file->Some_0,
        env is None && file is None ==> resolved(default, file, env) == Some(default),
{
}

/// Placing layers one over another does not depend on how they are grouped:
/// merging the environment's two namespaces first and placing the result over
/// the file is the same as placing them over the file one after the other.
pub proof fn lemma_layering_associative(
    a: Option<Option<Seq<char>>>,
    b: Option<Option<Seq<char>>>,
    c: Option<Option<Seq<char>>>,
)
    ensures
        layered(a, layered(b, c)) == layered(layered(a, b), c),
{
}

} // verus!
