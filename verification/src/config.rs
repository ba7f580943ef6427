//! The configuration, its defaults, and the checks on it.

use vstd::prelude::*;
use vstd::string::*;
use crate::paths::{join_path, joined_path, opt_text};
use crate::text::{
    after_first, before_first, lemma_run_before, run_before, same_text, texts, trim, trimmed,
};

verus! {

/// The program's configuration. Paths are held as text.
#[derive(Clone)]
pub struct Config {
    pub cookies_path: String,
    pub output_audio_dir: String,
    pub output_video_dir: String,
    pub db_path: String,
    pub lock_path: String,
    pub bitrate: String,
    pub rate_limit: String,
    pub retries: u32,
    pub retry_backoff_sec: u64,
    pub sleep_interval_sec: u32,
    pub max_sleep_interval_sec: u32,
    pub per_item_timeout_sec: u64,
    pub min_free_disk_gb: u64,
    pub ntfy: Option<NtfyConfig>,
    pub musicbrainz: Option<MusicBrainzConfig>,
    pub yt_dlp: YtDlpConfig,
    pub sources: Vec<Source>,
}

/// How yt-dlp is found and kept up to date.
#[derive(Clone)]
pub struct YtDlpConfig {
    pub binary_path: String,
    pub auto_update: bool,
    pub update_if_older_than_days: u64,
    pub channel: YtDlpChannel,
    pub update_on_extract_error: bool,
    pub update_timeout_sec: u64,
}

/// A release channel of yt-dlp.
#[derive(Debug, Clone, Copy, PartialEq, Eq, Structural)]
pub enum YtDlpChannel {
    Stable,
    Nightly,
    Master,
}

impl YtDlpChannel {
    /// The name of a channel.
    pub open spec fn name(self) -> Seq<char> {
        match self {
            YtDlpChannel::Stable => "stable"@,
            YtDlpChannel::Nightly => "nightly"@,
            YtDlpChannel::Master => "master"@,
        }
    }

    /// The name of the channel, as yt-dlp spells it.
    pub fn as_str(self) -> (r: &'static str)
        ensures
            r@ == self.name(),
    {
        match self {
            YtDlpChannel::Stable => "stable",
            YtDlpChannel::Nightly => "nightly",
            YtDlpChannel::Master => "master",
        }
    }
}

/// Where alerts are sent. The token is for authenticated topics; public ones need none.
#[derive(Clone)]
pub struct NtfyConfig {
    pub server: String,
    pub topic: String,
    pub enabled: bool,
    pub token: Option<String>,
}

/// The lookup service for tags.
#[derive(Clone)]
pub struct MusicBrainzConfig {
    pub acoustid_api_key: String,
    pub enabled: bool,
}

/// A playlist to keep in step with.
#[derive(Debug, Clone)]
pub struct Source {
    pub name: String,
    pub url: String,
    pub mode: SourceMode,
    pub quality: Option<String>,
}

/// What a source is downloaded as.
#[derive(Debug, Clone, Copy, PartialEq, Eq, Structural)]
pub enum SourceMode {
    Audio,
    Video,
}

/// How a secret is shown: whether it is set, never what it is.
pub open spec fn redacted(secret: Option<Seq<char>>) -> Seq<char> {
    if secret is Some && secret->0.len() > 0 {
        "***set***"@
    } else {
        "<unset>"@
    }
}

/// Stands in for a secret wherever the configuration is shown.
pub fn redact(secret: Option<&str>) -> (r: &'static str)
    ensures
        secret is Some ==> r@ == redacted(Some(secret->0@)),
        secret is None ==> r@ == redacted(None),
{
    match secret {
        Some(s) => {
            if !s.is_empty() {
                "***set***"
            } else {
                "<unset>"
            }
        },
        None => "<unset>",
    }
}

/// What is shown of a secret tells nothing but whether there is one: any two secrets that are set
/// look alike.
pub proof fn law_redaction_hides_the_secret(a: Seq<char>, b: Seq<char>)
    requires
        a.len() > 0,
        b.len() > 0,
    ensures
        redacted(Some(a)) == redacted(Some(b)),
{
}

pub fn default_bitrate() -> (r: String)
    ensures
        r@ == "320k"@,
{
    "320k".to_owned()
}

pub fn default_rate_limit() -> (r: String)
    ensures
        r@ == "2M"@,
{
    "2M".to_owned()
}

pub fn default_retries() -> (r: u32)
    ensures
        r == 3,
{
    3
}

pub fn default_retry_backoff() -> (r: u64)
    ensures
        r == 60,
{
    60
}

pub fn default_sleep_min() -> (r: u32)
    ensures
        r == 5,
{
    5
}

pub fn default_sleep_max() -> (r: u32)
    ensures
        r == 15,
{
    15
}

pub fn default_timeout() -> (r: u64)
    ensures
        r == 1800,
{
    1800
}

pub fn default_min_free_gb() -> (r: u64)
    ensures
        r == 2,
{
    2
}

pub fn default_mb_enabled() -> (r: bool)
    ensures
        r,
{
    true
}

pub fn default_true() -> (r: bool)
    ensures
        r,
{
    true
}

pub fn default_ytdlp_binary() -> (r: String)
    ensures
        r@ == "~/.local/bin/yt-dlp"@,
{
    "~/.local/bin/yt-dlp".to_owned()
}

pub fn default_update_age_days() -> (r: u64)
    ensures
        r == 3,
{
    3
}

pub fn default_channel() -> (r: YtDlpChannel)
    ensures
        r == YtDlpChannel::Nightly,
{
    YtDlpChannel::Nightly
}

pub fn default_update_timeout() -> (r: u64)
    ensures
        r == 120,
{
    120
}

impl Default for YtDlpConfig {
    fn default() -> (r: Self)
        ensures
            r.binary_path@ == "~/.local/bin/yt-dlp"@,
            r.auto_update,
            r.update_if_older_than_days == 3,
            r.channel == YtDlpChannel::Nightly,
            r.update_on_extract_error,
            r.update_timeout_sec == 120,
    {
        YtDlpConfig {
            binary_path: default_ytdlp_binary(),
            auto_update: true,
            update_if_older_than_days: default_update_age_days(),
            channel: default_channel(),
            update_on_extract_error: true,
            update_timeout_sec: default_update_timeout(),
        }
    }
}

/// Why a configuration cannot be used.
#[derive(Debug)]
pub enum ConfigError {
    /// A path could not be expanded; the cause is the lookup's own message.
    Expand { path: String, cause: String },
    NoSources,
    EmptyName,
    EmptyUrl { name: String },
    /// The system does not tell where configuration files belong.
    NoConfigDir,
}

/// The characters of a `ConfigError`.
pub enum ConfigErrorView {
    Expand { path: Seq<char>, cause: Seq<char> },
    NoSources,
    EmptyName,
    EmptyUrl { name: Seq<char> },
    NoConfigDir,
}

impl View for ConfigError {
    type V = ConfigErrorView;

    open spec fn view(&self) -> ConfigErrorView {
        match *self {
            ConfigError::Expand { path, cause } => ConfigErrorView::Expand {
                path: path@,
                cause: cause@,
            },
            ConfigError::NoSources => ConfigErrorView::NoSources,
            ConfigError::EmptyName => ConfigErrorView::EmptyName,
            ConfigError::EmptyUrl { name } => ConfigErrorView::EmptyUrl { name: name@ },
            ConfigError::NoConfigDir => ConfigErrorView::NoConfigDir,
        }
    }
}

impl ConfigErrorView {
    /// The message of an error, without its cause.
    pub open spec fn text(self) -> Seq<char> {
        match self {
            ConfigErrorView::Expand { path, cause } => "expand path "@ + path,
            ConfigErrorView::NoSources => "config has no sources"@,
            ConfigErrorView::EmptyName => "source has empty name"@,
            ConfigErrorView::EmptyUrl { name } => "source "@ + name + " has empty url"@,
            ConfigErrorView::NoConfigDir => "resolve config dir"@,
        }
    }
}

impl ConfigError {
    /// The message shown for the error; the cause of a failed expansion is shown beside it.
    pub fn message(&self) -> (r: String)
        ensures
            r@ == self@.text(),
    {
        match self {
            ConfigError::Expand { path, cause: _ } => {
                let mut out = "expand path ".to_owned();
                out.append(path.as_str());
                out
            },
            ConfigError::NoSources => "config has no sources".to_owned(),
            ConfigError::EmptyName => "source has empty name".to_owned(),
            ConfigError::EmptyUrl { name } => {
                let mut out = "source ".to_owned();
                out.append(name.as_str());
                out.append(" has empty url");
                out
            },
            ConfigError::NoConfigDir => "resolve config dir".to_owned(),
        }
    }
}

/// A variable that paths may name: its name, and its value or why that cannot be used.
pub struct Variable {
    pub name: String,
    pub value: Result<String, String>,
}

/// The characters of a result that is a text or a complaint.
pub open spec fn text_result(r: Result<String, String>) -> Result<Seq<char>, Seq<char>> {
    match r {
        Ok(s) => Ok(s@),
        Err(e) => Err(e@),
    }
}

/// The characters of each variable of a list.
pub open spec fn variable_views(v: Seq<Variable>) -> Seq<
    (Seq<char>, Result<Seq<char>, Seq<char>>),
> {
    v.map_values(|x: Variable| (x.name@, text_result(x.value)))
}

/// The value of the first variable with a name. A name that no variable has is an error.
pub open spec fn variable_value(
    variables: Seq<(Seq<char>, Result<Seq<char>, Seq<char>>)>,
    name: Seq<char>,
) -> Result<Seq<char>, Seq<char>>
    decreases variables.len(),
{
    if variables.len() == 0 {
        Err("environment variable not found"@)
    } else if variables[0].0 == name {
        variables[0].1
    } else {
        variable_value(variables.drop_first(), name)
    }
}

/// Looks a variable up. There is never an answer that leaves a variable as it stands.
pub fn look_up_variable(variables: &Vec<Variable>, name: &str) -> (r: Result<
    Option<String>,
    String,
>)
    ensures
        match variable_value(variable_views(variables@), name@) {
            Ok(v) => r is Ok && opt_text(r->Ok_0) == Some(v),
            Err(e) => r is Err && r->Err_0@ == e,
        },
{
    let ghost all = variable_views(variables@);
    let mut i: usize = 0;
    assert(all.skip(0) =~= all);
    while i < variables.len()
        invariant
            all == variable_views(variables@),
            i <= variables@.len(),
            variable_value(all.skip(i as int), name@) == variable_value(all, name@),
        decreases variables@.len() - i,
    {
        assert(all.skip(i as int)[0] == all[i as int]);
        assert(all.skip(i as int).drop_first() =~= all.skip(i + 1));
        if same_text(variables[i].name.as_str(), name) {
            return match &variables[i].value {
                Ok(v) => Ok(Some(v.clone())),
                Err(e) => Err(e.clone()),
            };
        }
        i += 1;
    }
    Err("environment variable not found".to_owned())
}

/// A path with the home directory in place of a leading tilde: one that stands alone or before a
/// slash. Without a home directory the tilde stays.
pub open spec fn tilde_expanded(s: Seq<char>, home: Option<Seq<char>>) -> Seq<char> {
    if s.len() > 0 && s[0] == '~' && (s.len() == 1 || s[1] == '/') && home is Some {
        home->0 + s.drop_first()
    } else {
        s
    }
}

/// Whether a character can stand in the name of a variable, as far as ASCII goes.
pub open spec fn is_name_char(c: char) -> bool {
    'a' <= c <= 'z' || 'A' <= c <= 'Z' || '0' <= c <= '9' || c == '_'
}

/// What stands behind the first dollar sign.
pub open spec fn behind_dollar(s: Seq<char>) -> Seq<char> {
    after_first(s, '$')
}

/// Whether a path holds one dollar sign, with a plain name behind it that goes up to a slash or to
/// the end, and no tilde before it.
pub open spec fn names_one_variable(s: Seq<char>) -> bool {
    let name = before_first(behind_dollar(s), '/');
    &&& s.contains('$')
    &&& s[0] != '~'
    &&& !behind_dollar(s).contains('$')
    &&& name.len() > 0
    &&& forall|i: int| 0 <= i < name.len() ==> is_name_char(#[trigger] name[i])
}

/// Such a path with the value of the variable in place of its name, or the complaint about it.
pub open spec fn variable_expanded(
    s: Seq<char>,
    variables: Seq<(Seq<char>, Result<Seq<char>, Seq<char>>)>,
) -> Result<Seq<char>, Seq<char>> {
    let name = before_first(behind_dollar(s), '/');
    match variable_value(variables, name) {
        Ok(v) => Ok(before_first(s, '$') + v + behind_dollar(s).skip(name.len() as int)),
        Err(e) => Err("error looking key '"@ + name + "' up: "@ + e),
    }
}

/// What `shellexpand::full_with_context` gives for a path, a home directory and variables.
pub uninterp spec fn fully_expanded(
    s: Seq<char>,
    home: Option<Seq<char>>,
    variables: Seq<(Seq<char>, Result<Seq<char>, Seq<char>>)>,
) -> Result<Seq<char>, Seq<char>>;

/// What is known of a path and its expansion: without a dollar sign it is that of the tilde; with
/// one variable in plain form, it is that of the variable; and text before the first dollar sign is
/// kept where there is no tilde.
pub open spec fn expands_to(
    s: Seq<char>,
    home: Option<Seq<char>>,
    variables: Seq<(Seq<char>, Result<Seq<char>, Seq<char>>)>,
    r: Result<Seq<char>, Seq<char>>,
) -> bool {
    &&& !s.contains('$') ==> r == Ok::<Seq<char>, Seq<char>>(tilde_expanded(s, home))
    &&& names_one_variable(s) ==> r == variable_expanded(s, variables)
    &&& s.contains('$') && s[0] != '~' && r is Ok ==> before_first(s, '$').is_prefix_of(r->Ok_0)
}

/// `shellexpand::full_with_context` on Unix: expands a leading `~` with the home directory and every
/// variable with its value, and fails with the message of the first lookup that failed. The result
/// is named by `fully_expanded`; what is stated of it stands in `expands_to`. Unsaid are paths with
/// several variables, with braces or defaults, or with both a tilde and a variable.
#[verifier::external_body]
fn expand_full(s: &str, home: &Option<String>, variables: &Vec<Variable>) -> (r: Result<
    String,
    String,
>)
    ensures
        text_result(r) == fully_expanded(s@, opt_text(*home), variable_views(variables@)),
        expands_to(s@, opt_text(*home), variable_views(variables@), text_result(r)),
{
    shellexpand::full_with_context(
        s,
        || home.as_deref(),
        |name| look_up_variable(variables, name),
    ).map(|e| e.into_owned()).map_err(|e| e.to_string())
}

/// What a path becomes, given the outcome of its lookup.
pub fn expand(path: &str, looked_up: Result<String, String>) -> (r: Result<String, ConfigError>)
    ensures
        looked_up is Ok ==> r == Ok::<String, ConfigError>(looked_up->Ok_0),
        looked_up is Err ==> r is Err && r->Err_0@ == (ConfigErrorView::Expand {
            path: path@,
            cause: looked_up->Err_0@,
        }),
{
    match looked_up {
        Ok(s) => Ok(s),
        Err(cause) => Err(ConfigError::Expand { path: path.to_owned(), cause }),
    }
}

/// The outcomes of looking the six paths up.
pub struct PathLookups {
    pub cookies_path: Result<String, String>,
    pub output_audio_dir: Result<String, String>,
    pub output_video_dir: Result<String, String>,
    pub db_path: Result<String, String>,
    pub lock_path: Result<String, String>,
    pub binary_path: Result<String, String>,
}

/// The characters of `PathLookups`.
pub struct PathLookupsView {
    pub cookies_path: Result<Seq<char>, Seq<char>>,
    pub output_audio_dir: Result<Seq<char>, Seq<char>>,
    pub output_video_dir: Result<Seq<char>, Seq<char>>,
    pub db_path: Result<Seq<char>, Seq<char>>,
    pub lock_path: Result<Seq<char>, Seq<char>>,
    pub binary_path: Result<Seq<char>, Seq<char>>,
}

impl View for PathLookups {
    type V = PathLookupsView;

    open spec fn view(&self) -> PathLookupsView {
        PathLookupsView {
            cookies_path: text_result(self.cookies_path),
            output_audio_dir: text_result(self.output_audio_dir),
            output_video_dir: text_result(self.output_video_dir),
            db_path: text_result(self.db_path),
            lock_path: text_result(self.lock_path),
            binary_path: text_result(self.binary_path),
        }
    }
}

/// The outcomes of expanding the six paths of a configuration.
pub open spec fn lookups_of(
    cfg: Config,
    home: Option<Seq<char>>,
    variables: Seq<(Seq<char>, Result<Seq<char>, Seq<char>>)>,
) -> PathLookupsView {
    PathLookupsView {
        cookies_path: fully_expanded(cfg.cookies_path@, home, variables),
        output_audio_dir: fully_expanded(cfg.output_audio_dir@, home, variables),
        output_video_dir: fully_expanded(cfg.output_video_dir@, home, variables),
        db_path: fully_expanded(cfg.db_path@, home, variables),
        lock_path: fully_expanded(cfg.lock_path@, home, variables),
        binary_path: fully_expanded(cfg.yt_dlp.binary_path@, home, variables),
    }
}

/// The error of a failed lookup.
pub open spec fn lookup_error(path: Seq<char>, found: Result<Seq<char>, Seq<char>>) -> Option<
    ConfigErrorView,
> {
    match found {
        Ok(_) => None,
        Err(cause) => Some(ConfigErrorView::Expand { path, cause }),
    }
}

/// The error of the first lookup that failed.
pub open spec fn first_lookup_error(cfg: Config, found: PathLookupsView) -> Option<
    ConfigErrorView,
> {
    if found.cookies_path is Err {
        lookup_error(cfg.cookies_path@, found.cookies_path)
    } else if found.output_audio_dir is Err {
        lookup_error(cfg.output_audio_dir@, found.output_audio_dir)
    } else if found.output_video_dir is Err {
        lookup_error(cfg.output_video_dir@, found.output_video_dir)
    } else if found.db_path is Err {
        lookup_error(cfg.db_path@, found.db_path)
    } else if found.lock_path is Err {
        lookup_error(cfg.lock_path@, found.lock_path)
    } else {
        lookup_error(cfg.yt_dlp.binary_path@, found.binary_path)
    }
}

/// Whether a configuration holds the paths that were found.
pub open spec fn holds_found(cfg: Config, found: PathLookupsView) -> bool {
    &&& found.cookies_path == Ok::<Seq<char>, Seq<char>>(cfg.cookies_path@)
    &&& found.output_audio_dir == Ok::<Seq<char>, Seq<char>>(cfg.output_audio_dir@)
    &&& found.output_video_dir == Ok::<Seq<char>, Seq<char>>(cfg.output_video_dir@)
    &&& found.db_path == Ok::<Seq<char>, Seq<char>>(cfg.db_path@)
    &&& found.lock_path == Ok::<Seq<char>, Seq<char>>(cfg.lock_path@)
    &&& found.binary_path == Ok::<Seq<char>, Seq<char>>(cfg.yt_dlp.binary_path@)
}

/// What loading a configuration gives, once its paths were looked up: the error of the first lookup
/// that failed, else the flaw of the sources, else the configuration with the paths in place.
pub open spec fn loads_to(
    parsed: Config,
    found: PathLookupsView,
    r: Result<Config, ConfigError>,
) -> bool {
    match r {
        Ok(cfg) => {
            &&& first_lookup_error(parsed, found) is None
            &&& sources_flaw(parsed.sources@) is None
            &&& same_but_paths(parsed, cfg)
            &&& holds_found(cfg, found)
        },
        Err(e) => match first_lookup_error(parsed, found) {
            Some(flaw) => e@ == flaw,
            None => sources_flaw(parsed.sources@) == Some(e@),
        },
    }
}

/// Expands the six paths.
fn look_up_paths(cfg: &Config, home: &Option<String>, variables: &Vec<Variable>) -> (r: PathLookups)
    ensures
        r@ == lookups_of(*cfg, opt_text(*home), variable_views(variables@)),
        forall|i: int|
            0 <= i < 6 ==> expands_to(
                #[trigger] expanded_paths(*cfg)[i],
                opt_text(*home),
                variable_views(variables@),
                fully_expanded(
                    expanded_paths(*cfg)[i],
                    opt_text(*home),
                    variable_views(variables@),
                ),
            ),
{
    let paths = cfg.paths_to_expand();
    assert(paths@.len() == texts(paths@).len());
    assert forall|i: int| 0 <= i < 6 implies paths@[i]@ == #[trigger] expanded_paths(*cfg)[i] by {
        assert(texts(paths@)[i] == paths@[i]@);
    }
    assert(expanded_paths(*cfg)[0] == cfg.cookies_path@ && expanded_paths(*cfg)[1]
        == cfg.output_audio_dir@ && expanded_paths(*cfg)[2] == cfg.output_video_dir@
        && expanded_paths(*cfg)[3] == cfg.db_path@ && expanded_paths(*cfg)[4] == cfg.lock_path@
        && expanded_paths(*cfg)[5] == cfg.yt_dlp.binary_path@);
    PathLookups {
        cookies_path: expand_full(paths[0].as_str(), home, variables),
        output_audio_dir: expand_full(paths[1].as_str(), home, variables),
        output_video_dir: expand_full(paths[2].as_str(), home, variables),
        db_path: expand_full(paths[3].as_str(), home, variables),
        lock_path: expand_full(paths[4].as_str(), home, variables),
        binary_path: expand_full(paths[5].as_str(), home, variables),
    }
}

/// The characters of the six paths that are expanded, in the order in which that happens.
pub open spec fn expanded_paths(cfg: Config) -> Seq<Seq<char>> {
    seq![
        cfg.cookies_path@,
        cfg.output_audio_dir@,
        cfg.output_video_dir@,
        cfg.db_path@,
        cfg.lock_path@,
        cfg.yt_dlp.binary_path@,
    ]
}

/// Whether two configurations agree in everything but the six paths.
pub open spec fn same_but_paths(a: Config, b: Config) -> bool {
    &&& a.bitrate == b.bitrate
    &&& a.rate_limit == b.rate_limit
    &&& a.retries == b.retries
    &&& a.retry_backoff_sec == b.retry_backoff_sec
    &&& a.sleep_interval_sec == b.sleep_interval_sec
    &&& a.max_sleep_interval_sec == b.max_sleep_interval_sec
    &&& a.per_item_timeout_sec == b.per_item_timeout_sec
    &&& a.min_free_disk_gb == b.min_free_disk_gb
    &&& a.ntfy == b.ntfy
    &&& a.musicbrainz == b.musicbrainz
    &&& a.yt_dlp.auto_update == b.yt_dlp.auto_update
    &&& a.yt_dlp.update_if_older_than_days == b.yt_dlp.update_if_older_than_days
    &&& a.yt_dlp.channel == b.yt_dlp.channel
    &&& a.yt_dlp.update_on_extract_error == b.yt_dlp.update_on_extract_error
    &&& a.yt_dlp.update_timeout_sec == b.yt_dlp.update_timeout_sec
    &&& a.sources == b.sources
}

/// What is wrong with one source, if anything.
pub open spec fn source_flaw(s: Source) -> Option<ConfigErrorView> {
    if trimmed(s.name@).len() == 0 {
        Some(ConfigErrorView::EmptyName)
    } else if trimmed(s.url@).len() == 0 {
        Some(ConfigErrorView::EmptyUrl { name: s.name@ })
    } else {
        None
    }
}

/// The flaw of the first source that has one.
pub open spec fn first_flaw(sources: Seq<Source>) -> Option<ConfigErrorView>
    decreases sources.len(),
{
    if sources.len() == 0 {
        None
    } else if source_flaw(sources[0]) is Some {
        source_flaw(sources[0])
    } else {
        first_flaw(sources.drop_first())
    }
}

/// What is wrong with a list of sources, if anything.
pub open spec fn sources_flaw(sources: Seq<Source>) -> Option<ConfigErrorView> {
    if sources.len() == 0 {
        Some(ConfigErrorView::NoSources)
    } else {
        first_flaw(sources)
    }
}

impl Config {
    /// The six paths, in the order in which they are expanded.
    pub fn paths_to_expand(&self) -> (r: Vec<String>)
        ensures
            texts(r@) == expanded_paths(*self),
    {
        let r = vec![
            self.cookies_path.clone(),
            self.output_audio_dir.clone(),
            self.output_video_dir.clone(),
            self.db_path.clone(),
            self.lock_path.clone(),
            self.yt_dlp.binary_path.clone(),
        ];
        assert(texts(r@) =~= expanded_paths(*self));
        r
    }

    /// Takes a configuration as it was parsed: expands its paths with the home directory and the
    /// variables, then checks its sources.
    pub fn load(parsed: Config, home: &Option<String>, variables: &Vec<Variable>) -> (r: Result<
        Config,
        ConfigError,
    >)
        ensures
            loads_to(
                parsed,
                lookups_of(parsed, opt_text(*home), variable_views(variables@)),
                r,
            ),
            forall|i: int|
                0 <= i < 6 ==> expands_to(
                    #[trigger] expanded_paths(parsed)[i],
                    opt_text(*home),
                    variable_views(variables@),
                    fully_expanded(
                        expanded_paths(parsed)[i],
                        opt_text(*home),
                        variable_views(variables@),
                    ),
                ),
    {
        let found = look_up_paths(&parsed, home, variables);
        Config::load_with(parsed, found)
    }

    /// The same, given the outcomes of looking its paths up.
    pub fn load_with(parsed: Config, found: PathLookups) -> (r: Result<Config, ConfigError>)
        ensures
            loads_to(parsed, found@, r),
    {
        let mut cfg = parsed;
        match cfg.expand_paths(found) {
            Ok(()) => {},
            Err(e) => {
                return Err(e);
            },
        }
        match cfg.validate() {
            Ok(()) => Ok(cfg),
            Err(e) => Err(e),
        }
    }

    /// Puts the six paths that were found in place, stopping at the first that was not.
    pub fn expand_paths(&mut self, found: PathLookups) -> (r: Result<(), ConfigError>)
        ensures
            same_but_paths(*old(self), *final(self)),
            match first_lookup_error(*old(self), found@) {
                Some(e) => r is Err && r->Err_0@ == e,
                None => r is Ok && holds_found(*final(self), found@),
            },
    {
        match expand(self.cookies_path.as_str(), found.cookies_path) {
            Ok(p) => self.cookies_path = p,
            Err(e) => return Err(e),
        }
        match expand(self.output_audio_dir.as_str(), found.output_audio_dir) {
            Ok(p) => self.output_audio_dir = p,
            Err(e) => return Err(e),
        }
        match expand(self.output_video_dir.as_str(), found.output_video_dir) {
            Ok(p) => self.output_video_dir = p,
            Err(e) => return Err(e),
        }
        match expand(self.db_path.as_str(), found.db_path) {
            Ok(p) => self.db_path = p,
            Err(e) => return Err(e),
        }
        match expand(self.lock_path.as_str(), found.lock_path) {
            Ok(p) => self.lock_path = p,
            Err(e) => return Err(e),
        }
        match expand(self.yt_dlp.binary_path.as_str(), found.binary_path) {
            Ok(p) => self.yt_dlp.binary_path = p,
            Err(e) => return Err(e),
        }
        Ok(())
    }

    /// Checks that there are sources and that each has a name and a URL.
    pub fn validate(&self) -> (r: Result<(), ConfigError>)
        ensures
            match r {
                Ok(()) => sources_flaw(self.sources@) is None,
                Err(e) => sources_flaw(self.sources@) == Some(e@),
            },
    {
        if self.sources.len() == 0 {
            return Err(ConfigError::NoSources);
        }
        let mut i: usize = 0;
        assert(self.sources@.skip(0) == self.sources@);
        while i < self.sources.len()
            invariant
                self.sources@.len() > 0,
                i <= self.sources@.len(),
                first_flaw(self.sources@.skip(i as int)) == first_flaw(self.sources@),
            decreases self.sources@.len() - i,
        {
            let s = &self.sources[i];
            assert(self.sources@.skip(i as int).drop_first() == self.sources@.skip(i + 1));
            assert(self.sources@.skip(i as int)[0] == *s);
            if trim(s.name.as_str()).as_str().is_empty() {
                return Err(ConfigError::EmptyName);
            }
            if trim(s.url.as_str()).as_str().is_empty() {
                return Err(ConfigError::EmptyUrl { name: s.name.clone() });
            }
            i += 1;
        }
        Ok(())
    }
}

/// `directories::ProjectDirs::from` with no qualifier and no organization, and its `config_dir`:
/// where the system keeps the configuration files of an application, or `None` where there is no
/// home directory. On Linux that is a directory with the name of the application, stated for this
/// one's, below a directory that depends on the environment and is not stated.
#[verifier::external_body]
fn project_config_dir(application: &str) -> (r: Option<String>)
    ensures
        r is Some && application@ == "ytsync-pi"@ ==> exists|base: Seq<char>|
            r->0@ == #[trigger] joined_path(base, application@),
{
    directories::ProjectDirs::from("", "", application).map(
        |d| d.config_dir().to_string_lossy().into_owned(),
    )
}

/// The configuration file inside the directory that the system names.
pub fn config_file_in(dir: Option<String>) -> (r: Result<String, ConfigError>)
    ensures
        match opt_text(dir) {
            Some(d) => r is Ok && r->Ok_0@ == joined_path(d, "config.toml"@),
            None => r is Err && r->Err_0@ is NoConfigDir,
        },
{
    match dir {
        Some(d) => {
            proof {
                reveal_strlit("config.toml");
            }
            Ok(join_path(d.as_str(), "config.toml"))
        },
        None => Err(ConfigError::NoConfigDir),
    }
}

/// Where the configuration file is looked for unless the caller names one.
pub fn default_config_path() -> (r: Result<String, ConfigError>)
    ensures
        match r {
            Ok(p) => exists|base: Seq<char>|
                p@ == joined_path(#[trigger] joined_path(base, "ytsync-pi"@), "config.toml"@),
            Err(e) => e@ is NoConfigDir,
        },
{
    let dir = project_config_dir("ytsync-pi");
    config_file_in(dir)
}

/// A list of sources passes where there is one at least and each has a name and a URL, and nowhere
/// else.
pub proof fn law_sources_pass_where_each_is_named(sources: Seq<Source>)
    ensures
        sources_flaw(sources) is None <==> sources.len() > 0 && forall|i: int|
            0 <= i < sources.len() ==> trimmed((#[trigger] sources[i]).name@).len() > 0 && trimmed(
                sources[i].url@,
            ).len() > 0,
{
    lemma_first_flaw(sources);
}

proof fn lemma_first_flaw(sources: Seq<Source>)
    ensures
        first_flaw(sources) is None <==> forall|i: int|
            0 <= i < sources.len() ==> trimmed((#[trigger] sources[i]).name@).len() > 0 && trimmed(
                sources[i].url@,
            ).len() > 0,
    decreases sources.len(),
{
    if sources.len() > 0 {
        let rest = sources.drop_first();
        lemma_first_flaw(rest);
        assert forall|i: int| 0 <= i < rest.len() implies rest[i] == sources[i + 1] by {}
        if first_flaw(sources) is None {
            assert forall|i: int| 0 <= i < sources.len() implies trimmed(
                (#[trigger] sources[i]).name@,
            ).len() > 0 && trimmed(sources[i].url@).len() > 0 by {
                if i > 0 {
                    assert(rest[i - 1] == sources[i]);
                }
            }
        } else if source_flaw(sources[0]) is None {
            let i = choose|i: int|
                0 <= i < rest.len() && !(trimmed((#[trigger] rest[i]).name@).len() > 0 && trimmed(
                    rest[i].url@,
                ).len() > 0);
            assert(rest[i] == sources[i + 1]);
        }
    }
}

/// What is shown of a secret tells whether there is one; an empty one counts as none.
pub proof fn law_redaction_tells_whether_there_is_a_secret(a: Seq<char>)
    requires
        a.len() > 0,
    ensures
        redacted(None) == "<unset>"@,
        redacted(Some(seq![])) == "<unset>"@,
        redacted(Some(a)) == "***set***"@,
        redacted(Some(a)) != redacted(None),
{
    reveal_strlit("<unset>");
    reveal_strlit("***set***");
    assert("<unset>"@[0] != "***set***"@[0]);
}

/// A variable has the value of the first of its name, whatever stands before it under other names
/// and whatever behind it; a name that nothing has is an error.
pub proof fn law_first_of_a_name_counts(
    before: Seq<(Seq<char>, Result<Seq<char>, Seq<char>>)>,
    name: Seq<char>,
    value: Result<Seq<char>, Seq<char>>,
    behind: Seq<(Seq<char>, Result<Seq<char>, Seq<char>>)>,
)
    requires
        forall|i: int| 0 <= i < before.len() ==> (#[trigger] before[i]).0 != name,
    ensures
        variable_value(before.push((name, value)) + behind, name) == value,
        variable_value(before, name) == Err::<Seq<char>, Seq<char>>(
            "environment variable not found"@,
        ),
    decreases before.len(),
{
    let all = before.push((name, value)) + behind;
    if before.len() == 0 {
        assert(all[0] == (name, value));
    } else {
        assert(all[0] == before[0]);
        assert(all.drop_first() =~= before.drop_first().push((name, value)) + behind);
        assert forall|i: int| 0 <= i < before.drop_first().len() implies (
        #[trigger] before.drop_first()[i]).0 != name by {
            assert(before.drop_first()[i] == before[i + 1]);
        }
        law_first_of_a_name_counts(before.drop_first(), name, value, behind);
    }
}

/// A tilde that stands alone or before a slash gives way to the home directory; any other path, and
/// every path where there is no home directory, stays.
pub proof fn law_tilde_is_the_home_directory(home: Seq<char>, rest: Seq<char>, s: Seq<char>)
    ensures
        tilde_expanded(seq!['~'], Some(home)) == home,
        tilde_expanded(seq!['~', '/'] + rest, Some(home)) == home + seq!['/'] + rest,
        s.len() == 0 || s[0] != '~' ==> tilde_expanded(s, Some(home)) == s,
        s.len() > 1 && s[1] != '/' ==> tilde_expanded(s, Some(home)) == s,
        tilde_expanded(s, None) == s,
{
    assert(home + seq!['~'].drop_first() =~= home);
    let p = seq!['~', '/'] + rest;
    assert(home + p.drop_first() =~= home + seq!['/'] + rest);
}

/// The first path that cannot be expanded is told, with its own complaint; the order is that of the
/// six paths.
pub proof fn law_first_failed_path_is_told(
    cfg: Config,
    found: PathLookupsView,
    i: int,
    cause: Seq<char>,
)
    requires
        0 <= i < 6,
    ensures
        ({
            let outcomes = seq![
                found.cookies_path,
                found.output_audio_dir,
                found.output_video_dir,
                found.db_path,
                found.lock_path,
                found.binary_path,
            ];
            &&& outcomes[i] == Err::<Seq<char>, Seq<char>>(cause) && (forall|k: int|
                0 <= k < i ==> (#[trigger] outcomes[k]) is Ok) ==> first_lookup_error(cfg, found)
                == Some(ConfigErrorView::Expand { path: expanded_paths(cfg)[i], cause })
            &&& (forall|k: int| 0 <= k < 6 ==> (#[trigger] outcomes[k]) is Ok)
                ==> first_lookup_error(cfg, found) is None
        }),
{
    let outcomes = seq![
        found.cookies_path,
        found.output_audio_dir,
        found.output_video_dir,
        found.db_path,
        found.lock_path,
        found.binary_path,
    ];
    assert(outcomes[0] == found.cookies_path && outcomes[1] == found.output_audio_dir && outcomes[2]
        == found.output_video_dir && outcomes[3] == found.db_path && outcomes[4] == found.lock_path
        && outcomes[5] == found.binary_path);
}

/// A configuration loads just where every path could be expanded and the sources pass. It is then
/// the one that was read, but for the paths, each of which stands where it stood.
pub proof fn law_loaded_config_is_the_one_read(
    parsed: Config,
    found: PathLookupsView,
    r: Result<Config, ConfigError>,
)
    requires
        loads_to(parsed, found, r),
    ensures
        r is Ok <==> found.cookies_path is Ok && found.output_audio_dir is Ok
            && found.output_video_dir is Ok && found.db_path is Ok && found.lock_path is Ok
            && found.binary_path is Ok && sources_flaw(parsed.sources@) is None,
        r is Ok ==> {
            let cfg = r->Ok_0;
            &&& found.cookies_path->Ok_0 == cfg.cookies_path@
            &&& found.output_audio_dir->Ok_0 == cfg.output_audio_dir@
            &&& found.output_video_dir->Ok_0 == cfg.output_video_dir@
            &&& found.db_path->Ok_0 == cfg.db_path@
            &&& found.lock_path->Ok_0 == cfg.lock_path@
            &&& found.binary_path->Ok_0 == cfg.yt_dlp.binary_path@
            &&& cfg == (Config {
                cookies_path: cfg.cookies_path,
                output_audio_dir: cfg.output_audio_dir,
                output_video_dir: cfg.output_video_dir,
                db_path: cfg.db_path,
                lock_path: cfg.lock_path,
                yt_dlp: YtDlpConfig { binary_path: cfg.yt_dlp.binary_path, ..parsed.yt_dlp },
                ..parsed
            })
        },
{
}

/// Each path is looked up for its own place.
pub proof fn law_each_path_is_looked_up(
    cfg: Config,
    home: Option<Seq<char>>,
    variables: Seq<(Seq<char>, Result<Seq<char>, Seq<char>>)>,
)
    ensures
        ({
            let found = lookups_of(cfg, home, variables);
            &&& found.cookies_path == fully_expanded(cfg.cookies_path@, home, variables)
            &&& found.output_audio_dir == fully_expanded(cfg.output_audio_dir@, home, variables)
            &&& found.output_video_dir == fully_expanded(cfg.output_video_dir@, home, variables)
            &&& found.db_path == fully_expanded(cfg.db_path@, home, variables)
            &&& found.lock_path == fully_expanded(cfg.lock_path@, home, variables)
            &&& found.binary_path == fully_expanded(cfg.yt_dlp.binary_path@, home, variables)
        }),
{
}

/// Without sources that is what is told. Of sources with flaws the first is told: that its name is
/// blank, or, where it has a name, that its URL is, with that name.
pub proof fn law_first_flawed_source_is_told(
    before: Seq<Source>,
    source: Source,
    behind: Seq<Source>,
)
    requires
        forall|i: int|
            0 <= i < before.len() ==> trimmed((#[trigger] before[i]).name@).len() > 0 && trimmed(
                before[i].url@,
            ).len() > 0,
    ensures
        sources_flaw(seq![]) == Some(ConfigErrorView::NoSources),
        trimmed(source.name@).len() == 0 ==> sources_flaw(before.push(source) + behind) == Some(
            ConfigErrorView::EmptyName,
        ),
        trimmed(source.name@).len() > 0 && trimmed(source.url@).len() == 0 ==> sources_flaw(
            before.push(source) + behind,
        ) == Some(ConfigErrorView::EmptyUrl { name: source.name@ }),
    decreases before.len(),
{
    let all = before.push(source) + behind;
    if before.len() == 0 {
        assert(all[0] == source);
    } else {
        assert(all[0] == before[0]);
        assert(all.drop_first() =~= before.drop_first().push(source) + behind);
        assert forall|i: int| 0 <= i < before.drop_first().len() implies trimmed(
            (#[trigger] before.drop_first()[i]).name@,
        ).len() > 0 && trimmed(before.drop_first()[i].url@).len() > 0 by {
            assert(before.drop_first()[i] == before[i + 1]);
        }
        law_first_flawed_source_is_told(before.drop_first(), source, behind);
    }
}

/// What is said of an error names what it is about.
pub proof fn law_errors_name_what_they_are_about(path: Seq<char>, cause: Seq<char>, name: Seq<char>)
    ensures
        (ConfigErrorView::Expand { path, cause }).text() == "expand path "@ + path,
        (ConfigErrorView::EmptyUrl { name }).text() == "source "@ + name + " has empty url"@,
        ConfigErrorView::NoSources.text() == "config has no sources"@,
        ConfigErrorView::EmptyName.text() == "source has empty name"@,
        ConfigErrorView::NoConfigDir.text() == "resolve config dir"@,
{
}

/// A variable with a plain name between a front and a slash gives way to its value.
pub proof fn law_variable_gives_way_to_its_value(
    front: Seq<char>,
    name: Seq<char>,
    rest: Seq<char>,
    variables: Seq<(Seq<char>, Result<Seq<char>, Seq<char>>)>,
)
    requires
        !front.contains('$'),
        name.len() > 0,
        forall|i: int| 0 <= i < name.len() ==> is_name_char(#[trigger] name[i]),
        rest.len() == 0 || rest[0] == '/',
        !rest.contains('$'),
        front.len() == 0 || front[0] != '~',
    ensures
        ({
            let s = front.push('$') + name + rest;
            &&& names_one_variable(s)
            &&& match variable_value(variables, name) {
                Ok(v) => variable_expanded(s, variables) == Ok::<Seq<char>, Seq<char>>(
                    front + v + rest,
                ),
                Err(e) => variable_expanded(s, variables) == Err::<Seq<char>, Seq<char>>(
                    "error looking key '"@ + name + "' up: "@ + e,
                ),
            }
        }),
{
    let s = front.push('$') + name + rest;
    let n = run_before(s, '$') as int;
    lemma_run_before(s, '$');
    assert(s[front.len() as int] == '$');
    if n < front.len() {
        assert(front[n] == '$');
    }
    assert(before_first(s, '$') =~= front);
    assert(behind_dollar(s) =~= name + rest);
    let b = behind_dollar(s);
    let m = run_before(b, '/') as int;
    lemma_run_before(b, '/');
    if m < name.len() {
        assert(is_name_char(name[m]));
    }
    if rest.len() > 0 {
        assert(b[name.len() as int] == '/');
    }
    assert(before_first(b, '/') =~= name);
    assert(b.skip(name.len() as int) =~= rest);
    if b.contains('$') {
        let k = choose|k: int| 0 <= k < b.len() && b[k] == '$';
        if k < name.len() {
            assert(is_name_char(name[k]));
        } else {
            assert(rest[k - name.len()] == '$');
        }
    }
}

} // verus!
