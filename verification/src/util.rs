//! Helpers that the rest of ZeroClaw shares.
use vstd::prelude::*;
use crate::json::{json_document, parse, text_at, text_in};
use crate::paths::{home_dir, join, joined};
use crate::text::{
    chars_of, optional_text, split_at_first, split_once, string_of, texts,
};

verus! {

/// What is put in place of the text that was cut off.
pub open spec fn ellipsis() -> Seq<char> {
    "..."@
}

/// `s` cut down to `max_chars` characters: `s` itself if it is no longer than
/// that; else exactly its first `max_chars` characters, and the ellipsis.
pub open spec fn truncated(s: Seq<char>, max_chars: nat) -> Seq<char> {
    if s.len() <= max_chars {
        s
    } else {
        s.take(max_chars as int) + ellipsis()
    }
}

/// Truncation returns a text of at most `max_chars` characters unchanged. Of a
/// longer one it keeps the first `max_chars` characters, each whole and in its
/// place, and puts the three dots of the ellipsis behind them: so the ellipsis
/// alone where `max_chars` is zero.
pub proof fn lemma_truncation(s: Seq<char>, max_chars: nat)
    ensures
        s.len() <= max_chars ==> truncated(s, max_chars) == s,
        s.len() > max_chars ==> truncated(s, max_chars).len() == max_chars + 3,
        s.len() > max_chars ==> truncated(s, max_chars).take(max_chars as int) == s.take(
            max_chars as int,
        ),
        s.len() > max_chars ==> truncated(s, max_chars).skip(max_chars as int) == ellipsis(),
        forall|i: int|
            0 <= i < max_chars && i < s.len() ==> #[trigger] truncated(s, max_chars)[i] == s[i],
        s.len() > 0 ==> truncated(s, 0) == ellipsis(),
{
    reveal_strlit("...");
    if s.len() > max_chars {
        let kept = s.take(max_chars as int);
        assert((kept + ellipsis()).take(max_chars as int) =~= kept);
        assert((kept + ellipsis()).skip(max_chars as int) =~= ellipsis());
    }
    if s.len() > 0 {
        assert(s.take(0) + ellipsis() =~= ellipsis());
    }
}

/// Truncates `s` to at most `max_chars` characters and appends `...` if
/// anything was cut off. Characters are counted, not bytes, so that none is
/// split.
pub fn truncate_with_ellipsis(s: &str, max_chars: usize) -> (t: String)
    ensures
        t@ == truncated(s@, max_chars as nat),
{
    let chars = chars_of(s);
    if chars.len() <= max_chars {
        return String::from_str(s);
    }
    let mut t = string_of(&chars, 0, max_chars);
    proof {
        assert(chars@.subrange(0, max_chars as int) =~= s@.take(max_chars as int));
    }
    t.append("...");
    t
}

/// What an OpenClaw installation tells about itself.
#[derive(Debug, Clone)]
pub struct OpenClawProfile {
    /// The configuration file that was read.
    pub source_path: String,
    /// The workspace directory of the default agent.
    pub workspace_dir: Option<String>,
    /// The provider of the default agent's primary model.
    pub provider: Option<String>,
    /// The name of that model.
    pub model: Option<String>,
    /// The address at which the provider is reached.
    pub api_url: Option<String>,
    /// The key that the provider asks for.
    pub api_key: Option<String>,
}

/// [`OpenClawProfile`] as contracts speak of it: every text is the sequence of its
/// characters.
pub struct ProfileView {
    pub source_path: Seq<char>,
    pub workspace_dir: Option<Seq<char>>,
    pub provider: Option<Seq<char>>,
    pub model: Option<Seq<char>>,
    pub api_url: Option<Seq<char>>,
    pub api_key: Option<Seq<char>>,
}

impl View for OpenClawProfile {
    type V = ProfileView;

    open spec fn view(&self) -> ProfileView {
        ProfileView {
            source_path: self.source_path@,
            workspace_dir: optional_text(self.workspace_dir),
            provider: optional_text(self.provider),
            model: optional_text(self.model),
            api_url: optional_text(self.api_url),
            api_key: optional_text(self.api_key),
        }
    }
}

/// The view of an optional profile.
pub open spec fn optional_profile(profile: Option<OpenClawProfile>) -> Option<ProfileView> {
    match profile {
        Some(profile) => Some(profile@),
        None => None,
    }
}

/// The primary model of the default agent, as `provider/model`; empty where
/// the document names none.
pub open spec fn primary_model(doc: Map<Seq<Seq<char>>, Seq<char>>) -> Seq<char> {
    match text_in(doc, seq!["agents"@, "defaults"@, "model"@, "primary"@]) {
        Some(primary) => primary,
        None => Seq::empty(),
    }
}

/// The setting `key` of the provider `provider`.
pub open spec fn provider_setting(
    doc: Map<Seq<Seq<char>>, Seq<char>>,
    provider: Seq<char>,
    key: Seq<char>,
) -> Option<Seq<char>> {
    text_in(doc, seq!["models"@, "providers"@, provider, key])
}

/// The profile that the texts `doc` of a configuration at `source_path`
/// describe. Provider and model are the two parts of the primary model, cut at
/// its first `/`; the address and the key are those of that provider.
pub open spec fn profile_of(
    source_path: Seq<char>,
    doc: Map<Seq<Seq<char>>, Seq<char>>,
) -> ProfileView {
    let workspace_dir = text_in(doc, seq!["agents"@, "defaults"@, "workspace"@]);
    match split_at_first(primary_model(doc), '/') {
        Some((provider, model)) => ProfileView {
            source_path,
            workspace_dir,
            provider: Some(provider),
            model: Some(model),
            api_url: provider_setting(doc, provider, "baseUrl"@),
            api_key: provider_setting(doc, provider, "apiKey"@),
        },
        None => ProfileView {
            source_path,
            workspace_dir,
            provider: None,
            model: None,
            api_url: None,
            api_key: None,
        },
    }
}

/// The profile in the configuration `content`, if `content` is a JSON document.
pub open spec fn parsed_profile(source_path: Seq<char>, content: Seq<char>) -> Option<
    ProfileView,
> {
    match json_document(content) {
        Some(doc) => Some(profile_of(source_path, doc)),
        None => None,
    }
}

/// Reads the profile from `content`, the text of the configuration file at
/// `config_path`. There is a profile if and only if `content` is a JSON
/// document; what the document does not name is left out of the profile.
pub fn parse_openclaw_profile(config_path: &str, content: &str) -> (profile: Option<
    OpenClawProfile,
>)
    ensures
        optional_profile(profile) == parsed_profile(config_path@, content@),
{
    let json = match parse(content) {
        Ok(json) => json,
        Err(_) => {
            return None;
        },
    };
    let workspace_path = ["agents", "defaults", "workspace"];
    let primary_path = ["agents", "defaults", "model", "primary"];
    proof {
        assert(texts(workspace_path@) =~= seq!["agents"@, "defaults"@, "workspace"@]);
        assert(texts(primary_path@) =~= seq!["agents"@, "defaults"@, "model"@, "primary"@]);
    }
    let workspace_dir = text_at(&json, &workspace_path);
    let primary = match text_at(&json, &primary_path) {
        Some(primary) => primary,
        None => String::new(),
    };
    match split_once(primary.as_str(), '/') {
        Some((provider, model)) => {
            let url_path = ["models", "providers", provider.as_str(), "baseUrl"];
            let key_path = ["models", "providers", provider.as_str(), "apiKey"];
            proof {
                assert(texts(url_path@) =~= seq!["models"@, "providers"@, provider@, "baseUrl"@]);
                assert(texts(key_path@) =~= seq!["models"@, "providers"@, provider@, "apiKey"@]);
            }
            let api_url = text_at(&json, &url_path);
            let api_key = text_at(&json, &key_path);
            Some(
                OpenClawProfile {
                    source_path: String::from_str(config_path),
                    workspace_dir,
                    provider: Some(provider),
                    model: Some(model),
                    api_url,
                    api_key,
                },
            )
        },
        None => Some(
            OpenClawProfile {
                source_path: String::from_str(config_path),
                workspace_dir,
                provider: None,
                model: None,
                api_url: None,
                api_key: None,
            },
        ),
    }
}

/// A configuration file that may hold a profile.
#[derive(Debug, Clone)]
pub struct ProfileSource {
    /// Where the file is.
    pub path: String,
    /// What it holds; nothing if it is not there or cannot be read.
    pub content: Option<String>,
}

/// [`ProfileSource`] as contracts speak of it: every text is the sequence of its
/// characters.
pub struct SourceView {
    pub path: Seq<char>,
    pub content: Option<Seq<char>>,
}

impl View for ProfileSource {
    type V = SourceView;

    open spec fn view(&self) -> SourceView {
        SourceView { path: self.path@, content: optional_text(self.content) }
    }
}

impl DeepView for ProfileSource {
    type V = SourceView;

    open spec fn deep_view(&self) -> SourceView {
        self@
    }
}

/// The profile in `source`, if it holds one.
pub open spec fn source_profile(source: SourceView) -> Option<ProfileView> {
    match source.content {
        Some(content) => parsed_profile(source.path, content),
        None => None,
    }
}

/// The profile of the first of `sources` that holds one.
pub open spec fn first_profile(sources: Seq<SourceView>) -> Option<ProfileView>
    decreases sources.len(),
{
    if sources.len() == 0 {
        None
    } else {
        match source_profile(sources.first()) {
            Some(profile) => Some(profile),
            None => first_profile(sources.drop_first()),
        }
    }
}

/// The two places below `home` where OpenClaw keeps its configuration, in the
/// order in which they are tried.
pub open spec fn candidate_paths(home: Seq<char>) -> Seq<Seq<char>> {
    seq![
        joined(joined(home, ".openclaw"@), "openclaw.json"@),
        joined(joined(home, ".clawdbot"@), "openclaw.json"@),
    ]
}

/// The places below `home` where OpenClaw keeps its configuration.
pub fn openclaw_candidates(home: &str) -> (paths: Vec<String>)
    ensures
        paths.deep_view() == candidate_paths(home@),
{
    let current = join(join(home, ".openclaw").as_str(), "openclaw.json");
    let former = join(join(home, ".clawdbot").as_str(), "openclaw.json");
    let mut paths: Vec<String> = Vec::new();
    paths.push(current);
    paths.push(former);
    paths
}

/// The places where OpenClaw may keep its configuration, given the home
/// directory that was found: the two places below it, and none where no home
/// directory was found.
pub open spec fn candidate_paths_below(home: Option<Seq<char>>) -> Option<Seq<Seq<char>>> {
    match home {
        Some(home) => Some(candidate_paths(home)),
        None => None,
    }
}

/// The places where OpenClaw may keep its configuration, given the home
/// directory that was found, if one was found.
pub fn openclaw_candidates_below(home: Option<String>) -> (paths: Option<Vec<String>>)
    ensures
        match paths {
            Some(list) => candidate_paths_below(optional_text(home)) == Some(list.deep_view()),
            None => candidate_paths_below(optional_text(home)) is None,
        },
{
    match home {
        Some(home) => Some(openclaw_candidates(home.as_str())),
        None => None,
    }
}

/// The places where the current user's OpenClaw may keep its configuration;
/// none if the home directory cannot be found.
pub fn openclaw_config_files() -> (paths: Option<Vec<String>>)
    ensures
        paths matches Some(list) ==> exists|home: Seq<char>|
            list.deep_view() == #[trigger] candidate_paths(home),
{
    openclaw_candidates_below(home_dir())
}

/// Detects an OpenClaw installation: the profile of the first of `sources`
/// that is there, can be read and is a JSON document.
pub fn detect_openclaw_profile(sources: &Vec<ProfileSource>) -> (profile: Option<OpenClawProfile>)
    ensures
        optional_profile(profile) == first_profile(sources.deep_view()),
{
    let mut i: usize = 0;
    proof {
        assert(sources.deep_view().skip(0) =~= sources.deep_view());
    }
    while i < sources.len()
        invariant
            i <= sources.len(),
            first_profile(sources.deep_view()) == first_profile(sources.deep_view().skip(i as int)),
        decreases sources.len() - i,
    {
        let source = &sources[i];
        proof {
            let rest = sources.deep_view().skip(i as int);
            assert(rest.drop_first() =~= sources.deep_view().skip(i + 1));
        }
        match &source.content {
            Some(content) => {
                match parse_openclaw_profile(source.path.as_str(), content.as_str()) {
                    Some(profile) => {
                        return Some(profile);
                    },
                    None => {},
                }
            },
            None => {},
        }
        i += 1;
    }
    None
}

/// The workspace directory that the detected OpenClaw installation names, if
/// one is detected and names one.
pub fn resolve_openclaw_workspace(sources: &Vec<ProfileSource>) -> (workspace: Option<String>)
    ensures
        optional_text(workspace) == match first_profile(sources.deep_view()) {
            Some(profile) => profile.workspace_dir,
            None => None,
        },
{
    match detect_openclaw_profile(sources) {
        Some(profile) => profile.workspace_dir,
        None => None,
    }
}

} // verus!
