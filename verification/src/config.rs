//! The application configuration: what the user saved, what is in effect,
//! the process-wide cache of it, and the choice of the newest models.
use vstd::prelude::*;
use crate::text::{
    chars_of, clone_opt, decimal, ends_with, ends_with_exec, is_blank, is_digit, is_white_space,
    lemma_decimal_digits, lemma_parse_decimal, opt_view, owned, parse_u32, parse_u32_exec,
    starts_with, starts_with_exec, str_is_blank, unsigned_digits,
};

verus! {

broadcast use vstd::string::group_string_axioms;

/// What the user keeps in the configuration file.
pub struct ConfigFile {
    pub api_key: Option<String>,
}

impl Default for ConfigFile {
    fn default() -> (r: Self)
        ensures
            r.api_key is None,
    {
        ConfigFile { api_key: None }
    }
}

/// The configuration that the model adapters use.
pub struct EffectiveConfig {
    pub api_key: Option<String>,
    pub base_url: String,
    pub model: String,
    pub image_model: String,
    pub video_model: String,
}

/// The characters of every field of an [`EffectiveConfig`].
pub struct EffectiveConfigView {
    pub api_key: Option<Seq<char>>,
    pub base_url: Seq<char>,
    pub model: Seq<char>,
    pub image_model: Seq<char>,
    pub video_model: Seq<char>,
}

impl View for EffectiveConfig {
    type V = EffectiveConfigView;

    open spec fn view(&self) -> EffectiveConfigView {
        EffectiveConfigView {
            api_key: opt_view(self.api_key),
            base_url: self.base_url@,
            model: self.model@,
            image_model: self.image_model@,
            video_model: self.video_model@,
        }
    }
}

impl Clone for EffectiveConfig {
    fn clone(&self) -> (r: Self)
        ensures
            r@ == self@,
    {
        EffectiveConfig {
            api_key: clone_opt(&self.api_key),
            base_url: self.base_url.clone(),
            model: self.model.clone(),
            image_model: self.image_model.clone(),
            video_model: self.video_model.clone(),
        }
    }
}

/// The fixed site that every model request goes to.
pub open spec fn default_base_url() -> Seq<char> {
    "https://api.agnes-ai.cn/v1"@
}

/// The text model used until a newer one is found.
pub open spec fn default_model() -> Seq<char> {
    "agnes-3.0-flash"@
}

/// The image model used until a newer one is found.
pub open spec fn default_image_model() -> Seq<char> {
    "agnes-image-2.5-flash"@
}

/// The video model used until a newer one is found.
pub open spec fn default_video_model() -> Seq<char> {
    "agnes-video-2.5-flash"@
}

/// The saved API key, unless it is blank.
pub open spec fn usable_api_key(api_key: Option<String>) -> Option<Seq<char>> {
    match api_key {
        Some(k) => if is_blank(k@) {
            None
        } else {
            Some(k@)
        },
        None => None,
    }
}

/// The configuration in effect for a saved file, before any newer model is found.
pub open spec fn resolved_config(file: ConfigFile) -> EffectiveConfigView {
    EffectiveConfigView {
        api_key: usable_api_key(file.api_key),
        base_url: default_base_url(),
        model: default_model(),
        image_model: default_image_model(),
        video_model: default_video_model(),
    }
}

/// The message for a configuration file that is not valid JSON of the expected shape.
pub open spec fn config_format_error(detail: Seq<char>) -> Seq<char> {
    "配置文件格式错误: "@ + detail
}

/// Reads the configuration from the file's parsed content: no file means
/// the empty configuration; a file that did not parse is an error.
/// `content` is `None` when there is no file, else the outcome of parsing it
/// (the parser's own message on failure).
pub fn help_parse_config(content: Option<Result<ConfigFile, String>>) -> (r: Result<ConfigFile, String>)
    ensures
        match content {
            None => r matches Ok(c) && c.api_key is None,
            Some(Ok(c)) => r == Ok::<ConfigFile, String>(c),
            Some(Err(e)) => r matches Err(m) && m@ == config_format_error(e@),
        },
{
    match content {
        None => Ok(ConfigFile::default()),
        Some(Ok(c)) => Ok(c),
        Some(Err(e)) => {
            let mut m = owned("配置文件格式错误: ");
            m.append(e.as_str());
            Err(m)
        },
    }
}

/// Turns the saved file into the configuration in effect on the fixed site,
/// dropping a blank API key.
pub fn help_resolve_config(config: ConfigFile) -> (r: EffectiveConfig)
    ensures
        r@ == resolved_config(config),
{
    let api_key = match config.api_key {
        Some(k) => if str_is_blank(k.as_str()) {
            None
        } else {
            Some(k)
        },
        None => None,
    };
    EffectiveConfig {
        api_key,
        base_url: owned("https://api.agnes-ai.cn/v1"),
        model: owned("agnes-3.0-flash"),
        image_model: owned("agnes-image-2.5-flash"),
        video_model: owned("agnes-video-2.5-flash"),
    }
}

/// The process-wide cache of the configuration in effect.
pub struct RuntimeConfigCache {
    current: Option<EffectiveConfig>,
}

impl View for RuntimeConfigCache {
    type V = Option<EffectiveConfigView>;

    closed spec fn view(&self) -> Option<EffectiveConfigView> {
        match self.current {
            Some(c) => Some(c@),
            None => None,
        }
    }
}

impl RuntimeConfigCache {
    /// A cache that holds nothing yet.
    pub fn new() -> (r: Self)
        ensures
            r@ is None,
    {
        RuntimeConfigCache { current: None }
    }
}

/// The message for a read of the cache before anything was stored.
pub open spec fn not_initialized_error() -> Seq<char> {
    "应用配置尚未初始化"@
}

/// What a write of `config` makes of the cache's contents.
pub open spec fn runtime_write(
    cache: Option<EffectiveConfigView>,
    config: EffectiveConfigView,
) -> Option<EffectiveConfigView> {
    Some(config)
}

/// What a read of the cache gives: the stored configuration, or the message
/// that nothing was stored yet.
pub open spec fn runtime_read(cache: Option<EffectiveConfigView>) -> Result<
    EffectiveConfigView,
    Seq<char>,
> {
    match cache {
        Some(c) => Ok(c),
        None => Err(not_initialized_error()),
    }
}

/// Stores the configuration in effect for the modules to read.
pub fn set_runtime_config(cache: &mut RuntimeConfigCache, config: EffectiveConfig) -> (r: Result<
    (),
    String,
>)
    ensures
        r is Ok,
        final(cache)@ == runtime_write(old(cache)@, config@),
{
    cache.current = Some(config);
    Ok(())
}

/// A copy of the stored configuration, or an error when nothing was stored.
pub fn get_runtime_config(cache: &RuntimeConfigCache) -> (r: Result<EffectiveConfig, String>)
    ensures
        match runtime_read(cache@) {
            Ok(c) => r matches Ok(got) && got@ == c,
            Err(e) => r matches Err(m) && m@ == e,
        },
{
    match &cache.current {
        Some(c) => Ok(c.clone()),
        None => Err(owned("应用配置尚未初始化")),
    }
}

/// A read of the cache gives back what the last write stored, whatever the
/// cache held before.
pub proof fn lemma_runtime_read_after_write(
    cache: Option<EffectiveConfigView>,
    config: EffectiveConfigView,
)
    ensures
        runtime_read(runtime_write(cache, config)) == Ok::<EffectiveConfigView, Seq<char>>(config),
{
}

/// A second write replaces the first: only the last one is read back.
pub proof fn lemma_runtime_last_write_wins(
    cache: Option<EffectiveConfigView>,
    first: EffectiveConfigView,
    second: EffectiveConfigView,
)
    ensures
        runtime_write(runtime_write(cache, first), second) == runtime_write(cache, second),
{
}

/// The three families of models that the application uses.
#[derive(Clone, Copy)]
pub enum ModelKind {
    Text,
    Image,
    Video,
}

/// One entry of the site's model list.
pub struct ModelItem {
    pub id: String,
}

/// A request for the site's model list.
pub struct ModelsRequest {
    pub url: String,
    pub api_key: String,
}

/// The name prefix of a family.
pub open spec fn kind_prefix(kind: ModelKind) -> Seq<char> {
    match kind {
        ModelKind::Text => "agnes-"@,
        ModelKind::Image => "agnes-image-"@,
        ModelKind::Video => "agnes-video-"@,
    }
}

/// The name suffix of the models that are chosen.
pub open spec fn flash_suffix() -> Seq<char> {
    "-flash"@
}

/// The part of a name between the family prefix and the flash suffix, when
/// the name has both.
pub open spec fn version_text(model: Seq<char>, kind: ModelKind) -> Option<Seq<char>> {
    let p = kind_prefix(kind);
    let f = flash_suffix();
    if starts_with(model, p) && p.len() + f.len() <= model.len() && ends_with(model, f) {
        Some(model.subrange(p.len() as int, model.len() - f.len()))
    } else {
        None
    }
}

/// `d` is the position of the one and only `.` in `text`.
pub open spec fn single_dot_at(text: Seq<char>, d: int) -> bool {
    &&& 0 <= d < text.len()
    &&& text[d] == '.'
    &&& forall|j: int| 0 <= j < text.len() && j != d ==> #[trigger] text[j] != '.'
}

/// `major.minor`: exactly one dot, with an unsigned number on each side.
pub open spec fn split_version(text: Seq<char>) -> Option<(u32, u32)> {
    if exists|d: int| single_dot_at(text, d) {
        let d = choose|d: int| single_dot_at(text, d);
        match (parse_u32(text.subrange(0, d)), parse_u32(text.subrange(d + 1, text.len() as int))) {
            (Some(major), Some(minor)) => Some((major, minor)),
            _ => None,
        }
    } else {
        None
    }
}

/// The version of a model name of the given family: the name is the
/// family prefix, `major.minor`, then `-flash`.
pub open spec fn model_version(model: Seq<char>, kind: ModelKind) -> Option<(u32, u32)> {
    match version_text(model, kind) {
        Some(text) => split_version(text),
        None => None,
    }
}

/// Versions compare by major number, then by minor number.
pub open spec fn version_le(a: (u32, u32), b: (u32, u32)) -> bool {
    a.0 < b.0 || (a.0 == b.0 && a.1 <= b.1)
}

/// The names in a model list.
pub open spec fn model_ids(models: Seq<ModelItem>) -> Seq<Seq<char>> {
    models.map_values(|m: ModelItem| m.id@)
}

/// The version of the `i`-th name, for the family.
pub open spec fn version_of(ids: Seq<Seq<char>>, kind: ModelKind, i: int) -> Option<(u32, u32)> {
    model_version(ids[i], kind)
}

/// The `i`-th name is the newest of its family: it has a version, none is
/// higher, and every later name of the family is strictly lower (of equal
/// versions the last one wins).
pub open spec fn is_newest_at(ids: Seq<Seq<char>>, kind: ModelKind, i: int) -> bool {
    &&& 0 <= i < ids.len()
    &&& version_of(ids, kind, i) is Some
    &&& forall|j: int|
        0 <= j < ids.len() && (#[trigger] version_of(ids, kind, j)) is Some ==> {
            &&& version_le(version_of(ids, kind, j)->0, version_of(ids, kind, i)->0)
            &&& (j > i ==> !version_le(version_of(ids, kind, i)->0, version_of(ids, kind, j)->0))
        }
}

/// The newest name of the family in the list, if the list has one.
pub open spec fn newest_model(ids: Seq<Seq<char>>, kind: ModelKind) -> Option<Seq<char>> {
    if exists|i: int| is_newest_at(ids, kind, i) {
        Some(ids[choose|i: int| is_newest_at(ids, kind, i)])
    } else {
        None
    }
}

/// At most one entry is the newest of a family.
pub proof fn lemma_newest_is_unique(ids: Seq<Seq<char>>, kind: ModelKind, i: int, j: int)
    requires
        is_newest_at(ids, kind, i),
        is_newest_at(ids, kind, j),
    ensures
        i == j,
{
    if i < j {
        assert(version_of(ids, kind, j) is Some);
        assert(version_of(ids, kind, i) is Some);
    } else if j < i {
        assert(version_of(ids, kind, j) is Some);
        assert(version_of(ids, kind, i) is Some);
    }
}

/// A family has a newest entry exactly when some entry of the list has a
/// version of that family.
pub proof fn lemma_newest_exists_iff_versioned(ids: Seq<Seq<char>>, kind: ModelKind)
    ensures
        (newest_model(ids, kind) is Some) <==> (exists|i: int|
            0 <= i < ids.len() && (#[trigger] version_of(ids, kind, i)) is Some),
    decreases ids.len(),
{
    if exists|i: int| 0 <= i < ids.len() && (#[trigger] version_of(ids, kind, i)) is Some {
        let k = newest_index(ids, kind);
        assert(is_newest_at(ids, kind, k));
    }
}

/// The position of the newest entry, found by walking the list.
proof fn newest_index(ids: Seq<Seq<char>>, kind: ModelKind) -> (k: int)
    requires
        exists|i: int| 0 <= i < ids.len() && (#[trigger] version_of(ids, kind, i)) is Some,
    ensures
        is_newest_at(ids, kind, k),
    decreases ids.len(),
{
    let n = ids.len() - 1;
    let prefix = ids.drop_last();
    assert forall|j: int| 0 <= j < prefix.len() implies #[trigger] version_of(prefix, kind, j)
        == version_of(ids, kind, j) by {
        assert(prefix[j] == ids[j]);
    }
    if exists|i: int| 0 <= i < prefix.len() && (#[trigger] version_of(prefix, kind, i)) is Some {
        let b = newest_index(prefix, kind);
        assert(version_of(prefix, kind, b) == version_of(ids, kind, b));
        match version_of(ids, kind, n) {
            Some(v) => {
                let bv = version_of(ids, kind, b)->0;
                if version_le(bv, v) {
                    assert forall|j: int|
                        0 <= j < ids.len() && (#[trigger] version_of(ids, kind, j)) is Some implies {
                        &&& version_le(version_of(ids, kind, j)->0, version_of(ids, kind, n)->0)
                        &&& (j > n ==> !version_le(
                            version_of(ids, kind, n)->0,
                            version_of(ids, kind, j)->0,
                        ))
                    } by {
                        if j < n {
                            assert(version_of(prefix, kind, j) is Some);
                        }
                    }
                    n
                } else {
                    assert forall|j: int|
                        0 <= j < ids.len() && (#[trigger] version_of(ids, kind, j)) is Some implies {
                        &&& version_le(version_of(ids, kind, j)->0, version_of(ids, kind, b)->0)
                        &&& (j > b ==> !version_le(
                            version_of(ids, kind, b)->0,
                            version_of(ids, kind, j)->0,
                        ))
                    } by {
                        if j < n {
                            assert(version_of(prefix, kind, j) is Some);
                        }
                    }
                    b
                }
            },
            None => {
                assert forall|j: int|
                    0 <= j < ids.len() && (#[trigger] version_of(ids, kind, j)) is Some implies {
                    &&& version_le(version_of(ids, kind, j)->0, version_of(ids, kind, b)->0)
                    &&& (j > b ==> !version_le(
                        version_of(ids, kind, b)->0,
                        version_of(ids, kind, j)->0,
                    ))
                } by {
                    if j < n {
                        assert(version_of(prefix, kind, j) is Some);
                    }
                }
                b
            },
        }
    } else {
        assert(version_of(ids, kind, n) is Some) by {
            let i = choose|i: int| 0 <= i < ids.len() && (#[trigger] version_of(ids, kind, i)) is Some;
            if i < n {
                assert(version_of(prefix, kind, i) is Some);
            }
        }
        assert forall|j: int|
            0 <= j < ids.len() && (#[trigger] version_of(ids, kind, j)) is Some implies {
            &&& version_le(version_of(ids, kind, j)->0, version_of(ids, kind, n)->0)
            &&& (j > n ==> !version_le(version_of(ids, kind, n)->0, version_of(ids, kind, j)->0))
        } by {
            if j < n {
                assert(version_of(prefix, kind, j) is Some);
            }
        }
        n
    }
}

fn kind_prefix_str(kind: ModelKind) -> (p: &'static str)
    ensures
        p@ == kind_prefix(kind),
{
    match kind {
        ModelKind::Text => "agnes-",
        ModelKind::Image => "agnes-image-",
        ModelKind::Video => "agnes-video-",
    }
}

/// Checks a model name against its family's naming and reads its
/// `major.minor` version.
pub fn help_model_version(model: &str, kind: ModelKind) -> (r: Option<(u32, u32)>)
    ensures
        r == model_version(model@, kind),
{
    let chars = chars_of(model);
    let prefix = chars_of(kind_prefix_str(kind));
    let suffix = chars_of("-flash");
    if !starts_with_exec(&chars, &prefix) {
        return None;
    }
    if chars.len() - prefix.len() < suffix.len() || !ends_with_exec(&chars, &suffix) {
        return None;
    }
    let from = prefix.len();
    let to = chars.len() - suffix.len();
    let ghost text = chars@.subrange(from as int, to as int);
    assert(version_text(model@, kind) == Some(text));
    let mut dot: Option<usize> = None;
    let mut i = from;
    while i < to
        invariant
            from <= i <= to <= chars.len(),
            text == chars@.subrange(from as int, to as int),
            version_text(model@, kind) == Some(text),
            dot is None ==> forall|k: int| from <= k < i ==> chars@[k] != '.',
            dot matches Some(d) ==> {
                &&& from <= d < i
                &&& chars@[d as int] == '.'
                &&& forall|k: int| from <= k < i && k != d ==> chars@[k] != '.'
            },
        decreases to - i,
    {
        if chars[i] == '.' {
            if let Some(d) = dot {
                assert forall|e: int| !single_dot_at(text, e) by {
                    if single_dot_at(text, e) {
                        assert(text[d - from] == '.');
                        assert(text[i - from] == '.');
                    }
                }
                return None;
            }
            dot = Some(i);
        }
        i = i + 1;
    }
    match dot {
        None => {
            assert forall|e: int| !single_dot_at(text, e) by {
                if single_dot_at(text, e) {
                    assert(text[e] == chars@[from + e]);
                }
            }
            None
        },
        Some(d) => {
            let ghost e = d - from;
            assert(single_dot_at(text, e)) by {
                assert forall|j: int| 0 <= j < text.len() && j != e implies #[trigger] text[j]
                    != '.' by {
                    assert(text[j] == chars@[from + j]);
                }
            }
            assert forall|e2: int| single_dot_at(text, e2) implies e2 == e by {
                if e2 != e {
                    assert(text[e] == '.');
                }
            }
            let ghost chosen = choose|d2: int| single_dot_at(text, d2);
            assert(chosen == e);
            assert(text.subrange(0, e) =~= chars@.subrange(from as int, d as int));
            assert(text.subrange(e + 1, text.len() as int) =~= chars@.subrange(
                d + 1,
                to as int,
            ));
            let major = parse_u32_exec(&chars, from, d);
            let minor = parse_u32_exec(&chars, d + 1, to);
            match (major, minor) {
                (Some(a), Some(b)) => Some((a, b)),
                _ => None,
            }
        },
    }
}

/// Picks, from the site's model list, the newest model of a family.
pub fn help_select_model(models: &Vec<ModelItem>, kind: ModelKind) -> (r: Option<String>)
    ensures
        opt_view(r) == newest_model(model_ids(models@), kind),
        r is None <==> forall|i: int|
            0 <= i < models.len() ==> #[trigger] version_of(model_ids(models@), kind, i) is None,
{
    let ghost ids = model_ids(models@);
    let mut best: Option<(usize, (u32, u32))> = None;
    for i in 0..models.len()
        invariant
            ids == model_ids(models@),
            ids.len() == models.len(),
            best is None <==> forall|k: int| 0 <= k < i ==> #[trigger] version_of(ids, kind, k) is None,
            best matches Some(b) ==> {
                &&& b.0 < i
                &&& version_of(ids, kind, b.0 as int) == Some(b.1)
                &&& forall|k: int|
                    0 <= k < i && (#[trigger] version_of(ids, kind, k)) is Some ==> {
                        &&& version_le(version_of(ids, kind, k)->0, b.1)
                        &&& (k > b.0 ==> !version_le(b.1, version_of(ids, kind, k)->0))
                    }
            },
    {
        assert(ids[i as int] == models@[i as int].id@);
        let v = help_model_version(models[i].id.as_str(), kind);
        if let Some(v) = v {
            match best {
                None => {
                    best = Some((i, v));
                },
                Some(b) => {
                    let bv = b.1;
                    if bv.0 < v.0 || (bv.0 == v.0 && bv.1 <= v.1) {
                        best = Some((i, v));
                    }
                },
            }
        }
    }
    match best {
        None => {
            proof {
                if exists|k: int| is_newest_at(ids, kind, k) {
                    let k = choose|k: int| is_newest_at(ids, kind, k);
                    assert(version_of(ids, kind, k) is Some);
                }
            }
            None
        },
        Some(b) => {
            assert(is_newest_at(ids, kind, b.0 as int));
            proof {
                let c = choose|k: int| is_newest_at(ids, kind, k);
                lemma_newest_is_unique(ids, kind, c, b.0 as int);
            }
            assert(ids[b.0 as int] == models@[b.0 as int].id@);
            Some(models[b.0].id.clone())
        },
    }
}

/// The model-list request for a configuration: none without an API key.
pub fn help_models_request(config: &EffectiveConfig) -> (r: Option<ModelsRequest>)
    ensures
        match config.api_key {
            None => r is None,
            Some(k) => r matches Some(req) && req.api_key@ == k@ && req.url@ == config.base_url@
                + "/models"@,
        },
{
    match &config.api_key {
        None => None,
        Some(k) => {
            let mut url = config.base_url.clone();
            url.append("/models");
            Some(ModelsRequest { url, api_key: k.clone() })
        },
    }
}

/// The name chosen for a family: the newest listed one, else the current one.
pub open spec fn newest_or(ids: Seq<Seq<char>>, kind: ModelKind, current: Seq<char>) -> Seq<char> {
    match newest_model(ids, kind) {
        Some(id) => id,
        None => current,
    }
}

/// Replaces each family's model by the newest one in the site's list,
/// keeping the current model of a family that the list does not have.
pub fn help_apply_latest_models(config: EffectiveConfig, models: &Vec<ModelItem>) -> (r:
    EffectiveConfig)
    ensures
        r@.api_key == config@.api_key,
        r@.base_url == config@.base_url,
        r@.model == newest_or(model_ids(models@), ModelKind::Text, config@.model),
        r@.image_model == newest_or(model_ids(models@), ModelKind::Image, config@.image_model),
        r@.video_model == newest_or(model_ids(models@), ModelKind::Video, config@.video_model),
{
    let mut config = config;
    if let Some(m) = help_select_model(models, ModelKind::Text) {
        config.model = m;
    }
    if let Some(m) = help_select_model(models, ModelKind::Image) {
        config.image_model = m;
    }
    if let Some(m) = help_select_model(models, ModelKind::Video) {
        config.video_model = m;
    }
    config
}

/// The name of a family's model of version `major.minor`.
pub open spec fn model_name(kind: ModelKind, major: u32, minor: u32) -> Seq<char> {
    kind_prefix(kind) + decimal(major as nat) + seq!['.'] + decimal(minor as nat) + flash_suffix()
}

/// A family's name of version `major.minor` reads back as that version.
pub proof fn lemma_model_name_round_trip(kind: ModelKind, major: u32, minor: u32)
    ensures
        model_version(model_name(kind, major, minor), kind) == Some((major, minor)),
{
    let p = kind_prefix(kind);
    let f = flash_suffix();
    let a = decimal(major as nat);
    let b = decimal(minor as nat);
    let name = model_name(kind, major, minor);
    let text = a + seq!['.'] + b;
    assert(name =~= p + text + f);
    assert(name.subrange(0, p.len() as int) =~= p);
    assert(name.subrange(name.len() - f.len(), name.len() as int) =~= f);
    assert(name.subrange(p.len() as int, name.len() - f.len()) =~= text);
    assert(version_text(name, kind) == Some(text));
    lemma_decimal_digits(major as nat);
    lemma_decimal_digits(minor as nat);
    let d = a.len() as int;
    assert forall|j: int| 0 <= j < text.len() && j != d implies #[trigger] text[j] != '.' by {
        if j < d {
            assert(text[j] == a[j]);
            assert(is_digit(a[j]));
        } else {
            assert(text[j] == b[j - d - 1]);
            assert(is_digit(b[j - d - 1]));
        }
    }
    assert(single_dot_at(text, d));
    assert forall|e: int| single_dot_at(text, e) implies e == d by {
        if e != d {
            assert(text[d] == '.');
        }
    }
    let chosen = choose|e: int| single_dot_at(text, e);
    assert(chosen == d);
    assert(text.subrange(0, d) =~= a);
    assert(text.subrange(d + 1, text.len() as int) =~= b);
    lemma_parse_decimal(major);
    lemma_parse_decimal(minor);
}

/// Image and video models are never taken for text models, although all
/// three families share the `agnes-` prefix.
pub proof fn lemma_other_families_are_not_text(name: Seq<char>)
    requires
        starts_with(name, "agnes-image-"@) || starts_with(name, "agnes-video-"@),
    ensures
        model_version(name, ModelKind::Text) is None,
{
    reveal_strlit("agnes-");
    reveal_strlit("agnes-image-");
    reveal_strlit("agnes-video-");
    reveal_strlit("-flash");
    if let Some(text) = version_text(name, ModelKind::Text) {
        if exists|d: int| single_dot_at(text, d) {
            let d = choose|d: int| single_dot_at(text, d);
            let first = text.subrange(0, d);
            if d > 0 {
                assert(first[0] == name[6]);
                assert(name[6] == 'i' || name[6] == 'v') by {
                    if starts_with(name, "agnes-image-"@) {
                        assert(name.subrange(0, 12)[6] == name[6]);
                    } else {
                        assert(name.subrange(0, 12)[6] == name[6]);
                    }
                }
                assert(unsigned_digits(first) == first);
                assert(!is_digit(first[0]));
            }
        }
    }
}

/// Refreshing a family's model takes the newest listed model of that
/// family, for every family: when the list has a model of the family, the
/// chosen name is a listed name of the family whose version no listed
/// model of the family exceeds; when it has none, the current name stays.
pub proof fn lemma_refresh_takes_newest_listed(
    ids: Seq<Seq<char>>,
    kind: ModelKind,
    current: Seq<char>,
)
    ensures
        (exists|i: int| 0 <= i < ids.len() && (#[trigger] version_of(ids, kind, i)) is Some) ==> (
        exists|k: int|
            0 <= k < ids.len() && ids[k] == newest_or(ids, kind, current) && (
            #[trigger] version_of(ids, kind, k)) is Some && forall|j: int|
                0 <= j < ids.len() && (#[trigger] version_of(ids, kind, j)) is Some
                    ==> version_le(version_of(ids, kind, j)->0, version_of(ids, kind, k)->0)),
        (forall|i: int| 0 <= i < ids.len() ==> (#[trigger] version_of(ids, kind, i)) is None)
            ==> newest_or(ids, kind, current) == current,
{
    lemma_newest_exists_iff_versioned(ids, kind);
    if exists|i: int| 0 <= i < ids.len() && (#[trigger] version_of(ids, kind, i)) is Some {
        let k = choose|k: int| is_newest_at(ids, kind, k);
        assert(is_newest_at(ids, kind, k));
        assert(newest_or(ids, kind, current) == ids[k]);
    }
}

/// A name that has a version of a family carries the family's prefix and
/// the flash suffix.
pub proof fn lemma_versioned_names_have_family_shape(model: Seq<char>, kind: ModelKind)
    requires
        model_version(model, kind) is Some,
    ensures
        starts_with(model, kind_prefix(kind)),
        ends_with(model, flash_suffix()),
        model.len() >= kind_prefix(kind).len() + flash_suffix().len(),
{
}

/// A saved key is kept exactly as saved (surrounding spaces included) when
/// some character of it is not whitespace, and dropped when every character
/// is; the site and the default models do not depend on the file.
pub proof fn lemma_resolved_key(file: ConfigFile)
    ensures
        file.api_key is None ==> resolved_config(file).api_key is None,
        file.api_key matches Some(k) ==> ((exists|i: int|
            0 <= i < k@.len() && !is_white_space(#[trigger] k@[i])) ==> resolved_config(
            file,
        ).api_key == Some(k@)),
        file.api_key matches Some(k) ==> ((forall|i: int|
            0 <= i < k@.len() ==> is_white_space(#[trigger] k@[i])) ==> resolved_config(
            file,
        ).api_key is None),
        resolved_config(file).base_url == "https://api.agnes-ai.cn/v1"@,
        resolved_config(file).model == "agnes-3.0-flash"@,
        resolved_config(file).image_model == "agnes-image-2.5-flash"@,
        resolved_config(file).video_model == "agnes-video-2.5-flash"@,
{
}

} // verus!
