use vstd::prelude::*;

use crate::text::same_text;

verus! {

/// Where a model comes from and where it is kept.
pub struct ModelSpec {
    pub logical_name: String,
    /// The address to download the model from; none for a local file.
    pub source_uri: Option<String>,
    /// The file that holds, or will hold, the model.
    pub cache_path: String,
}

impl View for ModelSpec {
    type V = (Seq<char>, Option<Seq<char>>, Seq<char>);

    open spec fn view(&self) -> Self::V {
        (
            self.logical_name@,
            match self.source_uri {
                Some(u) => Some(u@),
                None => None,
            },
            self.cache_path@,
        )
    }
}

/// The path of `name` inside the directory `dir`, as `std::path::Path::join`
/// forms it.
pub uninterp spec fn joined_path(dir: Seq<char>, name: Seq<char>) -> Seq<char>;

/// Relies on `std::path::Path::join`: the path of `name` inside `dir`,
/// which depends on the two texts alone.
#[verifier::external_body]
fn join_path(dir: &str, name: &str) -> (r: String)
    ensures
        r@ == joined_path(dir@, name@),
{
    std::path::Path::new(dir).join(name).to_string_lossy().to_string()
}

/// The cache file name of a known model.
pub open spec fn model_file(name: Seq<char>) -> Option<Seq<char>> {
    if name == "whisper-base"@ {
        Some("ggml-base.en.bin"@)
    } else if name == "whisper-tiny"@ {
        Some("ggml-tiny.en.bin"@)
    } else if name == "whisper-small"@ {
        Some("ggml-small.en.bin"@)
    } else if name == "whisper-medium"@ {
        Some("ggml-medium.en.bin"@)
    } else if name == "whisper-large-v1"@ {
        Some("ggml-large-v1.bin"@)
    } else if name == "whisper-large-v2"@ {
        Some("ggml-large-v2.bin"@)
    } else if name == "whisper-large-v3"@ {
        Some("ggml-large-v3.bin"@)
    } else if name == "whisper-large-v3-turbo"@ {
        Some("ggml-large-v3-turbo.bin"@)
    } else {
        None
    }
}

/// Where every known model file is published.
pub open spec fn model_base_uri() -> Seq<char> {
    "https://huggingface.co/ggerganov/whisper.cpp/resolve/main/"@
}

/// The spec that `name` resolves to, with `cache_dir` as the cache
/// directory: a known name is downloaded from the published file into the
/// cache directory, any other name is a local path used as it is.
pub open spec fn resolved(name: Seq<char>, cache_dir: Seq<char>) -> (
    Seq<char>,
    Option<Seq<char>>,
    Seq<char>,
) {
    match model_file(name) {
        Some(f) => (name, Some(model_base_uri() + f), joined_path(cache_dir, f)),
        None => (name, None, name),
    }
}

/// The cache file name of a known model, or none.
fn known_model_file(name: &str) -> (r: Option<&'static str>)
    ensures
        r.is_some() == model_file(name@).is_some(),
        r matches Some(f) ==> model_file(name@) == Some(f@),
{
    if same_text(name, "whisper-base") {
        Some("ggml-base.en.bin")
    } else if same_text(name, "whisper-tiny") {
        Some("ggml-tiny.en.bin")
    } else if same_text(name, "whisper-small") {
        Some("ggml-small.en.bin")
    } else if same_text(name, "whisper-medium") {
        Some("ggml-medium.en.bin")
    } else if same_text(name, "whisper-large-v1") {
        Some("ggml-large-v1.bin")
    } else if same_text(name, "whisper-large-v2") {
        Some("ggml-large-v2.bin")
    } else if same_text(name, "whisper-large-v3") {
        Some("ggml-large-v3.bin")
    } else if same_text(name, "whisper-large-v3-turbo") {
        Some("ggml-large-v3-turbo.bin")
    } else {
        None
    }
}

/// Maps a logical model name to its source and cache file. Nothing is read
/// or written: the cache directory is given.
pub fn match_model(name: &str, cache_dir: &str) -> (r: ModelSpec)
    ensures
        r@ == resolved(name@, cache_dir@),
{
    match known_model_file(name) {
        Some(f) => {
            let mut uri = String::from_str("https://huggingface.co/ggerganov/whisper.cpp/resolve/main/");
            uri.append(f);
            ModelSpec {
                logical_name: String::from_str(name),
                source_uri: Some(uri),
                cache_path: join_path(cache_dir, f),
            }
        },
        None => ModelSpec {
            logical_name: String::from_str(name),
            source_uri: None,
            cache_path: String::from_str(name),
        },
    }
}

/// Resolving a name is a function of the name and the cache directory:
/// two resolutions of the same name give the same spec.
pub proof fn lemma_resolve_deterministic(
    name: Seq<char>,
    cache_dir: Seq<char>,
    a: ModelSpec,
    b: ModelSpec,
)
    requires
        a@ == resolved(name, cache_dir),
        b@ == resolved(name, cache_dir),
    ensures
        a@ == b@,
{
}

/// What to do to have a model file at hand.
pub enum FetchPlan {
    /// The file is in the cache: use it, with no download.
    UseCached(String),
    /// Download `uri` into `path`.
    Download { uri: String, path: String },
    /// The model is a local file: use it where it is.
    UseLocal(String),
}

/// The plan for a resolved spec, given whether its cache file exists.
pub open spec fn plan_for(
    spec: (Seq<char>, Option<Seq<char>>, Seq<char>),
    cache_exists: bool,
) -> FetchPlanView {
    match spec.1 {
        Some(u) => if cache_exists {
            FetchPlanView::UseCached(spec.2)
        } else {
            FetchPlanView::Download(u, spec.2)
        },
        None => FetchPlanView::UseLocal(spec.2),
    }
}

/// A fetch plan with its texts as character sequences.
pub enum FetchPlanView {
    UseCached(Seq<char>),
    Download(Seq<char>, Seq<char>),
    UseLocal(Seq<char>),
}

impl View for FetchPlan {
    type V = FetchPlanView;

    open spec fn view(&self) -> FetchPlanView {
        match self {
            FetchPlan::UseCached(p) => FetchPlanView::UseCached(p@),
            FetchPlan::Download { uri, path } => FetchPlanView::Download(uri@, path@),
            FetchPlan::UseLocal(p) => FetchPlanView::UseLocal(p@),
        }
    }
}

impl FetchPlan {
    pub open spec fn needs_network(&self) -> bool {
        self is Download
    }
}

/// Decides how to obtain the model of `spec`: a cached file is used as it
/// is, a missing one is downloaded, a local model is used in place.
pub fn plan_fetch(spec: &ModelSpec, cache_exists: bool) -> (r: FetchPlan)
    ensures
        r@ == plan_for(spec@, cache_exists),
{
    match &spec.source_uri {
        Some(u) => if cache_exists {
            FetchPlan::UseCached(spec.cache_path.clone())
        } else {
            FetchPlan::Download { uri: u.clone(), path: spec.cache_path.clone() }
        },
        None => FetchPlan::UseLocal(spec.cache_path.clone()),
    }
}

/// Fetching is idempotent: once the cache file of a model exists, the plan
/// makes no network call and hands back the cache path.
pub proof fn lemma_cached_fetch_is_local(spec: ModelSpec, cache_exists: bool, plan: FetchPlan)
    requires
        cache_exists,
        plan@ == plan_for(spec@, cache_exists),
    ensures
        !plan.needs_network(),
        spec.source_uri.is_some() ==> plan@ == FetchPlanView::UseCached(spec.cache_path@),
        spec.source_uri.is_none() ==> plan@ == FetchPlanView::UseLocal(spec.cache_path@),
{
}

/// Bytes received so far by a download, against the size that the server
/// announced (zero when it announced none).
pub struct DownloadProgress {
    pub downloaded: u64,
    pub total_size: u64,
}

impl DownloadProgress {
    pub fn new(total_size: u64) -> (r: DownloadProgress)
        ensures
            r.downloaded == 0,
            r.total_size == total_size,
    {
        DownloadProgress { downloaded: 0, total_size }
    }

    /// Counts a received chunk of `len` bytes; the count saturates at
    /// `u64::MAX`.
    pub fn record_chunk(&mut self, len: u64)
        ensures
            final(self).total_size == old(self).total_size,
            final(self).downloaded as int == if old(self).downloaded + len > u64::MAX {
                u64::MAX as int
            } else {
                old(self).downloaded + len
            },
    {
        self.downloaded = self.downloaded.saturating_add(len);
    }

    /// The whole percentage downloaded, rounded down and capped at
    /// `u64::MAX`, or none when the size is unknown.
    pub fn percent(&self) -> (r: Option<u64>)
        ensures
            self.total_size == 0 ==> r.is_none(),
            self.total_size > 0 ==> r == Some(
                if self.downloaded as int * 100 / self.total_size as int > u64::MAX {
                    u64::MAX
                } else {
                    (self.downloaded as int * 100 / self.total_size as int) as u64
                },
            ),
    {
        if self.total_size == 0 {
            None
        } else {
            let p = (self.downloaded as u128) * 100 / (self.total_size as u128);
            if p > u64::MAX as u128 {
                Some(u64::MAX)
            } else {
                Some(p as u64)
            }
        }
    }
}

} // verus!
