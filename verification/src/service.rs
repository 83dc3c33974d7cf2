//! The control plane of the embedded model: the state of the service and the
//! answers to its four operations.

use crate::download::{
    lemma_event_is_monotonic, DownloadEvent, DownloadEventView, DownloadState, DownloadView,
};
use crate::model::{EmbeddedInferenceArgs, EmbeddedInferenceResult, EmbeddedModelConfig};
use crate::text::{
    first_index_of, lemma_first_index_of, lemma_first_index_of_is_first, optional_text, same_text,
};
use vstd::prelude::*;
use vstd::string::*;

verus! {

/// The answer to a status request.
#[derive(Clone, Debug, PartialEq, Eq)]
pub struct StatusResponse {
    pub ready: bool,
    pub model: Option<String>,
    pub uptime_s: u64,
    pub downloads: Vec<DownloadState>,
}

/// A request to load a model.
#[derive(Clone, Debug, PartialEq, Eq)]
pub struct LoadRequest {
    pub config: EmbeddedModelConfig,
}

/// How a load went.
#[derive(Clone, Debug, PartialEq, Eq)]
pub struct LoadStats {
    pub load_ms: u128,
    pub context_length: Option<u32>,
}

/// The answer to a load request.
#[derive(Clone, Debug, PartialEq, Eq)]
pub struct LoadResponse {
    pub loaded: bool,
    pub model_path: String,
    pub stats: LoadStats,
}

/// A request to infer.
#[derive(Clone, Debug, PartialEq, Eq)]
pub struct InferRequest {
    pub args: EmbeddedInferenceArgs,
}

/// The answer to an inference request.
#[derive(Clone, Debug, PartialEq, Eq)]
pub struct InferResponse {
    pub content: String,
    pub prompt_tokens: usize,
    pub completion_tokens: usize,
    pub latency_ms: u128,
}

/// The body of an answer that reports a failure.
#[derive(Clone, Debug, PartialEq, Eq)]
pub struct ErrorResponse {
    pub error: String,
}

/// A request to download model weights.
#[derive(Clone, Debug, PartialEq, Eq)]
pub struct DownloadRequest {
    pub url: String,
    pub target_name: Option<String>,
    pub sha256: Option<String>,
}

/// The answer to a download request.
#[derive(Clone, Debug, PartialEq, Eq)]
pub struct DownloadResponse {
    pub id: String,
    pub started: bool,
}

/// An answer that reports a failure: the HTTP status and the body.
#[derive(Clone, Debug, PartialEq, Eq)]
pub struct ServiceFailure {
    pub status: u16,
    pub body: ErrorResponse,
}

/// The four operations of the control plane.
#[derive(Clone, Copy, Debug, PartialEq, Eq, Structural)]
pub enum Operation {
    Status,
    Load,
    Infer,
    Download,
}

/// The model that the service has loaded.
#[derive(Clone, Debug, PartialEq, Eq)]
pub struct ModelState {
    pub path: String,
    pub last_loaded: u64,
    pub context_length: Option<u32>,
}

/// What the service knows: when it started, the model it has loaded, and its
/// downloads. Times are milliseconds on the caller's monotonic clock.
#[derive(Clone, Debug, PartialEq, Eq)]
pub struct ServiceState {
    start_time: u64,
    model: Option<ModelState>,
    downloads: Vec<DownloadState>,
}

/// The service's state as the contracts see it.
pub struct ServiceView {
    pub start_time: u64,
    pub model: Option<ModelState>,
    pub downloads: Seq<DownloadView>,
}

/// The records of a list of downloads, each as the contracts see it.
pub open spec fn views_of(records: Seq<DownloadState>) -> Seq<DownloadView> {
    records.map_values(|record: DownloadState| record@)
}

/// The identifiers of a list of downloads.
pub open spec fn ids_of(records: Seq<DownloadView>) -> Seq<Seq<char>> {
    records.map_values(|record: DownloadView| record.id)
}

impl View for ServiceState {
    type V = ServiceView;

    closed spec fn view(&self) -> ServiceView {
        ServiceView {
            start_time: self.start_time,
            model: self.model,
            downloads: views_of(self.downloads@),
        }
    }
}

impl ServiceView {
    /// No two downloads have the same identifier.
    pub open spec fn ids_unique(self) -> bool {
        forall|i: int, j: int|
            0 <= i < j < self.downloads.len() ==> self.downloads[i].id != self.downloads[j].id
    }

    /// Whether a download with `id` is registered.
    pub open spec fn knows(self, id: Seq<char>) -> bool {
        first_index_of(ids_of(self.downloads), id) < self.downloads.len()
    }

    /// The service a whole number of seconds after its start: the time between the
    /// start and `now`, and nothing where `now` lies before the start.
    pub open spec fn uptime_s(self, now: u64) -> u64 {
        if now >= self.start_time {
            ((now - self.start_time) / 1000) as u64
        } else {
            0
        }
    }

    /// `self` is `before` with the model replaced by one that was loaded from
    /// `path` at `now`.
    pub open spec fn has_loaded(
        self,
        before: ServiceView,
        path: Seq<char>,
        context_length: Option<u32>,
        now: u64,
    ) -> bool {
        &&& self.start_time == before.start_time
        &&& self.downloads == before.downloads
        &&& self.model is Some
        &&& self.model->0.path@ == path
        &&& self.model->0.context_length == context_length
        &&& self.model->0.last_loaded == now
    }

    /// The state after `record` was offered for registration: it is added at the
    /// end unless its identifier is in use.
    pub open spec fn registered(self, record: DownloadView) -> ServiceView {
        if self.knows(record.id) {
            self
        } else {
            ServiceView { downloads: self.downloads.push(record), ..self }
        }
    }

    /// The state after `event` came for the download with `id`: the first
    /// download with that identifier takes note of it, and nothing else changes.
    pub open spec fn updated(self, id: Seq<char>, event: DownloadEventView) -> ServiceView {
        let at = first_index_of(ids_of(self.downloads), id);
        if at < self.downloads.len() {
            ServiceView {
                downloads: self.downloads.update(at, self.downloads[at].after(event)),
                ..self
            }
        } else {
            self
        }
    }
}

/// The path under which an operation is served.
pub open spec fn operation_path_of(operation: Operation) -> Seq<char> {
    match operation {
        Operation::Status => "/status"@,
        Operation::Load => "/load"@,
        Operation::Infer => "/infer"@,
        Operation::Download => "/download"@,
    }
}

/// The path under which the control plane serves an operation.
pub fn operation_path(operation: Operation) -> (path: &'static str)
    ensures
        path@ == operation_path_of(operation),
{
    match operation {
        Operation::Status => "/status",
        Operation::Load => "/load",
        Operation::Infer => "/infer",
        Operation::Download => "/download",
    }
}

/// The failure that answers an inference request while no model is loaded.
pub fn not_ready() -> (failure: ServiceFailure)
    ensures
        failure.status == 400,
        failure.body.error@ == "No embedded model loaded"@,
{
    ServiceFailure {
        status: 400,
        body: ErrorResponse { error: String::from_str("No embedded model loaded") },
    }
}

/// The failure that answers a request on which the service itself failed.
pub fn internal_error(message: &str) -> (failure: ServiceFailure)
    ensures
        failure.status == 500,
        failure.body.error@ == message@,
{
    ServiceFailure { status: 500, body: ErrorResponse { error: String::from_str(message) } }
}

/// The answer to an inference that has run.
pub fn infer_response(result: EmbeddedInferenceResult, latency_ms: u128) -> (response:
    InferResponse)
    ensures
        response.content == result.content,
        response.prompt_tokens == result.prompt_tokens,
        response.completion_tokens == result.completion_tokens,
        response.latency_ms == latency_ms,
{
    InferResponse {
        content: result.content,
        prompt_tokens: result.prompt_tokens,
        completion_tokens: result.completion_tokens,
        latency_ms,
    }
}

/// The name of the file that a download is stored under: the name asked for, or
/// one made of the first eight characters of the download's identifier.
pub open spec fn target_name_of(id: Seq<char>, requested: Option<String>) -> Seq<char> {
    match requested {
        Some(name) => name@,
        None => "model-"@ + id.take(8) + ".gguf"@,
    }
}

/// Names the file of a download. Where no name is asked for, the identifier has
/// to hold the eight characters that the name is made of.
pub fn target_name(id: &str, requested: &Option<String>) -> (name: String)
    requires
        *requested is None ==> id@.len() >= 8,
    ensures
        name@ == target_name_of(id@, *requested),
{
    match requested {
        Some(name) => name.clone(),
        None => {
            let mut name = String::from_str("model-");
            name.append(id.substring_char(0, 8));
            name.append(".gguf");
            name
        },
    }
}

impl ServiceState {
    /// The state of a service that starts at `now`.
    pub fn new(now: u64) -> (state: ServiceState)
        ensures
            state@.start_time == now,
            state@.model is None,
            state@.downloads.len() == 0,
            state@.ids_unique(),
    {
        ServiceState { start_time: now, model: None, downloads: Vec::new() }
    }

    /// When the service started.
    pub fn started_at(&self) -> (start: u64)
        ensures
            start == self@.start_time,
    {
        self.start_time
    }

    /// For how many whole seconds the service has run at `now`.
    pub fn uptime_s(&self, now: u64) -> (seconds: u64)
        ensures
            seconds == self@.uptime_s(now),
    {
        if now >= self.start_time {
            (now - self.start_time) / 1000
        } else {
            0
        }
    }

    /// Takes note that a model was loaded from `path` at `now`.
    pub fn record_model(&mut self, path: String, context_length: Option<u32>, now: u64)
        ensures
            final(self)@.has_loaded(old(self)@, path@, context_length, now),
    {
        self.model = Some(ModelState { path, last_loaded: now, context_length });
    }

    /// Whether a model is loaded, and from where.
    pub fn model_snapshot(&self) -> (snapshot: (bool, Option<String>))
        ensures
            snapshot.0 == self@.model is Some,
            snapshot.1 is Some == self@.model is Some,
            snapshot.1 is Some ==> snapshot.1->0 == self@.model->0.path,
    {
        match &self.model {
            Some(model) => (true, Some(model.path.clone())),
            None => (false, None),
        }
    }

    /// Whether inference can run: it cannot while no model is loaded.
    pub fn ensure_ready(&self) -> (ready: Result<(), String>)
        ensures
            ready is Ok == self@.model is Some,
            ready is Err ==> ready->Err_0@ == "No embedded model loaded"@,
    {
        if self.model.is_some() {
            Ok(())
        } else {
            Err(String::from_str("No embedded model loaded"))
        }
    }

    /// Admits an inference request and hands on what to infer from, or answers the
    /// request with the failure that it gets while no model is loaded.
    pub fn admit_inference(&self, request: InferRequest) -> (admitted: Result<
        EmbeddedInferenceArgs,
        ServiceFailure,
    >)
        ensures
            admitted is Ok == self@.model is Some,
            admitted is Ok ==> admitted->Ok_0 == request.args,
            admitted is Err ==> admitted->Err_0.status == 400 && admitted->Err_0.body.error@
                == "No embedded model loaded"@,
    {
        if self.model.is_some() {
            Ok(request.args)
        } else {
            Err(not_ready())
        }
    }

    /// Where the first download with `id` stands among the downloads.
    fn position(&self, id: &str) -> (at: usize)
        ensures
            at == first_index_of(ids_of(self@.downloads), id@),
            at <= self@.downloads.len(),
            self@.downloads.len() == self.downloads@.len(),
            at < self.downloads@.len() ==> self.downloads@[at as int].id@ == id@,
    {
        let ghost ids = ids_of(self@.downloads);
        let mut at: usize = 0;
        while at < self.downloads.len()
            invariant
                at <= self.downloads@.len(),
                ids == ids_of(views_of(self.downloads@)),
                ids.len() == self.downloads@.len(),
                forall|j: int| 0 <= j < at ==> ids[j] != id@,
            decreases self.downloads@.len() - at,
        {
            if same_text(self.downloads[at].id.as_str(), id) {
                proof {
                    lemma_first_index_of(ids, id@, at as int);
                }
                return at;
            }
            at += 1;
        }
        proof {
            lemma_first_index_of(ids, id@, at as int);
        }
        at
    }

    /// Registers a download. Its identifier must not be in use: where it is, nothing
    /// is registered and the answer is `false`.
    pub fn register_download(&mut self, download: DownloadState) -> (registered: bool)
        ensures
            registered == !old(self)@.knows(download@.id),
            final(self)@ == old(self)@.registered(download@),
            old(self)@.ids_unique() ==> final(self)@.ids_unique(),
    {
        let at = self.position(download.id.as_str());
        if at < self.downloads.len() {
            return false;
        }
        let ghost before = self@.downloads;
        self.downloads.push(download);
        proof {
            assert(self@.downloads =~= before.push(download@));
            lemma_first_index_of_is_first(ids_of(before), download@.id);
            assert forall|i: int, j: int| 0 <= i < j < self@.downloads.len() && old(
                self,
            )@.ids_unique() implies self@.downloads[i].id != self@.downloads[j].id by {
                if j == before.len() {
                    assert(ids_of(before)[i] == before[i].id);
                }
            }
        }
        true
    }

    /// Takes note of `event` for the download with `id`. Without such a download
    /// nothing changes.
    pub fn update_download(&mut self, id: &str, event: &DownloadEvent)
        ensures
            final(self)@ == old(self)@.updated(id@, event@),
            old(self)@.ids_unique() ==> final(self)@.ids_unique(),
    {
        let at = self.position(id);
        if at >= self.downloads.len() {
            return ;
        }
        let ghost before = self@.downloads;
        let mut record = self.downloads.remove(at);
        record.apply(event);
        self.downloads.insert(at, record);
        proof {
            assert(self@.downloads =~= before.update(at as int, before[at as int].after(event@)));
            lemma_event_is_monotonic(before[at as int], event@);
        }
    }

    /// A copy of every download, in the order of registration.
    pub fn downloads(&self) -> (copies: Vec<DownloadState>)
        ensures
            views_of(copies@) == self@.downloads,
    {
        let mut copies: Vec<DownloadState> = Vec::new();
        let mut k: usize = 0;
        while k < self.downloads.len()
            invariant
                k <= self.downloads@.len(),
                copies@.len() == k,
                forall|j: int| 0 <= j < k ==> copies@[j] == self.downloads@[j],
            decreases self.downloads@.len() - k,
        {
            copies.push(self.downloads[k].snapshot());
            k += 1;
        }
        copies
    }

    /// Answers a status request at `now`.
    pub fn status(&self, now: u64) -> (response: StatusResponse)
        ensures
            response.ready == self@.model is Some,
            response.model is Some == self@.model is Some,
            response.model is Some ==> response.model->0 == self@.model->0.path,
            response.uptime_s == self@.uptime_s(now),
            views_of(response.downloads@) == self@.downloads,
    {
        let (ready, model) = self.model_snapshot();
        StatusResponse { ready, model, uptime_s: self.uptime_s(now), downloads: self.downloads() }
    }

    /// Takes note that the load which `request` asked for succeeded after `load_ms`
    /// milliseconds, at `now`, and answers the request.
    pub fn loaded(&mut self, request: &LoadRequest, load_ms: u128, now: u64) -> (response:
        LoadResponse)
        ensures
            final(self)@.has_loaded(
                old(self)@,
                request.config.model_path@,
                request.config.context_length,
                now,
            ),
            response.loaded,
            response.model_path == request.config.model_path,
            response.stats.load_ms == load_ms,
            response.stats.context_length == request.config.context_length,
    {
        self.record_model(request.config.model_path.clone(), request.config.context_length, now);
        LoadResponse {
            loaded: true,
            model_path: request.config.model_path.clone(),
            stats: LoadStats { load_ms, context_length: request.config.context_length },
        }
    }

    /// Registers the download that `request` asks for, under `id` and with the
    /// file at `target_path`, and answers the request. Where `id` is in use
    /// nothing is registered, and the answer is an internal error.
    pub fn accept_download(&mut self, id: String, request: &DownloadRequest, target_path: String)
        -> (answer: Result<DownloadResponse, ServiceFailure>)
        ensures
            answer is Ok == !old(self)@.knows(id@),
            final(self)@ == old(self)@.registered(
                DownloadView::pending(id@, request.url@, target_path@),
            ),
            old(self)@.ids_unique() ==> final(self)@.ids_unique(),
            answer is Ok ==> answer->Ok_0.id == id && answer->Ok_0.started,
            answer is Err ==> answer->Err_0.status == 500 && answer->Err_0.body.error@
                == "Download identifier already in use"@,
    {
        let record = DownloadState::new(id.clone(), request.url.clone(), target_path);
        if self.register_download(record) {
            Ok(DownloadResponse { id, started: true })
        } else {
            Err(internal_error("Download identifier already in use"))
        }
    }
}


/// Calls `uuid::Uuid::new_v4` and writes the identifier with `to_string`. The
/// identifier is random; what is claimed is the length of its hyphenated form.
#[verifier::external_body]
fn fresh_id() -> (id: String)
    ensures
        id@.len() == 36,
{
    uuid::Uuid::new_v4().to_string()
}

/// Calls `dirs::home_dir`. The answer depends on the environment; nothing is
/// claimed of it.
#[verifier::external_body]
fn home_dir() -> (home: Option<String>) {
    dirs::home_dir().map(|path| path.to_string_lossy().into_owned())
}

/// The path `name` adjoined to the path `base`, both as text, by the path rules
/// of the platform that the library is built for.
pub uninterp spec fn joined_path_of(base: Seq<char>, name: Seq<char>) -> Seq<char>;

/// Calls `std::path::Path::join` on two paths given as text. The joined path is
/// claimed to depend on the two texts alone, and is named `joined_path_of`.
#[verifier::external_body]
fn join_path(base: &str, name: &str) -> (joined: String)
    ensures
        joined@ == joined_path_of(base@, name@),
{
    std::path::Path::new(base).join(name).to_string_lossy().into_owned()
}

/// The directory that downloaded models are stored in when the user's home
/// directory is `home`: `models` in `.file-organizer` in the home directory, or in
/// the working directory where no home directory is known.
pub open spec fn model_dir_of(home: Option<Seq<char>>) -> Seq<char> {
    let base = match home {
        Some(path) => path,
        None => "."@,
    };
    joined_path_of(joined_path_of(base, ".file-organizer"@), "models"@)
}

/// The directory that downloaded models are stored in: `.file-organizer/models`
/// below `home`, or below the working directory where no home is known.
fn model_dir_under(home: Option<String>) -> (dir: String)
    ensures
        dir@ == model_dir_of(optional_text(home)),
{
    let base = match home {
        Some(path) => path,
        None => String::from_str("."),
    };
    let root = join_path(base.as_str(), ".file-organizer");
    join_path(root.as_str(), "models")
}

/// The directory that downloaded models are stored in, below the user's home.
/// Which home directory that is, and whether there is one, the environment
/// decides; the directory is the model directory of whatever it gave.
fn default_model_dir() -> (dir: String)
    ensures
        exists|home: Option<Seq<char>>| dir@ == #[trigger] model_dir_of(home),
{
    model_dir_under(home_dir())
}

impl ServiceState {
    /// Answers a download request: gives the download a fresh identifier, names
    /// its file in the model directory and registers it as pending. The caller
    /// then starts the download's task and leaves the requester to poll the status.
    ///
    /// The identifier is random and the home directory comes from the environment.
    /// A request is refused only where the identifier that was drawn is in use:
    /// so it is accepted wherever no identifier of 36 characters is in use, as
    /// on every service without downloads. Whatever was drawn, an accepted
    /// request registers one pending download for the requested address, whose
    /// identifier is answered and whose file lies in the model directory under
    /// its name, and changes nothing else; a refused request changes nothing.
    pub fn download(&mut self, request: &DownloadRequest) -> (answer: Result<
        DownloadResponse,
        ServiceFailure,
    >)
        ensures
            old(self)@.ids_unique() ==> final(self)@.ids_unique(),
            old(self)@.downloads.len() == 0 ==> answer is Ok,
            (forall|id: Seq<char>| id.len() == 36 ==> !#[trigger] old(self)@.knows(id))
                ==> answer is Ok,
            answer is Err ==> {
                &&& exists|taken: Seq<char>| taken.len() == 36 && #[trigger] old(self)@.knows(taken)
                &&& final(self)@ == old(self)@
                &&& answer->Err_0.status == 500
                &&& answer->Err_0.body.error@ == "Download identifier already in use"@
            },
            answer is Ok ==> {
                let record = final(self)@.downloads.last();
                &&& final(self)@.downloads.len() == old(self)@.downloads.len() + 1
                &&& final(self)@ == old(self)@.registered(record)
                &&& !old(self)@.knows(record.id)
                &&& record == DownloadView::pending(record.id, request.url@, record.target_path)
                &&& record.id.len() == 36
                &&& exists|home: Option<Seq<char>>|
                    record.target_path == joined_path_of(
                        #[trigger] model_dir_of(home),
                        target_name_of(record.id, request.target_name),
                    )
                &&& answer->Ok_0.id@ == record.id
                &&& answer->Ok_0.started
            },
    {
        let id = fresh_id();
        let name = target_name(id.as_str(), &request.target_name);
        let dir = default_model_dir();
        let target_path = join_path(dir.as_str(), name.as_str());
        self.accept_download(id, request, target_path)
    }
}

} // verus!
