//! The embedded model: which model is loaded and when it is replaced, the
//! budgets of an inference session, and the bounds of a generation.

use crate::text::{
    is_longest_prefix_within, lemma_longest_prefix_exists, lemma_short_text_is_kept,
    longest_prefix, longest_prefix_within,
};
use vstd::prelude::*;
use vstd::string::*;
use vstd::utf8::encode_utf8;

verus! {

/// From this many layers on the acceleration layer counts as active.
pub const ACCELERATED_LAYERS: u32 = 33;

/// The context length of a session without acceleration.
pub const PLAIN_CONTEXT: u32 = 512;

/// The context length of an accelerated session for which none is configured.
pub const DEFAULT_CONTEXT: u32 = 4096;

/// The number of bytes of a prompt, in UTF-8, that a session without acceleration
/// reads.
pub const PLAIN_PROMPT_BYTES: usize = 400;

/// The most tokens that a session without acceleration generates.
pub const PLAIN_MAX_TOKENS: u32 = 50;

/// The most tokens that an accelerated session generates.
pub const ACCELERATED_MAX_TOKENS: u32 = 150;

/// The time that generation may take, in nanoseconds: five seconds.
pub const DEADLINE_NANOS: u128 = 5_000_000_000;

/// How to load a model.
#[derive(Clone, Debug, PartialEq, Eq)]
pub struct EmbeddedModelConfig {
    pub model_path: String,
    pub context_length: Option<u32>,
    pub gpu_layers: Option<u32>,
    pub seed: Option<u64>,
}

/// What to infer from.
#[derive(Clone, Debug, PartialEq, Eq)]
pub struct EmbeddedInferenceArgs {
    pub prompt: String,
    pub max_tokens: Option<u32>,
}

/// What an inference gave.
#[derive(Clone, Debug, PartialEq, Eq)]
pub struct EmbeddedInferenceResult {
    pub content: String,
    pub prompt_tokens: usize,
    pub completion_tokens: usize,
}

/// The settings of one inference session. Every inference gets a session of its
/// own, so that nothing of an earlier prompt reaches a later one.
#[derive(Clone, Debug, PartialEq, Eq)]
pub struct SessionPlan {
    pub context_length: u32,
    pub prompt: String,
    pub max_tokens: u32,
    pub deadline_nanos: u128,
}

/// What to do to have a model loaded.
#[derive(Clone, Copy, Debug, PartialEq, Eq, Structural)]
pub enum LoadPlan {
    /// The model asked for is the one that is loaded: do nothing.
    Keep,
    /// Nothing is loaded: construct an engine.
    Construct,
    /// Another model is loaded: its engine is to be dropped, and then a new one
    /// constructed.
    Replace,
}

/// Why a model could not be loaded.
#[derive(Clone, Debug, PartialEq, Eq)]
pub enum LoadError {
    /// The model file does not exist.
    NotFound,
    /// The engine could not be constructed from the file.
    Engine(String),
}

/// The one model that is loaded, if any.
#[derive(Clone, Debug, PartialEq, Eq)]
pub struct ModelRegistry {
    pub loaded: Option<EmbeddedModelConfig>,
}

impl EmbeddedModelConfig {
    /// Whether the acceleration layer is active under this configuration.
    pub open spec fn accelerated(self) -> bool {
        match self.gpu_layers {
            Some(layers) => layers >= ACCELERATED_LAYERS,
            None => false,
        }
    }

    /// The context length of a session: the configured one, or the default, with
    /// acceleration, and a small fixed one without.
    pub open spec fn context_budget(self) -> u32 {
        if self.accelerated() {
            match self.context_length {
                Some(length) => length,
                None => DEFAULT_CONTEXT,
            }
        } else {
            PLAIN_CONTEXT
        }
    }

    /// What a session reads of a prompt: all of it with acceleration; without, the
    /// longest prefix that UTF-8 writes in no more bytes than a fixed number, which
    /// is all of a prompt that is no longer than that.
    pub open spec fn prompt_budget(self, prompt: Seq<char>) -> Seq<char> {
        if self.accelerated() {
            prompt
        } else {
            longest_prefix_within(prompt, PLAIN_PROMPT_BYTES as int)
        }
    }

    /// The number of tokens that a session may generate: what is asked for, up to a
    /// ceiling that depends on acceleration, and the ceiling where nothing is asked.
    pub open spec fn token_budget(self, requested: Option<u32>) -> u32 {
        let ceiling = if self.accelerated() {
            ACCELERATED_MAX_TOKENS
        } else {
            PLAIN_MAX_TOKENS
        };
        match requested {
            Some(tokens) => if tokens <= ceiling {
                tokens
            } else {
                ceiling
            },
            None => ceiling,
        }
    }

    /// The number of layers to hand to the acceleration layer: none where none
    /// is configured.
    pub fn engine_layers(&self) -> (layers: u32)
        ensures
            layers == match self.gpu_layers {
                Some(n) => n,
                None => 0,
            },
    {
        match self.gpu_layers {
            Some(n) => n,
            None => 0,
        }
    }

    /// Whether the acceleration layer is active under this configuration.
    pub fn is_accelerated(&self) -> (r: bool)
        ensures
            r == self.accelerated(),
    {
        match self.gpu_layers {
            Some(layers) => layers >= ACCELERATED_LAYERS,
            None => false,
        }
    }

    /// A copy of the configuration.
    pub fn duplicate(&self) -> (copy: EmbeddedModelConfig)
        ensures
            copy == *self,
    {
        EmbeddedModelConfig {
            model_path: self.model_path.clone(),
            context_length: self.context_length,
            gpu_layers: self.gpu_layers,
            seed: self.seed,
        }
    }

    /// Plans the session for one inference under this configuration.
    pub fn plan_session(&self, args: &EmbeddedInferenceArgs) -> (plan: SessionPlan)
        ensures
            plan.context_length == self.context_budget(),
            plan.prompt@ == self.prompt_budget(args.prompt@),
            !self.accelerated() ==> is_longest_prefix_within(
                plan.prompt@,
                args.prompt@,
                PLAIN_PROMPT_BYTES as int,
            ),
            plan.max_tokens == self.token_budget(args.max_tokens),
            plan.deadline_nanos == DEADLINE_NANOS,
    {
        proof {
            lemma_longest_prefix_exists(args.prompt@, PLAIN_PROMPT_BYTES as int);
        }
        let accelerated = self.is_accelerated();
        let context_length = if accelerated {
            match self.context_length {
                Some(length) => length,
                None => DEFAULT_CONTEXT,
            }
        } else {
            PLAIN_CONTEXT
        };
        let prompt = if accelerated {
            args.prompt.clone()
        } else {
            longest_prefix(args.prompt.as_str(), PLAIN_PROMPT_BYTES)
        };
        let ceiling = if accelerated {
            ACCELERATED_MAX_TOKENS
        } else {
            PLAIN_MAX_TOKENS
        };
        let max_tokens = match args.max_tokens {
            Some(tokens) => if tokens <= ceiling {
                tokens
            } else {
                ceiling
            },
            None => ceiling,
        };
        SessionPlan { context_length, prompt, max_tokens, deadline_nanos: DEADLINE_NANOS }
    }
}

/// The report of a model that could not be loaded from `path`.
pub open spec fn load_error_text(error: LoadError, path: Seq<char>) -> Seq<char> {
    match error {
        LoadError::NotFound => "Model file not found at "@ + path,
        LoadError::Engine(message) => message@,
    }
}

impl LoadError {
    /// Describes the failure to load the model at `path`.
    pub fn message(&self, path: &str) -> (text: String)
        ensures
            text@ == load_error_text(*self, path@),
    {
        match self {
            LoadError::NotFound => {
                let mut text = String::from_str("Model file not found at ");
                text.append(path);
                text
            },
            LoadError::Engine(message) => message.clone(),
        }
    }
}

impl ModelRegistry {
    /// What it takes to have the model at `path` loaded.
    pub open spec fn plan_for(self, path: Seq<char>) -> LoadPlan {
        match self.loaded {
            None => LoadPlan::Construct,
            Some(current) => if current.model_path@ == path {
                LoadPlan::Keep
            } else {
                LoadPlan::Replace
            },
        }
    }

    /// The registry once the plan for `path` has been made: a model that is to be
    /// replaced is given up at once, before its successor is constructed.
    pub open spec fn prepared_for(self, path: Seq<char>) -> ModelRegistry {
        if self.plan_for(path) == LoadPlan::Replace {
            ModelRegistry { loaded: None }
        } else {
            self
        }
    }

    /// The registry once an engine was, or was not, constructed for `config`.
    pub open spec fn concluded(self, config: EmbeddedModelConfig, constructed: bool)
        -> ModelRegistry {
        if constructed {
            ModelRegistry { loaded: Some(config) }
        } else {
            self
        }
    }

    /// A registry with nothing loaded.
    pub fn new() -> (registry: ModelRegistry)
        ensures
            registry.loaded is None,
    {
        ModelRegistry { loaded: None }
    }

    /// The path of the model that is loaded, if one is.
    pub fn loaded_path(&self) -> (path: Option<String>)
        ensures
            path is Some == self.loaded is Some,
            path is Some ==> path->0 == self.loaded->0.model_path,
    {
        match &self.loaded {
            Some(current) => Some(current.model_path.clone()),
            None => None,
        }
    }

    /// Decides what it takes to have the model of `config` loaded, and gives up the
    /// model that is to be replaced. After `Construct` and `Replace` the caller
    /// constructs the engine and reports with `conclude_load`.
    pub fn ensure_model(&mut self, config: &EmbeddedModelConfig) -> (plan: LoadPlan)
        ensures
            plan == old(self).plan_for(config.model_path@),
            *final(self) == old(self).prepared_for(config.model_path@),
    {
        let plan = match &self.loaded {
            None => LoadPlan::Construct,
            Some(current) => if current.model_path == config.model_path {
                LoadPlan::Keep
            } else {
                LoadPlan::Replace
            },
        };
        if plan == LoadPlan::Replace {
            self.loaded = None;
        }
        plan
    }

    /// Takes note of how the construction of an engine for `config` ended. A
    /// failure leaves nothing loaded and is handed back as it came.
    pub fn conclude_load(&mut self, config: EmbeddedModelConfig, outcome: Result<(), LoadError>)
        -> (result: Result<(), LoadError>)
        ensures
            result == outcome,
            *final(self) == old(self).concluded(config, outcome is Ok),
    {
        if outcome.is_ok() {
            self.loaded = Some(config);
        }
        outcome
    }

    /// Plans the session of one inference with the model that is loaded; without
    /// one there is nothing to infer with.
    pub fn infer(&self, args: &EmbeddedInferenceArgs) -> (plan: Result<SessionPlan, String>)
        ensures
            plan is Ok == self.loaded is Some,
            plan is Ok ==> {
                &&& plan->Ok_0.context_length == self.loaded->0.context_budget()
                &&& plan->Ok_0.prompt@ == self.loaded->0.prompt_budget(args.prompt@)
                &&& plan->Ok_0.max_tokens == self.loaded->0.token_budget(args.max_tokens)
                &&& plan->Ok_0.deadline_nanos == DEADLINE_NANOS
            },
            plan is Err ==> plan->Err_0@ == "Embedded model not initialized"@,
    {
        match &self.loaded {
            Some(config) => Ok(config.plan_session(args)),
            None => Err(String::from_str("Embedded model not initialized")),
        }
    }
}

/// Without acceleration the engine is given a prefix of the prompt of at most
/// `PLAIN_PROMPT_BYTES` bytes, cut between two characters, and the longest such
/// prefix: the whole prompt where it fits, and otherwise a prefix that the next
/// character would take beyond the limit.
pub proof fn lemma_plain_prompt_is_cut_by_bytes(config: EmbeddedModelConfig, prompt: Seq<char>)
    requires
        !config.accelerated(),
    ensures
        is_longest_prefix_within(
            config.prompt_budget(prompt),
            prompt,
            PLAIN_PROMPT_BYTES as int,
        ),
        encode_utf8(prompt).len() <= PLAIN_PROMPT_BYTES ==> config.prompt_budget(prompt) == prompt,
        encode_utf8(prompt).len() > PLAIN_PROMPT_BYTES ==> config.prompt_budget(prompt).len()
            < prompt.len(),
{
    let limit = PLAIN_PROMPT_BYTES as int;
    lemma_longest_prefix_exists(prompt, limit);
    if encode_utf8(prompt).len() <= limit {
        lemma_short_text_is_kept(prompt, limit);
    } else {
        let kept = config.prompt_budget(prompt);
        if kept.len() == prompt.len() {
            assert(kept =~= prompt);
        }
    }
}

/// Asking twice for the same model loads it once: after a model was loaded, a
/// request for the same path is answered with `Keep` and changes nothing.
pub proof fn lemma_same_path_is_kept(
    registry: ModelRegistry,
    first: EmbeddedModelConfig,
    second: EmbeddedModelConfig,
)
    requires
        first.model_path@ == second.model_path@,
    ensures
        ({
            let loaded = registry.prepared_for(first.model_path@).concluded(first, true);
            &&& loaded.plan_for(second.model_path@) == LoadPlan::Keep
            &&& loaded.prepared_for(second.model_path@) == loaded
        }),
{
}

/// Asking for another model gives up the loaded one before the new engine is
/// constructed: the plan is `Replace`, and nothing is loaded until the
/// construction is reported.
pub proof fn lemma_other_path_is_replaced(registry: ModelRegistry, other: EmbeddedModelConfig)
    requires
        registry.loaded is Some,
        registry.loaded->0.model_path@ != other.model_path@,
    ensures
        registry.plan_for(other.model_path@) == LoadPlan::Replace,
        registry.prepared_for(other.model_path@).loaded is None,
        registry.prepared_for(other.model_path@).concluded(other, true).loaded == Some(other),
        registry.prepared_for(other.model_path@).concluded(other, false).loaded is None,
{
}


/// The generation of one answer: what has been generated so far, and whether more
/// may follow.
#[derive(Debug)]
pub struct Generation {
    content: String,
    decoded_tokens: u32,
    max_tokens: u32,
    stopped: bool,
}

/// A generation as the contracts see it.
pub struct GenerationView {
    pub content: Seq<char>,
    pub decoded_tokens: nat,
    pub max_tokens: nat,
    pub stopped: bool,
}

impl GenerationView {
    /// A generation that has not produced anything yet. With a budget of no
    /// tokens it has stopped before it began.
    pub open spec fn begun(max_tokens: u32) -> GenerationView {
        GenerationView {
            content: Seq::empty(),
            decoded_tokens: 0,
            max_tokens: max_tokens as nat,
            stopped: max_tokens == 0,
        }
    }

    /// The generation after the engine has produced a token that reads `piece`, at
    /// `elapsed_nanos` after the generation began. A token that comes after the
    /// deadline is dropped and stops the generation. Any other token is added to
    /// the answer, and stops the generation where it uses up the token budget.
    /// A generation that has stopped takes no more tokens.
    pub open spec fn after_token(self, piece: Seq<char>, elapsed_nanos: u128) -> GenerationView {
        if self.stopped {
            self
        } else if elapsed_nanos > DEADLINE_NANOS {
            GenerationView { stopped: true, ..self }
        } else {
            GenerationView {
                content: self.content + piece,
                decoded_tokens: self.decoded_tokens + 1,
                stopped: self.decoded_tokens + 1 >= self.max_tokens,
                ..self
            }
        }
    }

    /// The generation after the engine has run out of tokens.
    pub open spec fn after_end(self) -> GenerationView {
        GenerationView { stopped: true, ..self }
    }

    /// No more tokens were taken than the budget allows, and a generation that
    /// goes on has room for one more.
    pub open spec fn within_budget(self) -> bool {
        &&& self.decoded_tokens <= self.max_tokens
        &&& !self.stopped ==> self.decoded_tokens < self.max_tokens
    }
}

impl View for Generation {
    type V = GenerationView;

    closed spec fn view(&self) -> GenerationView {
        GenerationView {
            content: self.content@,
            decoded_tokens: self.decoded_tokens as nat,
            max_tokens: self.max_tokens as nat,
            stopped: self.stopped,
        }
    }
}

impl Generation {
    #[verifier::type_invariant]
    spec fn well_formed(self) -> bool {
        self@.within_budget()
    }

    /// Begins a generation of at most `max_tokens` tokens.
    pub fn begin(max_tokens: u32) -> (generation: Generation)
        ensures
            generation@ == GenerationView::begun(max_tokens),
    {
        Generation {
            content: String::new(),
            decoded_tokens: 0,
            max_tokens,
            stopped: max_tokens == 0,
        }
    }

    /// Whether the generation has stopped.
    pub fn is_stopped(&self) -> (stopped: bool)
        ensures
            stopped == self@.stopped,
    {
        self.stopped
    }

    /// Takes a token that reads `piece` and that the engine produced at
    /// `elapsed_nanos` after the generation began. Tells whether to go on.
    pub fn accept(&mut self, piece: &str, elapsed_nanos: u128) -> (go_on: bool)
        ensures
            final(self)@ == old(self)@.after_token(piece@, elapsed_nanos),
            go_on == !final(self)@.stopped,
            final(self)@.within_budget(),
    {
        proof {
            use_type_invariant(&*self);
        }
        if self.stopped {
            return false;
        }
        if elapsed_nanos > DEADLINE_NANOS {
            self.stopped = true;
            return false;
        }
        let content = self.content.clone().concat(piece);
        let decoded_tokens: u32 = self.decoded_tokens + 1;
        let stopped = decoded_tokens >= self.max_tokens;
        *self = Generation { content, decoded_tokens, max_tokens: self.max_tokens, stopped };
        !stopped
    }

    /// Takes note that the engine has no more tokens.
    pub fn end(&mut self)
        ensures
            final(self)@ == old(self)@.after_end(),
    {
        proof {
            use_type_invariant(&*self);
        }
        self.stopped = true;
    }

    /// The result of the inference: what was generated, and the token counts. A
    /// generation that the deadline or the budget cut short is a result like any
    /// other; only the counts tell.
    pub fn finish(self, prompt_tokens: usize) -> (result: EmbeddedInferenceResult)
        ensures
            result.content@ == self@.content,
            result.prompt_tokens == prompt_tokens,
            result.completion_tokens == self@.decoded_tokens,
    {
        EmbeddedInferenceResult {
            content: self.content,
            prompt_tokens,
            completion_tokens: self.decoded_tokens as usize,
        }
    }
}

/// A generation never outruns its budget: whatever step comes next, it holds no
/// more tokens than `max_tokens`.
pub proof fn lemma_generation_within_budget(
    generation: GenerationView,
    piece: Seq<char>,
    elapsed_nanos: u128,
)
    requires
        generation.within_budget(),
    ensures
        generation.after_token(piece, elapsed_nanos).within_budget(),
        generation.after_end().within_budget(),
        GenerationView::begun(generation.max_tokens as u32).within_budget(),
{
}

/// The deadline cuts a generation short without losing what was generated: a
/// token that comes too late stops the generation and leaves the answer and the
/// count as they were.
pub proof fn lemma_deadline_keeps_content(
    generation: GenerationView,
    piece: Seq<char>,
    elapsed_nanos: u128,
)
    requires
        elapsed_nanos > DEADLINE_NANOS,
    ensures
        generation.after_token(piece, elapsed_nanos).stopped,
        generation.after_token(piece, elapsed_nanos).content == generation.content,
        generation.after_token(piece, elapsed_nanos).decoded_tokens == generation.decoded_tokens,
{
}


/// One step of a generation, as the engine gives it: a token that reads `piece`
/// and came at `elapsed_nanos`, or the end of the tokens.
pub enum EngineStep {
    Token { piece: Seq<char>, elapsed_nanos: u128 },
    End,
}

impl GenerationView {
    /// The generation after each of `steps` in turn.
    pub open spec fn after_steps(self, steps: Seq<EngineStep>) -> GenerationView
        decreases steps.len(),
    {
        if steps.len() == 0 {
            self
        } else {
            let next = match steps[0] {
                EngineStep::Token { piece, elapsed_nanos } => self.after_token(piece, elapsed_nanos),
                EngineStep::End => self.after_end(),
            };
            next.after_steps(steps.drop_first())
        }
    }
}

/// Whatever the engine produces and whenever, a generation keeps to its budget: it
/// never holds more tokens than `max_tokens`, and none at all with a budget of no
/// tokens.
pub proof fn lemma_generation_is_bounded(max_tokens: u32, steps: Seq<EngineStep>)
    ensures
        GenerationView::begun(max_tokens).after_steps(steps).decoded_tokens <= max_tokens,
        GenerationView::begun(max_tokens).after_steps(steps).decoded_tokens <= steps.len(),
        max_tokens == 0 ==> GenerationView::begun(max_tokens).after_steps(steps)
            == GenerationView::begun(max_tokens),
{
    lemma_steps_keep_budget(GenerationView::begun(max_tokens), steps);
}

proof fn lemma_steps_keep_budget(generation: GenerationView, steps: Seq<EngineStep>)
    requires
        generation.within_budget(),
    ensures
        generation.after_steps(steps).within_budget(),
        generation.after_steps(steps).decoded_tokens <= generation.decoded_tokens + steps.len(),
        generation.after_steps(steps).max_tokens == generation.max_tokens,
        generation.stopped ==> generation.after_steps(steps) == generation,
    decreases steps.len(),
{
    if steps.len() > 0 {
        let next = match steps[0] {
            EngineStep::Token { piece, elapsed_nanos } => generation.after_token(
                piece,
                elapsed_nanos,
            ),
            EngineStep::End => generation.after_end(),
        };
        lemma_steps_keep_budget(next, steps.drop_first());
    }
}

} // verus!
