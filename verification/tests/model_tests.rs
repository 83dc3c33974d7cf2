use llm_backend::model::{
    EmbeddedInferenceArgs, EmbeddedModelConfig, Generation, LoadError, LoadPlan, ModelRegistry,
    ACCELERATED_LAYERS, DEADLINE_NANOS, PLAIN_PROMPT_BYTES,
};

fn config(path: &str, gpu_layers: Option<u32>, context_length: Option<u32>) -> EmbeddedModelConfig {
    EmbeddedModelConfig { model_path: path.to_string(), context_length, gpu_layers, seed: None }
}

fn args(prompt: &str, max_tokens: Option<u32>) -> EmbeddedInferenceArgs {
    EmbeddedInferenceArgs { prompt: prompt.to_string(), max_tokens }
}

#[test]
fn acceleration_begins_at_a_fixed_number_of_layers() {
    assert_eq!(ACCELERATED_LAYERS, 33);
    assert!(!config("m", None, None).is_accelerated());
    assert!(!config("m", Some(0), None).is_accelerated());
    assert!(!config("m", Some(32), None).is_accelerated());
    assert!(config("m", Some(33), None).is_accelerated());
    assert!(config("m", Some(u32::MAX), None).is_accelerated());
}

#[test]
fn a_plain_session_has_a_small_fixed_budget() {
    let plan = config("m", Some(32), Some(8192)).plan_session(&args("hello", None));
    assert_eq!(plan.context_length, 512);
    assert_eq!(plan.prompt, "hello");
    assert_eq!(plan.max_tokens, 50);
    assert_eq!(plan.deadline_nanos, 5_000_000_000);
    assert_eq!(DEADLINE_NANOS, 5_000_000_000);
    assert_eq!(PLAIN_PROMPT_BYTES, 400);
}

#[test]
fn an_accelerated_session_has_the_configured_budget() {
    let plan = config("m", Some(33), Some(8192)).plan_session(&args("hello", None));
    assert_eq!(plan.context_length, 8192);
    assert_eq!(plan.max_tokens, 150);
    let plan = config("m", Some(40), None).plan_session(&args("hello", Some(20)));
    assert_eq!(plan.context_length, 4096);
    assert_eq!(plan.max_tokens, 20);
}

#[test]
fn the_token_budget_is_capped() {
    let plain = config("m", None, None);
    assert_eq!(plain.plan_session(&args("p", Some(10))).max_tokens, 10);
    assert_eq!(plain.plan_session(&args("p", Some(50))).max_tokens, 50);
    assert_eq!(plain.plan_session(&args("p", Some(51))).max_tokens, 50);
    assert_eq!(plain.plan_session(&args("p", Some(0))).max_tokens, 0);
    let fast = config("m", Some(99), None);
    assert_eq!(fast.plan_session(&args("p", Some(150))).max_tokens, 150);
    assert_eq!(fast.plan_session(&args("p", Some(151))).max_tokens, 150);
    assert_eq!(fast.plan_session(&args("p", Some(u32::MAX))).max_tokens, 150);
}

#[test]
fn a_plain_session_reads_the_first_bytes_of_a_long_prompt() {
    let long: String = "abcdefghij".repeat(50);
    let plain = config("m", None, None);
    let plan = plain.plan_session(&args(&long, None));
    assert_eq!(plan.prompt.len(), 400);
    assert_eq!(plan.prompt, long[..400]);

    let exact: String = "x".repeat(400);
    assert_eq!(plain.plan_session(&args(&exact, None)).prompt, exact);
    let one_more: String = "x".repeat(401);
    assert_eq!(plain.plan_session(&args(&one_more, None)).prompt, exact);
    let short = "short prompt";
    assert_eq!(plain.plan_session(&args(short, None)).prompt, short);
    assert_eq!(plain.plan_session(&args("", None)).prompt, "");
}

#[test]
fn a_plain_session_counts_the_prompt_in_bytes_and_cuts_between_characters() {
    let plain = config("m", None, None);

    let accented: String = "é".repeat(400);
    assert_eq!(accented.len(), 800);
    let plan = plain.plan_session(&args(&accented, None));
    assert_eq!(plan.prompt, "é".repeat(200));
    assert_eq!(plan.prompt.len(), 400);

    let fits: String = "é".repeat(200);
    assert_eq!(plain.plan_session(&args(&fits, None)).prompt, fits);

    let odd = format!("x{}", "é".repeat(200));
    assert_eq!(odd.len(), 401);
    let plan = plain.plan_session(&args(&odd, None));
    assert_eq!(plan.prompt, format!("x{}", "é".repeat(199)));
    assert_eq!(plan.prompt.len(), 399);

    let wide: String = "\u{1F600}".repeat(101);
    assert_eq!(wide.len(), 404);
    let plan = plain.plan_session(&args(&wide, None));
    assert_eq!(plan.prompt, "\u{1F600}".repeat(100));

    let three = format!("ab{}", "\u{20AC}".repeat(133));
    assert_eq!(three.len(), 401);
    let plan = plain.plan_session(&args(&three, None));
    assert_eq!(plan.prompt, format!("ab{}", "\u{20AC}".repeat(132)));
    assert_eq!(plan.prompt.len(), 398);
    assert!(three.starts_with(&plan.prompt));
}

#[test]
fn an_accelerated_session_reads_the_whole_prompt() {
    let long: String = "abcdefghij".repeat(50);
    let plan = config("m", Some(33), None).plan_session(&args(&long, None));
    assert_eq!(plan.prompt, long);
}

#[test]
fn the_first_request_constructs_an_engine() {
    let mut registry = ModelRegistry::new();
    assert_eq!(registry.loaded_path(), None);
    let first = config("/models/a.gguf", None, None);
    assert_eq!(registry.ensure_model(&first), LoadPlan::Construct);
    assert_eq!(registry.loaded, None);
    assert_eq!(registry.conclude_load(first.clone(), Ok(())), Ok(()));
    assert_eq!(registry.loaded, Some(first));
    assert_eq!(registry.loaded_path(), Some("/models/a.gguf".to_string()));
}

#[test]
fn a_second_request_for_the_same_path_reloads_nothing() {
    let mut registry = ModelRegistry::new();
    let first = config("/models/a.gguf", Some(10), Some(1024));
    registry.ensure_model(&first);
    registry.conclude_load(first.clone(), Ok(())).unwrap();
    let loaded = registry.clone();

    assert_eq!(registry.ensure_model(&first), LoadPlan::Keep);
    assert_eq!(registry, loaded);

    let same_path = config("/models/a.gguf", Some(99), None);
    assert_eq!(registry.ensure_model(&same_path), LoadPlan::Keep);
    assert_eq!(registry, loaded);
}

#[test]
fn a_request_for_another_path_drops_the_old_engine_first() {
    let mut registry = ModelRegistry::new();
    let first = config("/models/a.gguf", None, None);
    registry.ensure_model(&first);
    registry.conclude_load(first, Ok(())).unwrap();

    let second = config("/models/b.gguf", None, None);
    assert_eq!(registry.ensure_model(&second), LoadPlan::Replace);
    assert_eq!(registry.loaded, None);
    registry.conclude_load(second.clone(), Ok(())).unwrap();
    assert_eq!(registry.loaded, Some(second));
}

#[test]
fn a_model_that_cannot_be_loaded_leaves_nothing_loaded() {
    let mut registry = ModelRegistry::new();
    let missing = config("/models/missing.gguf", None, None);
    assert_eq!(registry.ensure_model(&missing), LoadPlan::Construct);
    let outcome = registry.conclude_load(missing.clone(), Err(LoadError::NotFound));
    assert_eq!(outcome, Err(LoadError::NotFound));
    assert_eq!(registry.loaded, None);
    assert_eq!(
        LoadError::NotFound.message("/models/missing.gguf"),
        "Model file not found at /models/missing.gguf"
    );
    let broken = LoadError::Engine("bad magic".to_string());
    assert_eq!(registry.conclude_load(missing, Err(broken.clone())), Err(broken.clone()));
    assert_eq!(broken.message("/models/missing.gguf"), "bad magic");
    assert_eq!(registry.loaded, None);
}

#[test]
fn inference_needs_a_model() {
    let mut registry = ModelRegistry::new();
    assert_eq!(
        registry.infer(&args("hello", None)),
        Err("Embedded model not initialized".to_string())
    );
    let loaded = config("/models/a.gguf", Some(33), Some(2048));
    registry.ensure_model(&loaded);
    registry.conclude_load(loaded, Ok(())).unwrap();
    let plan = registry.infer(&args("hello", Some(7))).unwrap();
    assert_eq!(plan.context_length, 2048);
    assert_eq!(plan.prompt, "hello");
    assert_eq!(plan.max_tokens, 7);
}

#[test]
fn generation_stops_at_the_token_budget() {
    let mut generation = Generation::begin(3);
    assert!(!generation.is_stopped());
    assert!(generation.accept("a", 10));
    assert!(generation.accept("b", 20));
    assert!(!generation.accept("c", 30));
    assert!(generation.is_stopped());
    assert!(!generation.accept("d", 40));
    let result = generation.finish(12);
    assert_eq!(result.content, "abc");
    assert_eq!(result.completion_tokens, 3);
    assert_eq!(result.prompt_tokens, 12);
}

#[test]
fn generation_stops_at_the_deadline_and_keeps_what_it_has() {
    let mut generation = Generation::begin(150);
    assert!(generation.accept("Hello", 1_000_000_000));
    assert!(generation.accept(", world", 5_000_000_000));
    assert!(!generation.accept(" (late)", 5_000_000_001));
    assert!(generation.is_stopped());
    let result = generation.finish(4);
    assert_eq!(result.content, "Hello, world");
    assert_eq!(result.completion_tokens, 2);
    assert_eq!(result.prompt_tokens, 4);
}

#[test]
fn generation_ends_when_the_engine_has_no_more_tokens() {
    let mut generation = Generation::begin(10);
    assert!(generation.accept("x", 0));
    generation.end();
    assert!(generation.is_stopped());
    assert!(!generation.accept("y", 0));
    let result = generation.finish(0);
    assert_eq!(result.content, "x");
    assert_eq!(result.completion_tokens, 1);
}

#[test]
fn a_budget_of_zero_generates_nothing() {
    let mut generation = Generation::begin(0);
    assert!(generation.is_stopped());
    assert!(!generation.accept("never", 0));
    let result = generation.finish(1);
    assert_eq!(result.content, "");
    assert_eq!(result.completion_tokens, 0);
    assert_eq!(result.prompt_tokens, 1);
}

#[test]
fn a_budget_of_one_takes_one_token() {
    let mut generation = Generation::begin(1);
    assert!(!generation.is_stopped());
    assert!(!generation.accept("one", 0));
    assert!(!generation.accept("two", 0));
    let result = generation.finish(0);
    assert_eq!(result.content, "one");
    assert_eq!(result.completion_tokens, 1);
}

#[test]
fn a_generation_without_tokens_is_empty() {
    let mut generation = Generation::begin(5);
    generation.end();
    let result = generation.finish(9);
    assert_eq!(result.content, "");
    assert_eq!(result.completion_tokens, 0);
    assert_eq!(result.prompt_tokens, 9);
}

#[test]
fn a_configuration_is_copied_whole() {
    let first = EmbeddedModelConfig {
        model_path: "/m".to_string(),
        context_length: Some(1),
        gpu_layers: Some(2),
        seed: Some(3),
    };
    assert_eq!(first.duplicate(), first);
}

#[test]
fn the_engine_gets_the_configured_layers() {
    assert_eq!(config("m", None, None).engine_layers(), 0);
    assert_eq!(config("m", Some(35), None).engine_layers(), 35);
}
