use hat::hat_macros::entry_macro::{
    attribute_arguments, attribute_model, entry_analyze, entry_codegen, entry_parse, AttributeModel, EntryError,
};
use proc_macro2::TokenStream;

fn tokens(text: &str) -> TokenStream {
    text.parse::<TokenStream>().unwrap()
}

fn attr(segments: &[&str], arguments: &[&str], tag: u32) -> AttributeModel<u32> {
    AttributeModel {
        segments: segments.iter().map(|s| s.to_string()).collect(),
        arguments: arguments.iter().map(|s| s.to_string()).collect(),
        attr: tag,
    }
}

#[test]
fn analyze_collects_attributes_from_the_last() {
    let attrs = vec![
        attr(&["hat_macros", "main"], &[], 1),
        attr(&["hat_macros", "tasks"], &["ping", "pong"], 2),
        attr(&["inline"], &[], 3),
        attr(&["hat_macros", "triggers"], &["go"], 4),
        attr(&["hat_macros", "tasks"], &["extra"], 5),
        attr(&["hat_macros", "channels"], &["chan_a", "chan_b"], 6),
    ];
    let model = entry_analyze("item", attrs);
    assert_eq!(model.tasks, vec!["extra", "ping", "pong"]);
    assert_eq!(model.triggers, vec!["go"]);
    assert_eq!(model.channels, vec!["chan_a", "chan_b"]);
    assert!(model.mutexes.is_empty() && model.semaphores.is_empty());
    assert_eq!(model.attrs, vec![1, 3]);
    assert_eq!(model.item, "item");
}

#[test]
fn codegen_names_and_numbers_the_tasks() {
    let model = entry_analyze((), vec![attr(&["hat_macros", "tasks"], &["ping_task", "blink"], 0)]);
    let plan = entry_codegen(&"pong_task".to_string(), &model);
    assert_eq!(plan.inner_name, "pong_task_inner");
    assert_eq!(plan.tasks.len(), 2);
    assert_eq!(plan.tasks[0].static_name, "PING_TASK");
    assert_eq!(plan.tasks[0].task, "ping_task");
    assert_eq!(plan.tasks[0].index, 1);
    assert_eq!(plan.tasks[1].static_name, "BLINK");
    assert_eq!(plan.tasks[1].index, 2);
    assert_eq!(plan.tasks_amount, 3);
}

#[test]
fn entry_parse_takes_a_function_without_arguments() {
    let f = entry_parse(&TokenStream::new(), tokens("async fn main() {}")).ok().unwrap();
    assert_eq!(f.sig.ident.to_string(), "main");
    assert!(matches!(entry_parse(&tokens("heap = 1024"), tokens("fn main() {}")), Err(EntryError::ArgumentGiven)));
    assert!(matches!(entry_parse(&TokenStream::new(), tokens("struct S;")), Err(EntryError::NotAFunction)));
    assert!(matches!(entry_parse(&TokenStream::new(), tokens("+ +")), Err(EntryError::NotAFunction)));
}

#[test]
fn attribute_arguments_keep_the_identifiers() {
    let tuple = Some(vec![Some("ping".to_string()), None, Some("pong".to_string())]);
    assert_eq!(attribute_arguments(tuple, None), vec!["ping", "pong"]);
    assert_eq!(attribute_arguments(None, Some(Some("only".to_string()))), vec!["only"]);
    assert!(attribute_arguments(None, Some(None)).is_empty());
    assert!(attribute_arguments(None, None).is_empty());
}

#[test]
fn attribute_model_reads_a_tasks_attribute() {
    let src = "#[hat::tasks(ping, pong)] #[hat::channels(chan)] #[inline] fn main() {}";
    let f = entry_parse(&TokenStream::new(), tokens(src)).ok().unwrap();
    let models: Vec<_> = f.attrs.into_iter().map(attribute_model).collect();
    assert_eq!(models[0].segments, vec!["hat", "tasks"]);
    assert_eq!(models[0].arguments, vec!["ping", "pong"]);
    assert_eq!(models[1].segments, vec!["hat", "channels"]);
    assert_eq!(models[1].arguments, vec!["chan"]);
    assert_eq!(models[2].segments, vec!["inline"]);
    assert!(models[2].arguments.is_empty());
    let model = entry_analyze((), models);
    assert_eq!(model.tasks, vec!["ping", "pong"]);
    assert_eq!(model.channels, vec!["chan"]);
    assert_eq!(model.attrs.len(), 1);
}
