use minion::interaction_loop::history::{Action, History, MAX_ACTIONS_TO_KEEP};
use minion::interaction_loop::resources::Resources;
use minion::llm::{Content, ContentItem, Prompt, PromptItem};
use minion::text::decimal_string;

fn system(text: &str) -> PromptItem {
    PromptItem::System { text: text.to_string() }
}

fn assistant(text: &str) -> PromptItem {
    PromptItem::Assistant { text: text.to_string() }
}

fn history_with(n: usize) -> History {
    let mut history = History::new(vec![system("intro"), system("menu")]);
    for i in 0..n {
        let messages = (0..=i % 3).map(|k| assistant(&format!("a{} m{}", i, k))).collect();
        history.append(messages, format!("did {}", i));
    }
    history
}

#[test]
fn a_new_history_holds_the_prefix_and_nothing_else() {
    let history = History::new(vec![system("intro")]);
    assert_eq!(history.len(), 0);
    assert!(history.actions().is_empty());
    assert_eq!(history.prefix(), &vec![system("intro")]);
    assert_eq!(history.compressed_prompt(), Prompt { items: vec![system("intro")] });
}

#[test]
fn appended_actions_are_numbered_by_position() {
    let history = history_with(12);
    assert_eq!(history.len(), 12);
    for (i, action) in history.actions().iter().enumerate() {
        assert_eq!(action.number, i);
        assert_eq!(action.summary, format!("did {}", i));
        assert_eq!(action.messages.len(), i % 3 + 1);
    }
}

#[test]
fn append_keeps_what_was_there() {
    let mut history = history_with(3);
    let before: Vec<(usize, String)> =
        history.actions().iter().map(|a| (a.number, a.summary.clone())).collect();
    history.append(vec![system("x")], "more".to_string());
    let after: Vec<(usize, String)> =
        history.actions().iter().map(|a| (a.number, a.summary.clone())).collect();
    assert_eq!(&after[..3], &before[..]);
    assert_eq!(
        history.actions()[3],
        Action { number: 3, messages: vec![system("x")], summary: "more".to_string() }
    );
}

#[test]
fn up_to_five_actions_are_kept_in_full() {
    assert_eq!(MAX_ACTIONS_TO_KEEP, 5);
    for n in 0..=5 {
        let history = history_with(n);
        let prompt = history.compressed_prompt();
        let mut expected = vec![system("intro"), system("menu")];
        for action in history.actions() {
            expected.extend(action.messages.iter().cloned());
        }
        assert_eq!(prompt.items, expected);
    }
}

#[test]
fn older_actions_are_replaced_by_their_summaries() {
    let history = history_with(8);
    let prompt = history.compressed_prompt();
    let mut expected = vec![
        system("intro"),
        system("menu"),
        system("Summary for action 0: did 0"),
        system("Summary for action 1: did 1"),
        system("Summary for action 2: did 2"),
    ];
    for action in &history.actions()[3..] {
        expected.extend(action.messages.iter().cloned());
    }
    assert_eq!(prompt.items, expected);
    // prefix + max(0, n - 5) summaries + the blocks of the last min(n, 5) actions
    assert_eq!(prompt.items.len(), 2 + 3 + (1 + 2 + 3 + 1 + 2));
}

#[test]
fn summaries_carry_numbers_of_any_size() {
    let mut history = History::new(Vec::new());
    for i in 0..106 {
        history.append(Vec::new(), format!("s{}", i));
    }
    let prompt = history.compressed_prompt();
    assert_eq!(prompt.items.len(), 101);
    assert_eq!(prompt.items[0], system("Summary for action 0: s0"));
    assert_eq!(prompt.items[10], system("Summary for action 10: s10"));
    assert_eq!(prompt.items[100], system("Summary for action 100: s100"));
}

#[test]
fn decimal_notation_has_no_leading_zeros() {
    assert_eq!(decimal_string(0), "0");
    assert_eq!(decimal_string(7), "7");
    assert_eq!(decimal_string(10), "10");
    assert_eq!(decimal_string(1234567890), "1234567890");
    assert_eq!(decimal_string(usize::MAX), usize::MAX.to_string());
}

#[test]
fn the_compressed_prompt_is_a_copy() {
    let history = history_with(2);
    let mut prompt = history.compressed_prompt();
    prompt.items.push(system("scratch"));
    assert_eq!(history.compressed_prompt().items.len(), prompt.items.len() - 1);
}

#[test]
fn the_ledger_never_loses_a_file() {
    let mut resources = Resources::default();
    assert_eq!(resources.len(), 0);
    assert!(!resources.contains("a"));
    resources.add_file("a");
    resources.add_file("b");
    resources.add_file("a");
    assert!(resources.contains("a"));
    assert!(resources.contains("b"));
    assert!(!resources.contains("c"));
    assert_eq!(resources.len(), 2);
    resources.add_file("");
    assert!(resources.contains(""));
    assert!(resources.contains("a"));
    assert_eq!(resources.len(), 3);
}

#[test]
fn prompts_and_contents_are_made_from_their_items() {
    let prompt = Prompt::from(vec![system("a"), assistant("b")]);
    assert_eq!(prompt.items, vec![system("a"), assistant("b")]);
    let content = Content::from(vec![ContentItem::Text { text: "x".to_string() }]);
    assert_eq!(content.items.len(), 1);
    let content = Content::from("hello".to_string());
    assert_eq!(content.items, vec![ContentItem::Text { text: "hello".to_string() }]);
    let copy = prompt.clone();
    assert_eq!(copy, prompt);
    let item = PromptItem::User { content };
    assert_eq!(item.clone(), item);
}
