use std::sync::Arc;
use std::sync::atomic::AtomicUsize;
use std::sync::atomic::Ordering;

use douglas::Action;
use douglas::Command;

#[test]
fn send_is_a_single_literal_action() {
    let command = Command::send(41u32);
    let actions = command.actions();
    assert_eq!(actions.len(), 1);
    let messages: Vec<u32> = actions.into_iter().map(|a| a.run()).collect();
    assert_eq!(messages, vec![41]);
}

#[test]
fn exit_is_terminate_with_no_actions() {
    let command: Command<u32> = Command::exit();
    assert!(matches!(command, Command::Terminate));
    let command: Command<u32> = Command::exit();
    assert_eq!(command.actions().len(), 0);
}

#[test]
fn none_has_no_actions() {
    let command: Command<u32> = Command::none();
    assert!(matches!(command, Command::Empty));
    let command: Command<u32> = Command::none();
    assert_eq!(command.actions().len(), 0);
}

#[test]
fn sync_defers_the_computation_until_run() {
    let calls = Arc::new(AtomicUsize::new(0));
    let seen = Arc::clone(&calls);
    let command = Command::sync(move || {
        seen.fetch_add(1, Ordering::SeqCst);
        7u32
    });
    assert_eq!(calls.load(Ordering::SeqCst), 0);
    let actions = command.actions();
    assert_eq!(actions.len(), 1);
    assert_eq!(calls.load(Ordering::SeqCst), 0);
    let messages: Vec<u32> = actions.into_iter().map(|a| a.run()).collect();
    assert_eq!(messages, vec![7]);
    assert_eq!(calls.load(Ordering::SeqCst), 1);
}

#[test]
fn action_run_returns_the_literal_message() {
    let action = Action::Produce(13u8);
    assert_eq!(action.run(), 13);
}

#[test]
fn batch_concatenates_actions_in_order() {
    let command = Command::batch(vec![
        Command::none(),
        Command::send(1u32),
        Command::sync(|| 2u32),
        Command::exit(),
        Command::send(3u32),
    ]);
    assert!(matches!(command, Command::Batch(_)));
    let messages: Vec<u32> = command.actions().into_iter().map(|a| a.run()).collect();
    assert_eq!(messages, vec![1, 2, 3]);
}

#[test]
fn batch_of_batches_keeps_relative_order() {
    let inner = Command::batch(vec![Command::send(2u32), Command::send(3u32)]);
    let command = Command::batch(vec![
        Command::send(1u32),
        inner,
        Command::exit(),
        Command::send(4u32),
    ]);
    let messages: Vec<u32> = command.actions().into_iter().map(|a| a.run()).collect();
    assert_eq!(messages, vec![1, 2, 3, 4]);
}

#[test]
fn batch_of_only_inert_commands_is_empty() {
    let command: Command<u32> = Command::batch(vec![
        Command::none(),
        Command::exit(),
        Command::none(),
    ]);
    assert_eq!(command.actions().len(), 0);
}

#[test]
fn batch_never_terminates_the_loop() {
    let command: Command<u32> = Command::batch(vec![Command::exit()]);
    assert!(!matches!(command, Command::Terminate));
}
