use morse_chat::app::App;
use morse_chat::chat::From;
use morse_chat::input::{Direction, Input};
use morse_chat::network::NetworkMessage;

fn press(app: &mut App, direction: Direction, duration_ms: u64) -> morse_chat::app::InputEffects {
    app.input_logic(Input { duration_ms, direction })
}

fn text(s: &str) -> Vec<char> {
    s.chars().collect()
}

/// Types one character whose pulses are given as press durations, then
/// commits it with a right press.
fn type_char(app: &mut App, pulses: &[u64]) {
    for &d in pulses {
        press(app, Direction::Down, d);
    }
    press(app, Direction::Right, 10);
}

#[test]
fn startup_message_is_ping() {
    assert_eq!(App::startup_message(), NetworkMessage::Ping);
}

#[test]
fn scenario_long_short_commits_n() {
    let mut app = App::init();
    press(&mut app, Direction::Down, 200);
    press(&mut app, Direction::Down, 80);
    let fx = press(&mut app, Direction::Right, 10);
    assert_eq!(app.text_buffer(), &text("N"));
    assert!(app.pending_sequence().is_empty());
    assert_eq!(fx.messages, vec![NetworkMessage::Typing(true)]);
    assert!(!fx.enter_recovery);
}

#[test]
fn scenario_commit_sends_text_then_typing_stopped() {
    let mut app = App::init();
    type_char(&mut app, &[80, 80, 80]); // S
    type_char(&mut app, &[300, 300, 300]); // O
    type_char(&mut app, &[80, 80, 80]); // S
    assert_eq!(app.text_buffer(), &text("SOS"));
    assert!(app.pending_sequence().is_empty());
    let fx = press(&mut app, Direction::Right, 10);
    assert_eq!(
        fx.messages,
        vec![
            NetworkMessage::Text(text("SOS")),
            NetworkMessage::Typing(false),
        ]
    );
    assert!(app.text_buffer().is_empty());
    let plan = app.render_plan(0);
    assert_eq!(plan.chat.len(), 1);
    assert_eq!(plan.chat[0].from, From::You);
    assert_eq!(plan.chat[0].text, text("SOS"));
}

#[test]
fn scenario_ping_gets_one_pong_and_a_system_entry() {
    let mut app = App::init();
    let fx = app.process_network(NetworkMessage::Ping, 0);
    assert_eq!(fx.messages, vec![NetworkMessage::Pong]);
    assert!(fx.effect.is_none());
    let plan = app.render_plan(0);
    assert_eq!(plan.chat.len(), 1);
    assert_eq!(plan.chat[0].from, From::System);
    assert_eq!(plan.chat[0].text, text("Online!"));

    let fx = app.process_network(NetworkMessage::Pong, 0);
    assert!(fx.messages.is_empty());
    assert!(fx.effect.is_none());
    let plan = app.render_plan(0);
    assert_eq!(plan.chat.len(), 2);
    assert_eq!(plan.chat[0].from, From::System);
    assert_eq!(plan.chat[0].text, text("Online!"));
}

#[test]
fn scenario_typing_banner_expires_lazily() {
    let mut app = App::init();
    app.process_network(NetworkMessage::Typing(true), 5_000);
    // Eleven seconds later the banner is gone, the indicator still present.
    assert!(!app.render_plan(16_000).typing_banner);
    assert_eq!(app.typing_started_at(), Some(5_000));
    // At ten seconds it is still shown; a millisecond later it is not.
    assert!(app.render_plan(15_000).typing_banner);
    assert!(!app.render_plan(15_001).typing_banner);
}

#[test]
fn typing_stopped_clears_the_indicator() {
    let mut app = App::init();
    app.process_network(NetworkMessage::Typing(true), 100);
    assert_eq!(app.typing_started_at(), Some(100));
    app.process_network(NetworkMessage::Typing(false), 200);
    assert_eq!(app.typing_started_at(), None);
    assert!(!app.render_plan(200).typing_banner);
}

#[test]
fn incoming_text_lands_in_chat_with_notification() {
    let mut app = App::init();
    let fx = app.process_network(NetworkMessage::Text(text("HELLO")), 0);
    assert!(fx.messages.is_empty());
    assert!(fx.effect.is_some());
    let plan = app.render_plan(0);
    assert_eq!(plan.chat.len(), 1);
    assert_eq!(plan.chat[0].from, From::Other);
    assert_eq!(plan.chat[0].text, text("HELLO"));
}

#[test]
fn seventh_pulse_is_dropped() {
    let mut app = App::init();
    for _ in 0..6 {
        press(&mut app, Direction::Down, 80);
    }
    assert_eq!(app.pending_sequence().len(), 6);
    let fx = press(&mut app, Direction::Down, 80);
    assert_eq!(app.pending_sequence().len(), 6);
    assert!(fx.messages.is_empty());
}

#[test]
fn seventeenth_character_is_dropped() {
    let mut app = App::init();
    for _ in 0..16 {
        type_char(&mut app, &[80]); // E
    }
    assert_eq!(app.text_buffer().len(), 16);
    let fx = type_char_with_effects(&mut app);
    assert_eq!(app.text_buffer().len(), 16);
    assert_eq!(app.text_buffer(), &text("EEEEEEEEEEEEEEEE"));
    // The typing notice still goes out even though the character was dropped.
    assert_eq!(fx.messages, vec![NetworkMessage::Typing(true)]);
}

fn type_char_with_effects(app: &mut App) -> morse_chat::app::InputEffects {
    press(app, Direction::Down, 80);
    press(app, Direction::Right, 10)
}

#[test]
fn unrecognized_sequence_is_retained() {
    let mut app = App::init();
    press(&mut app, Direction::Down, 80);
    press(&mut app, Direction::Down, 80);
    press(&mut app, Direction::Down, 300);
    press(&mut app, Direction::Down, 300);
    let fx = press(&mut app, Direction::Right, 10);
    // `..--` is in no table entry: nothing is cleared, nothing sent.
    assert_eq!(app.pending_sequence().len(), 4);
    assert!(app.text_buffer().is_empty());
    assert!(fx.messages.is_empty());
}

#[test]
fn backspace_pops_pulse_first_then_text() {
    let mut app = App::init();
    type_char(&mut app, &[80]); // text: E
    press(&mut app, Direction::Down, 80);
    let fx = press(&mut app, Direction::Left, 10);
    // The pulse went; the text did not, and nothing was sent.
    assert!(app.pending_sequence().is_empty());
    assert_eq!(app.text_buffer(), &text("E"));
    assert!(fx.messages.is_empty());
    let fx = press(&mut app, Direction::Left, 10);
    // Now the character went, with a typing-stopped notice.
    assert!(app.text_buffer().is_empty());
    assert_eq!(fx.messages, vec![NetworkMessage::Typing(false)]);
}

#[test]
fn long_up_press_requests_recovery() {
    let mut app = App::init();
    let fx = press(&mut app, Direction::Up, 1_000);
    assert!(fx.enter_recovery);
    assert!(fx.messages.is_empty());
    let fx = press(&mut app, Direction::Up, 999);
    assert!(!fx.enter_recovery);
}

#[test]
fn composition_box_shown_only_while_composing() {
    let mut app = App::init();
    assert!(!app.render_plan(0).input_box_shown);
    press(&mut app, Direction::Down, 80);
    assert!(app.render_plan(0).input_box_shown);
    press(&mut app, Direction::Right, 10); // commit E into the text buffer
    assert!(app.render_plan(0).input_box_shown);
    press(&mut app, Direction::Left, 10); // delete the character
    assert!(!app.render_plan(0).input_box_shown);
}

#[test]
fn render_mirrors_the_composition() {
    let mut app = App::init();
    type_char(&mut app, &[200, 80]); // N
    press(&mut app, Direction::Down, 80);
    press(&mut app, Direction::Down, 250);
    let plan = app.render_plan(0);
    assert_eq!(plan.input_text, text("N"));
    assert_eq!(plan.morse.len(), 2);
    assert_eq!(plan.morse[0].symbol(), ".");
    assert_eq!(plan.morse[1].symbol(), "-");
    assert!(!plan.typing_banner);
}
