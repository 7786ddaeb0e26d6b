use morse_chat::chat::{ChatLog, From};

fn text(s: &str) -> Vec<char> {
    s.chars().collect()
}

#[test]
fn new_log_is_empty() {
    let log = ChatLog::new();
    assert_eq!(log.len(), 0);
    assert!(log.messages().is_empty());
}

#[test]
fn messages_come_most_recent_first() {
    let mut log = ChatLog::new();
    log.push_message(From::You, text("ONE"));
    log.push_message(From::Other, text("TWO"));
    log.push_message(From::System, text("THREE"));
    let msgs = log.messages();
    assert_eq!(msgs.len(), 3);
    assert_eq!(msgs[0].text, text("THREE"));
    assert_eq!(msgs[0].from, From::System);
    assert_eq!(msgs[1].text, text("TWO"));
    assert_eq!(msgs[1].from, From::Other);
    assert_eq!(msgs[2].text, text("ONE"));
    assert_eq!(msgs[2].from, From::You);
}

#[test]
fn overflow_keeps_the_last_eight() {
    let mut log = ChatLog::new();
    let texts = ["A", "B", "C", "D", "E", "F", "G", "H", "I", "J", "K"];
    for t in texts {
        log.push_message(From::You, text(t));
    }
    let msgs = log.messages();
    assert_eq!(msgs.len(), 8);
    // The last eight appended, most recent first; every entry fully formed.
    let expected = ["K", "J", "I", "H", "G", "F", "E", "D"];
    for (m, e) in msgs.iter().zip(expected) {
        assert_eq!(m.text, text(e));
        assert_eq!(m.from, From::You);
    }
}

#[test]
fn capacity_is_reached_exactly() {
    let mut log = ChatLog::new();
    for i in 0..8u32 {
        log.push_message(From::Other, text(&i.to_string()));
        assert_eq!(log.len(), (i + 1) as usize);
    }
    log.push_message(From::Other, text("8"));
    assert_eq!(log.len(), 8);
    assert_eq!(log.messages()[0].text, text("8"));
    assert_eq!(log.messages()[7].text, text("1"));
}

#[test]
fn origin_labels() {
    assert_eq!(From::You.label(), "YOU");
    assert_eq!(From::System.label(), "[>]");
    assert_eq!(From::Other.label(), "OTH");
}
