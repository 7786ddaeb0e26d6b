//! Application orchestrator: owns the chat history, the input-assembler state
//! (pending morse sequence and text buffer) and the typing indicator, and
//! decides for each local or network event the next state, the messages to
//! broadcast and the feedback or recovery actions to take. Performing those
//! actions (radio, display, LED, reboot) is the surrounding drivers' job.

use vstd::prelude::*;

use crate::chat::ChatLog;
use crate::chat::ChatMessage;
use crate::chat::From;
use crate::chat::MAX_TEXT_LEN;
use crate::chat::chat_push;
use crate::chat::entry_view;
use crate::input::Direction;
use crate::input::Input;
use crate::morse::MorseCharacter;
use crate::morse::classified;
use crate::morse::classify;
use crate::morse::lemma_morse_chars_are_ascii;
use crate::morse::match_morse;
use crate::morse::morse_char_of;
use crate::network::MessageView;
use crate::network::NetworkMessage;
use crate::network::message_wf;
use crate::network::text_wf;

verus! {

/// How many pulses the pending morse sequence may hold; no table entry is
/// longer.
pub const PENDING_CAPACITY: usize = 6;

/// Holding the up button at least this long enters firmware recovery.
pub const RECOVERY_HOLD_MS: u64 = 1000;

/// The typing banner is shown while the indicator is at most this old.
pub const TYPING_WINDOW_MS: u64 = 10_000;

/// The text of the system chat entry announcing a peer.
pub open spec fn online_text() -> Seq<char> {
    seq!['O', 'n', 'l', 'i', 'n', 'e', '!']
}

/// The abstract values of a message list, in order.
pub open spec fn messages_view(v: Vec<NetworkMessage>) -> Seq<MessageView> {
    v@.map_values(|m: NetworkMessage| m@)
}

/// The unit notification effect that the LED driver can play on an incoming
/// chat message.
#[derive(Clone, Copy, PartialEq, Eq, Structural, Debug)]
pub struct ChatNotificationEffect;

/// What handling one button press asks the drivers to do: messages to
/// broadcast, in order, and whether to enter firmware recovery (which never
/// returns).
pub struct InputEffects {
    pub messages: Vec<NetworkMessage>,
    pub enter_recovery: bool,
}

/// What handling one inbound message asks the drivers to do: messages to
/// broadcast, in order, and the feedback effect to play, if any.
pub struct NetworkEffects {
    pub messages: Vec<NetworkMessage>,
    pub effect: Option<ChatNotificationEffect>,
}

/// What one loop iteration draws: the composition box with its text and
/// pending morse pulses, the chat entries most recent first, and the typing
/// banner.
pub struct RenderPlan {
    pub input_box_shown: bool,
    pub input_text: Vec<char>,
    pub morse: Vec<MorseCharacter>,
    pub chat: Vec<ChatMessage>,
    pub typing_banner: bool,
}

/// The typing banner is visible while a typing indicator is present and at
/// most ten seconds old; expiry is evaluated lazily at render time.
pub open spec fn typing_banner_visible(typing_since: Option<u64>, now_ms: u64) -> bool {
    match typing_since {
        Some(since) => since <= now_ms && now_ms - since <= TYPING_WINDOW_MS,
        None => false,
    }
}

/// The top-level state machine: text buffer, pending morse sequence, chat
/// history and typing indicator.
pub struct App {
    input: Vec<char>,
    morse_buffer: Vec<MorseCharacter>,
    chat_log: ChatLog,
    typing_indicator: Option<u64>,
}

/// Both states carry the same text, pending sequence, chat and typing
/// indicator.
pub open spec fn same_state(a: App, b: App) -> bool {
    &&& a.text() == b.text()
    &&& a.pending() == b.pending()
    &&& a.chat() == b.chat()
    &&& a.typing_since() == b.typing_since()
}

/// How one button press steps the state: what the next state, the outgoing
/// messages and the recovery decision must be.
///
/// Right commits: with no pending pulses and a non-empty text buffer the text
/// becomes a local chat entry and is broadcast, followed by a typing-stopped
/// notice; otherwise the pending sequence is looked up, and on a match it is
/// cleared, the character lands in the text buffer (dropped silently when the
/// buffer is full) and a typing-started notice goes out; on no match nothing
/// changes, so the user can keep adding pulses. Down appends the classified
/// pulse, dropped silently when six are already pending. Left undoes the last
/// pulse, or with no pulses pending removes the last text character and sends
/// a typing-stopped notice. Up held for a second asks for firmware recovery.
pub open spec fn input_step(
    pre: App,
    input: Input,
    post: App,
    out: Seq<MessageView>,
    recovery: bool,
) -> bool {
    match input.direction {
        Direction::Right => if pre.pending().len() == 0 && pre.text().len() > 0 {
            &&& post.text() == Seq::<char>::empty()
            &&& post.pending() == pre.pending()
            &&& post.chat() == chat_push(pre.chat(), From::You, pre.text())
            &&& post.typing_since() == pre.typing_since()
            &&& out == seq![MessageView::Text(pre.text()), MessageView::Typing(false)]
            &&& !recovery
        } else {
            match morse_char_of(pre.pending()) {
                Some(c) => {
                    &&& post.pending() == Seq::<MorseCharacter>::empty()
                    &&& post.text() == if pre.text().len() < MAX_TEXT_LEN {
                        pre.text().push(c)
                    } else {
                        pre.text()
                    }
                    &&& post.chat() == pre.chat()
                    &&& post.typing_since() == pre.typing_since()
                    &&& out == seq![MessageView::Typing(true)]
                    &&& !recovery
                },
                None => {
                    &&& same_state(post, pre)
                    &&& out == Seq::<MessageView>::empty()
                    &&& !recovery
                },
            }
        },
        Direction::Down => {
            &&& post.pending() == if pre.pending().len() < PENDING_CAPACITY {
                pre.pending().push(classified(input.duration_ms))
            } else {
                pre.pending()
            }
            &&& post.text() == pre.text()
            &&& post.chat() == pre.chat()
            &&& post.typing_since() == pre.typing_since()
            &&& out == Seq::<MessageView>::empty()
            &&& !recovery
        },
        Direction::Left => if pre.pending().len() > 0 {
            &&& post.pending() == pre.pending().drop_last()
            &&& post.text() == pre.text()
            &&& post.chat() == pre.chat()
            &&& post.typing_since() == pre.typing_since()
            &&& out == Seq::<MessageView>::empty()
            &&& !recovery
        } else {
            &&& post.pending() == pre.pending()
            &&& post.text() == if pre.text().len() > 0 {
                pre.text().drop_last()
            } else {
                pre.text()
            }
            &&& post.chat() == pre.chat()
            &&& post.typing_since() == pre.typing_since()
            &&& out == seq![MessageView::Typing(false)]
            &&& !recovery
        },
        Direction::Up => {
            &&& same_state(post, pre)
            &&& out == Seq::<MessageView>::empty()
            &&& recovery == (input.duration_ms >= RECOVERY_HOLD_MS)
        },
    }
}

/// How one inbound message steps the state: a text becomes a remote chat
/// entry and plays the notification effect; a typing notice sets or clears
/// the typing indicator; ping and pong each append the system entry, and only
/// ping is answered, with exactly one pong.
pub open spec fn network_step(
    pre: App,
    message: MessageView,
    now_ms: u64,
    post: App,
    out: Seq<MessageView>,
    notify: bool,
) -> bool {
    match message {
        MessageView::Text(t) => {
            &&& post.chat() == chat_push(pre.chat(), From::Other, t)
            &&& post.text() == pre.text()
            &&& post.pending() == pre.pending()
            &&& post.typing_since() == pre.typing_since()
            &&& out == Seq::<MessageView>::empty()
            &&& notify
        },
        MessageView::Typing(b) => {
            &&& post.typing_since() == if b {
                Some(now_ms)
            } else {
                None::<u64>
            }
            &&& post.text() == pre.text()
            &&& post.pending() == pre.pending()
            &&& post.chat() == pre.chat()
            &&& out == Seq::<MessageView>::empty()
            &&& !notify
        },
        MessageView::Ping => {
            &&& post.chat() == chat_push(pre.chat(), From::System, online_text())
            &&& post.text() == pre.text()
            &&& post.pending() == pre.pending()
            &&& post.typing_since() == pre.typing_since()
            &&& out == seq![MessageView::Pong]
            &&& !notify
        },
        MessageView::Pong => {
            &&& post.chat() == chat_push(pre.chat(), From::System, online_text())
            &&& post.text() == pre.text()
            &&& post.pending() == pre.pending()
            &&& post.typing_since() == pre.typing_since()
            &&& out == Seq::<MessageView>::empty()
            &&& !notify
        },
    }
}

/// A copy of a text buffer with the same characters.
fn clone_text(t: &Vec<char>) -> (r: Vec<char>)
    ensures
        r@ == t@,
{
    let r = t.clone();
    proof {
        assert(r@ =~= t@);
    }
    r
}

/// The text of the system chat entry announcing a peer, as runtime data.
fn online_text_exec() -> (r: Vec<char>)
    ensures
        r@ == online_text(),
{
    let r = vec!['O', 'n', 'l', 'i', 'n', 'e', '!'];
    proof {
        assert(r@ =~= online_text());
    }
    r
}

impl App {
    /// The text buffer holds a transportable text and the pending sequence at
    /// most six pulses; the chat history is well formed.
    pub closed spec fn wf(&self) -> bool {
        &&& text_wf(self.input@)
        &&& self.morse_buffer@.len() <= PENDING_CAPACITY
        &&& self.chat_log.wf()
    }

    /// The message text being composed.
    pub closed spec fn text(&self) -> Seq<char> {
        self.input@
    }

    /// The pending morse sequence.
    pub closed spec fn pending(&self) -> Seq<MorseCharacter> {
        self.morse_buffer@
    }

    /// The chat entries, most recent first.
    pub closed spec fn chat(&self) -> Seq<(From, Seq<char>)> {
        self.chat_log@
    }

    /// When the remote peer last signalled that it started typing, if it has
    /// not signalled a stop since.
    pub closed spec fn typing_since(&self) -> Option<u64> {
        self.typing_indicator
    }

    /// Creates the orchestrator in its start state: everything empty, no
    /// typing indicator.
    pub fn init() -> (r: App)
        ensures
            r.wf(),
            r.text() == Seq::<char>::empty(),
            r.pending() == Seq::<MorseCharacter>::empty(),
            r.chat() == Seq::<(From, Seq<char>)>::empty(),
            r.typing_since() is None,
    {
        let r = App {
            input: Vec::new(),
            morse_buffer: Vec::new(),
            chat_log: ChatLog::new(),
            typing_indicator: None,
        };
        proof {
            assert(r.text() =~= Seq::<char>::empty());
            assert(r.pending() =~= Seq::<MorseCharacter>::empty());
        }
        r
    }

    /// The presence announcement broadcast once at startup, the protocol's
    /// only join signal.
    pub fn startup_message() -> (m: NetworkMessage)
        ensures
            m@ == MessageView::Ping,
    {
        NetworkMessage::Ping
    }

    /// Handles one completed button press and returns what to do: the
    /// messages to broadcast, in order, and whether to enter recovery.
    /// All returned messages are constructible.
    pub fn input_logic(&mut self, input: Input) -> (r: InputEffects)
        requires
            old(self).wf(),
        ensures
            final(self).wf(),
            input_step(
                *old(self),
                input,
                *final(self),
                messages_view(r.messages),
                r.enter_recovery,
            ),
            forall|k: int|
                0 <= k < r.messages@.len() ==> message_wf((#[trigger] r.messages@[k])@),
    {
        let mut messages: Vec<NetworkMessage> = Vec::new();
        let mut enter_recovery = false;
        match input.direction {
            Direction::Right => {
                if self.morse_buffer.len() == 0 && self.input.len() > 0 {
                    let mut buffer: Vec<char> = Vec::new();
                    core::mem::swap(&mut buffer, &mut self.input);
                    self.chat_log.push_message(From::You, clone_text(&buffer));
                    messages.push(NetworkMessage::Text(buffer));
                    messages.push(NetworkMessage::Typing(false));
                    proof {
                        assert(messages_view(messages) =~= seq![
                            MessageView::Text(old(self).text()),
                            MessageView::Typing(false),
                        ]);
                    }
                } else {
                    let matched = match_morse(self.morse_buffer.as_slice());
                    match matched {
                        Some(character) => {
                            proof {
                                lemma_morse_chars_are_ascii(old(self).pending(), character);
                            }
                            self.morse_buffer.clear();
                            if self.input.len() < MAX_TEXT_LEN {
                                self.input.push(character);
                            }
                            messages.push(NetworkMessage::Typing(true));
                            proof {
                                assert(messages_view(messages) =~= seq![MessageView::Typing(true)]);
                            }
                        },
                        None => {
                            proof {
                                assert(messages_view(messages) =~= Seq::<MessageView>::empty());
                            }
                        },
                    }
                }
            },
            Direction::Down => {
                let character = classify(input.duration_ms);
                if self.morse_buffer.len() < PENDING_CAPACITY {
                    self.morse_buffer.push(character);
                }
                proof {
                    assert(messages_view(messages) =~= Seq::<MessageView>::empty());
                }
            },
            Direction::Left => {
                let popped = self.morse_buffer.pop();
                if popped.is_none() {
                    let _ = self.input.pop();
                    messages.push(NetworkMessage::Typing(false));
                    proof {
                        assert(messages_view(messages) =~= seq![MessageView::Typing(false)]);
                    }
                } else {
                    proof {
                        assert(self.morse_buffer@ =~= old(self).pending().drop_last());
                        assert(messages_view(messages) =~= Seq::<MessageView>::empty());
                    }
                }
            },
            Direction::Up => {
                if input.duration_ms >= RECOVERY_HOLD_MS {
                    enter_recovery = true;
                }
                proof {
                    assert(messages_view(messages) =~= Seq::<MessageView>::empty());
                }
            },
        }
        InputEffects { messages, enter_recovery }
    }

    /// Handles one decoded inbound message and returns what to do: the
    /// messages to broadcast and the feedback effect to play, if any.
    /// All returned messages are constructible.
    pub fn process_network(&mut self, message: NetworkMessage, now_ms: u64) -> (r: NetworkEffects)
        requires
            old(self).wf(),
            message_wf(message@),
        ensures
            final(self).wf(),
            network_step(
                *old(self),
                message@,
                now_ms,
                *final(self),
                messages_view(r.messages),
                r.effect is Some,
            ),
            forall|k: int|
                0 <= k < r.messages@.len() ==> message_wf((#[trigger] r.messages@[k])@),
    {
        let mut messages: Vec<NetworkMessage> = Vec::new();
        let mut effect: Option<ChatNotificationEffect> = None;
        match message {
            NetworkMessage::Text(t) => {
                self.chat_log.push_message(From::Other, t);
                effect = Some(ChatNotificationEffect);
                proof {
                    assert(messages_view(messages) =~= Seq::<MessageView>::empty());
                }
            },
            NetworkMessage::Typing(is_typing) => {
                self.typing_indicator = if is_typing {
                    Some(now_ms)
                } else {
                    None
                };
                proof {
                    assert(messages_view(messages) =~= Seq::<MessageView>::empty());
                }
            },
            NetworkMessage::Ping => {
                messages.push(NetworkMessage::Pong);
                self.chat_log.push_message(From::System, online_text_exec());
                proof {
                    assert(messages_view(messages) =~= seq![MessageView::Pong]);
                }
            },
            NetworkMessage::Pong => {
                self.chat_log.push_message(From::System, online_text_exec());
                proof {
                    assert(messages_view(messages) =~= Seq::<MessageView>::empty());
                }
            },
        }
        NetworkEffects { messages, effect }
    }

    /// Recomputes what must be drawn from the current state: the composition
    /// box is visible exactly when text or pulses are pending, and the typing
    /// banner exactly while the indicator is present and fresh.
    pub fn render_plan(&self, now_ms: u64) -> (r: RenderPlan)
        requires
            self.wf(),
        ensures
            r.input_box_shown == (self.text().len() > 0 || self.pending().len() > 0),
            r.input_text@ == self.text(),
            r.morse@ == self.pending(),
            r.chat@.len() == self.chat().len(),
            forall|k: int| 0 <= k < r.chat@.len() ==> entry_view(#[trigger] r.chat@[k]) == self.chat()[k],
            r.typing_banner == typing_banner_visible(self.typing_since(), now_ms),
    {
        let input_box_shown = self.input.len() > 0 || self.morse_buffer.len() > 0;
        let typing_banner = match self.typing_indicator {
            Some(since) => since <= now_ms && now_ms - since <= TYPING_WINDOW_MS,
            None => false,
        };
        let morse = self.morse_buffer.clone();
        proof {
            assert(morse@ =~= self.morse_buffer@);
        }
        RenderPlan {
            input_box_shown,
            input_text: clone_text(&self.input),
            morse,
            chat: self.chat_log.messages(),
            typing_banner,
        }
    }

    /// The text buffer being composed.
    pub fn text_buffer(&self) -> (r: &Vec<char>)
        ensures
            r@ == self.text(),
    {
        &self.input
    }

    /// The pending morse sequence.
    pub fn pending_sequence(&self) -> (r: &Vec<MorseCharacter>)
        ensures
            r@ == self.pending(),
    {
        &self.morse_buffer
    }

    /// When the remote peer last signalled typing, if the indicator is
    /// present; expiry never clears it, only a typing-stopped notice does.
    pub fn typing_started_at(&self) -> (r: Option<u64>)
        ensures
            r == self.typing_since(),
    {
        self.typing_indicator
    }
}

/// A seventh pulse is dropped: recording a pulse with six already pending
/// leaves the pending sequence unchanged.
pub proof fn lemma_pending_saturates(
    pre: App,
    input: Input,
    post: App,
    out: Seq<MessageView>,
    recovery: bool,
)
    requires
        input_step(pre, input, post, out, recovery),
        input.direction == Direction::Down,
        pre.pending().len() == PENDING_CAPACITY,
    ensures
        post.pending() == pre.pending(),
{
}

/// A seventeenth character is dropped: committing a matched character with a
/// full text buffer leaves the text buffer unchanged.
pub proof fn lemma_text_saturates(
    pre: App,
    input: Input,
    post: App,
    out: Seq<MessageView>,
    recovery: bool,
)
    requires
        input_step(pre, input, post, out, recovery),
        input.direction == Direction::Right,
        pre.pending().len() > 0,
        pre.text().len() == MAX_TEXT_LEN,
    ensures
        post.text() == pre.text(),
{
}

} // verus!
