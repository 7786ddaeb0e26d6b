//! Fixed-capacity chat history: a circular, overwrite-oldest buffer holding
//! the eight most recent chat entries.

use vstd::prelude::*;

verus! {

/// Provenance of a chat entry: composed locally, received from a peer, or
/// generated by the firmware itself.
#[derive(Clone, Copy, PartialEq, Eq, Structural, Debug)]
pub enum From {
    You,
    Other,
    System,
}

impl From {
    /// The label under which the origin is drawn in the transcript.
    pub fn label(&self) -> (r: &'static str)
        ensures
            self is You ==> r@ == "YOU"@,
            self is System ==> r@ == "[>]"@,
            self is Other ==> r@ == "OTH"@,
    {
        match self {
            From::You => "YOU",
            From::System => "[>]",
            From::Other => "OTH",
        }
    }
}

/// How many entries the chat history holds before the oldest is evicted.
pub const CHAT_CAPACITY: usize = 8;

/// How many characters a chat entry's text may hold at most.
pub const MAX_TEXT_LEN: usize = 16;

/// One chat entry: its origin and its text of at most sixteen characters.
#[derive(Debug)]
pub struct ChatMessage {
    pub from: From,
    pub text: Vec<char>,
}

/// The abstract value of a chat entry: its origin and its text.
pub open spec fn entry_view(m: ChatMessage) -> (From, Seq<char>) {
    (m.from, m.text@)
}

impl Clone for ChatMessage {
    /// Clones the entry contents exactly.
    fn clone(&self) -> (r: Self)
        ensures
            entry_view(r) == entry_view(*self),
    {
        let text = self.text.clone();
        proof {
            assert(text@ =~= self.text@);
        }
        ChatMessage { from: self.from, text }
    }
}

/// What one append does to the history, seen most-recent-first: the new entry
/// steps in front and at most the seven younger old entries survive.
pub open spec fn chat_push(
    log: Seq<(From, Seq<char>)>,
    from: From,
    text: Seq<char>,
) -> Seq<(From, Seq<char>)> {
    if log.len() < CHAT_CAPACITY {
        seq![(from, text)] + log
    } else {
        seq![(from, text)] + log.take(CHAT_CAPACITY - 1)
    }
}

/// The history view after a whole series of appends, oldest first in
/// `items`, applied in order.
pub open spec fn chat_push_all(
    log: Seq<(From, Seq<char>)>,
    items: Seq<(From, Seq<char>)>,
) -> Seq<(From, Seq<char>)>
    decreases items.len(),
{
    if items.len() == 0 {
        log
    } else {
        chat_push_all(
            chat_push(log, items[0].0, items[0].1),
            items.subrange(1, items.len() as int),
        )
    }
}

/// Shape of the history after a series of appends: the newest entries come
/// first, and whatever room is left shows the prior history.
proof fn lemma_push_all_shape(log: Seq<(From, Seq<char>)>, items: Seq<(From, Seq<char>)>)
    requires
        log.len() <= CHAT_CAPACITY,
    ensures
        chat_push_all(log, items).len() == vstd::math::min(
            log.len() + items.len() as int,
            CHAT_CAPACITY as int,
        ),
        forall|k: int|
            0 <= k < items.len() && k < CHAT_CAPACITY ==> chat_push_all(log, items)[k] == items[
                items.len() - 1 - k
            ],
        forall|k: int|
            items.len() <= k < chat_push_all(log, items).len() ==> chat_push_all(log, items)[k]
                == log[k - items.len()],
    decreases items.len(),
{
    if items.len() > 0 {
        let log1 = chat_push(log, items[0].0, items[0].1);
        let rest = items.subrange(1, items.len() as int);
        lemma_push_all_shape(log1, rest);
        assert(log1[0] == (items[0].0, items[0].1));
        assert(log1[0] == items[0]);
        assert forall|k: int|
            items.len() <= k < chat_push_all(log, items).len() implies chat_push_all(log, items)[k]
            == log[k - items.len()] by {
            assert(chat_push_all(log, items)[k] == log1[k - rest.len()]);
        }
    }
}

/// Once more entries have been appended than the history holds, it shows
/// exactly the eight most recently appended entries, most recent first,
/// whatever it held before.
pub proof fn lemma_chat_keeps_latest(log: Seq<(From, Seq<char>)>, items: Seq<(From, Seq<char>)>)
    requires
        log.len() <= CHAT_CAPACITY,
        items.len() > CHAT_CAPACITY,
    ensures
        chat_push_all(log, items) == Seq::new(
            CHAT_CAPACITY as nat,
            |k: int| items[items.len() - 1 - k],
        ),
{
    lemma_push_all_shape(log, items);
    assert(chat_push_all(log, items) =~= Seq::new(
        CHAT_CAPACITY as nat,
        |k: int| items[items.len() - 1 - k],
    ));
}

/// Circular buffer of the most recent chat entries. The abstract view is the
/// sequence of valid entries, most recent first.
pub struct ChatLog {
    log: Vec<ChatMessage>,
    index: usize,
}

impl ChatLog {
    /// The buffer is at most at capacity, the write cursor stays inside it
    /// and, until the buffer first fills, equals the entry count; every
    /// stored text is within bounds.
    pub closed spec fn wf(&self) -> bool {
        &&& self.log@.len() <= CHAT_CAPACITY
        &&& self.index < CHAT_CAPACITY
        &&& (self.log@.len() < CHAT_CAPACITY ==> self.index == self.log@.len())
        &&& (forall|i: int|
            0 <= i < self.log@.len() ==> (#[trigger] self.log@[i]).text@.len() <= MAX_TEXT_LEN)
    }

    /// The valid entries, most recent first.
    pub closed spec fn view(&self) -> Seq<(From, Seq<char>)> {
        Seq::new(
            self.log@.len(),
            |k: int|
                entry_view(
                    self.log@[(self.index - 1 - k + CHAT_CAPACITY) % (CHAT_CAPACITY as int)],
                ),
        )
    }

    /// Creates an empty history.
    pub fn new() -> (r: Self)
        ensures
            r.wf(),
            r@ == Seq::<(From, Seq<char>)>::empty(),
    {
        let r = ChatLog { log: Vec::new(), index: 0 };
        proof {
            assert(r@ =~= Seq::<(From, Seq<char>)>::empty());
        }
        r
    }

    /// Appends an entry, evicting the oldest one once the buffer is full.
    pub fn push_message(&mut self, from: From, text: Vec<char>)
        requires
            old(self).wf(),
            text@.len() <= MAX_TEXT_LEN,
        ensures
            final(self).wf(),
            final(self)@ == chat_push(old(self)@, from, text@),
    {
        let msg = ChatMessage { from, text };
        if self.log.len() < CHAT_CAPACITY {
            self.log.push(msg);
        } else {
            self.log[self.index] = msg;
        }
        self.index = (self.index + 1) % CHAT_CAPACITY;
        proof {
            assert(self@ =~= chat_push(old(self)@, from, msg.text@));
        }
    }

    /// The number of valid entries.
    pub fn len(&self) -> (r: usize)
        requires
            self.wf(),
        ensures
            r == self@.len(),
    {
        self.log.len()
    }

    /// The valid entries as a list, most recent first.
    pub fn messages(&self) -> (r: Vec<ChatMessage>)
        requires
            self.wf(),
        ensures
            r@.len() == self@.len(),
            forall|k: int| 0 <= k < r@.len() ==> entry_view(#[trigger] r@[k]) == self@[k],
    {
        let mut r: Vec<ChatMessage> = Vec::new();
        let n = self.log.len();
        let mut k: usize = 0;
        while k < n
            invariant
                0 <= k <= n,
                n == self.log@.len(),
                self.wf(),
                r@.len() == k,
                forall|j: int| 0 <= j < k ==> entry_view(#[trigger] r@[j]) == self@[j],
            decreases n - k,
        {
            let pos = (self.index + CHAT_CAPACITY - 1 - k) % CHAT_CAPACITY;
            proof {
                assert(pos == (self.index - 1 - k + CHAT_CAPACITY) % (CHAT_CAPACITY as int));
                assert(pos < n);
            }
            r.push(self.log[pos].clone());
            k += 1;
        }
        r
    }
}

} // verus!
