//! The message batch.
//!
//! A batch owns an ordered sequence of message variants; insertion order is
//! delivery order.  Its invariant — at most five messages — is enforced at
//! insertion, which fails with `CapacityExceeded` and leaves the batch
//! unchanged.  Text-message emoji placements are validated at insertion too:
//! a placement whose index is not a character offset of the text is rejected
//! with `InvalidEmojiPlacement`.

use vstd::prelude::*;

use crate::json::{arr_push, arr_view, arr_wf, json_wf, jv_view, JsonSpec, JsonValue};
use crate::message::{message_to_json, message_wf, message_wire, EmojiV, Message, MessageV};

verus! {

/// Why a message was not added to a batch.
#[derive(Clone, Copy, Debug, PartialEq, Eq, Structural)]
pub enum ComposeError {
    /// The batch already holds five messages.
    CapacityExceeded,
    /// A text message carries an emoji placement whose index is not a valid
    /// character offset of its text.
    InvalidEmojiPlacement,
}

/// Every placement of the list addresses a character offset of the text.
pub open spec fn placements_valid(text: Seq<char>, es: Seq<EmojiV>) -> bool {
    forall|i: int| 0 <= i < es.len() ==> #[trigger] es[i].index < text.len()
}

/// Every emoji placement of a text message addresses a character of the
/// text; messages of any other kind satisfy this trivially.
pub open spec fn emojis_valid(m: MessageV) -> bool {
    match m {
        MessageV::Text { text, emojis, .. } => match emojis {
            Some(es) => placements_valid(text, es),
            None => true,
        },
        _ => true,
    }
}

/// Decides `emojis_valid` for a message.
pub fn message_emojis_valid(m: &Message) -> (r: bool)
    ensures
        r == emojis_valid(m@),
{
    match m {
        Message::TextMessage { text, emojis, .. } => {
            match emojis {
                Some(es) => {
                    let tlen = text.as_str().unicode_len();
                    let n = es.emojis.len();
                    let mut i: usize = 0;
                    while i < n
                        invariant
                            n == es.emojis@.len(),
                            i <= n,
                            tlen == text@.len(),
                            m@ is Text,
                            m@->Text_text == text@,
                            m@->Text_emojis == Some(es@),
                            es@ == es.emojis@.map_values(|e: crate::message::Emoji| e@),
                            forall|j: int| 0 <= j < i ==> #[trigger] es@[j].index < text@.len(),
                        decreases n - i,
                    {
                        if es.emojis[i].index >= tlen {
                            proof {
                                let mv = m@;
                                assert(mv->Text_emojis == Some(es@));
                                assert(mv->Text_text == text@);
                                assert(es@[i as int].index >= text@.len());
                                assert(!placements_valid(text@, es@)) by {
                                    if placements_valid(text@, es@) {
                                        assert(es@[i as int].index < text@.len());
                                    }
                                }
                                assert(!emojis_valid(mv));
                            }
                            return false;
                        }
                        i += 1;
                    }
                    true
                },
                None => true,
            }
        },
        _ => true,
    }
}

/// An ordered, size-bounded batch of messages, dispatched atomically in one
/// request.  Created empty, populated through `add`, consumed by a delivery
/// operation.
pub struct Messages {
    messages: Vec<Message>,
}

impl View for Messages {
    type V = Seq<MessageV>;

    closed spec fn view(&self) -> Seq<MessageV> {
        self.messages@.map_values(|m: Message| m@)
    }
}

/// Every message of a well-formed batch satisfies the message invariant.
pub open spec fn batch_wf(b: Seq<MessageV>) -> bool {
    forall|i: int| 0 <= i < b.len() ==> #[trigger] message_wf(b[i])
}

impl Messages {
    /// The batch's invariant, holding at all times: never more than five
    /// messages, each satisfying the data-model invariant.
    #[verifier::type_invariant]
    spec fn inv(self) -> bool {
        self@.len() <= 5 && batch_wf(self@)
    }

    /// An empty batch, with room for the gateway's limit of five.
    pub fn new() -> (r: Messages)
        ensures
            r@ == Seq::<MessageV>::empty(),
    {
        let messages: Vec<Message> = Vec::with_capacity(5);
        proof {
            assert(messages@.map_values(|m: Message| m@) =~= Seq::<MessageV>::empty());
        }
        let r = Messages { messages };
        proof {
            assert(r@ =~= Seq::<MessageV>::empty());
        }
        r
    }

    /// Number of messages composed so far.
    pub fn len(&self) -> (n: usize)
        ensures
            n == self@.len(),
    {
        self.messages.len()
    }

    /// Appends a message, preserving insertion order.  Fails with
    /// `CapacityExceeded` when the batch already holds five messages, and
    /// with `InvalidEmojiPlacement` when a text message carries an emoji
    /// placement outside its text; on failure the batch is unchanged.
    pub fn add(&mut self, message: Message) -> (r: Result<(), ComposeError>)
        requires
            message_wf(message@),
        ensures
            match r {
                Ok(()) => {
                    &&& old(self)@.len() < 5
                    &&& emojis_valid(message@)
                    &&& final(self)@ == old(self)@.push(message@)
                },
                Err(ComposeError::CapacityExceeded) => {
                    &&& old(self)@.len() == 5
                    &&& final(self)@ == old(self)@
                },
                Err(ComposeError::InvalidEmojiPlacement) => {
                    &&& old(self)@.len() < 5
                    &&& !emojis_valid(message@)
                    &&& final(self)@ == old(self)@
                },
            },
    {
        proof {
            use_type_invariant(&*self);
        }
        if self.messages.len() >= 5 {
            return Err(ComposeError::CapacityExceeded);
        }
        if !message_emojis_valid(&message) {
            return Err(ComposeError::InvalidEmojiPlacement);
        }
        let ghost prior = self.messages@;
        let ghost mv = message@;
        let mut msgs: Vec<Message> = Vec::new();
        proof {
            assert(msgs@.map_values(|m: Message| m@) =~= Seq::<MessageV>::empty());
        }
        std::mem::swap(&mut msgs, &mut self.messages);
        msgs.push(message);
        proof {
            let newv = msgs@.map_values(|m: Message| m@);
            assert(newv =~= prior.map_values(|m: Message| m@).push(mv));
            assert forall|i: int| 0 <= i < newv.len() implies message_wf(#[trigger] newv[i]) by {
                if i < prior.len() {
                    assert(newv[i] == old(self)@[i]);
                    assert(message_wf(old(self)@[i]));
                }
            }
            assert(batch_wf(newv));
        }
        self.messages = msgs;
        Ok(())
    }

    /// Encodes the batch as its wire array, messages in insertion order.
    pub fn to_json(&self) -> (v: JsonValue)
        ensures
            jv_view(v) == batch_wire(self@),
            json_wf(jv_view(v)),
    {
        proof {
            use_type_invariant(&*self);
        }
        let mut list: Vec<JsonValue> = Vec::new();
        let n = self.messages.len();
        let mut i: usize = 0;
        while i < n
            invariant
                n == self.messages@.len(),
                i <= n,
                batch_wf(self@),
                self@ == self.messages@.map_values(|m: Message| m@),
                arr_view(list@) =~= self.messages@.take(i as int).map_values(
                    |m: Message| message_wire(m@),
                ),
                arr_wf(arr_view(list@)),
            decreases n - i,
        {
            proof {
                assert(self@[i as int] == self.messages@[i as int]@);
                assert(message_wf(self@[i as int]));
            }
            arr_push(&mut list, message_to_json(&self.messages[i]));
            proof {
                assert(self.messages@.take(i + 1).drop_last() =~= self.messages@.take(i as int));
                assert(arr_view(list@) =~= self.messages@.take(i + 1).map_values(
                    |m: Message| message_wire(m@),
                ));
            }
            i += 1;
        }
        proof {
            assert(self.messages@.take(n as int) =~= self.messages@);
            assert(arr_view(list@) =~= self@.map_values(|m: MessageV| message_wire(m)));
        }
        JsonValue::Arr(list)
    }
}

/// Wire form of a batch: the ordered array of its messages' wire objects.
pub open spec fn batch_wire(b: Seq<MessageV>) -> JsonSpec {
    JsonSpec::Arr(b.map_values(|m: MessageV| message_wire(m)))
}

/// The wire array of a batch holds exactly one object per message, and the
/// object at each position is the wire form of the message inserted there:
/// delivery order is insertion order.
pub proof fn lemma_batch_wire_order(b: Seq<MessageV>)
    ensures
        batch_wire(b)->Arr_0.len() == b.len(),
        forall|i: int| 0 <= i < b.len() ==> batch_wire(b)->Arr_0[i] == message_wire(b[i]),
{
}

} // verus!
