use vstd::prelude::*;

verus! {

/// The part of an incoming message that processing reads.
#[derive(Clone, Debug)]
pub struct Message {
    /// The conversation the message came from; results are sent back there.
    pub chat_id: i64,
    /// The message's own identifier; results reply to it.
    pub message_id: i64,
    /// File references of the attached photo, one per size, smallest first;
    /// `None` when the message carries no photo.
    pub photo_sizes: Option<Vec<String>>,
}

/// One event of a batch: a unique, increasing identifier and, possibly, a message.
#[derive(Clone, Debug)]
pub struct Event {
    pub id: i64,
    pub message: Option<Message>,
}

/// The identifiers of a batch, in order.
pub open spec fn batch_ids(batch: Seq<Event>) -> Seq<i64> {
    batch.map_values(|e: Event| e.id)
}

/// The artifact reference an event carries: the largest (last) photo size of its message.
pub open spec fn payload_reference(e: Event) -> Option<Seq<char>> {
    match e.message {
        Some(m) => match m.photo_sizes {
            Some(sizes) => if sizes@.len() > 0 {
                Some(sizes@.last()@)
            } else {
                None
            },
            None => None,
        },
        None => None,
    }
}

impl Event {
    /// The artifact reference this event carries, if any.
    pub fn payload_reference(&self) -> (r: Option<String>)
        ensures
            r matches Some(s) ==> payload_reference(*self) == Some(s@),
            r is None ==> payload_reference(*self) is None,
    {
        match &self.message {
            Some(m) => match &m.photo_sizes {
                Some(sizes) => if sizes.len() > 0 {
                    Some(sizes[sizes.len() - 1].clone())
                } else {
                    None
                },
                None => None,
            },
            None => None,
        }
    }
}

} // verus!
