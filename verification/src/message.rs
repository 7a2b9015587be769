//! The private message model, wire tag `t4`.

use vstd::prelude::*;

use crate::error::{res_view, DecodeError, DecodeErrorV};
use crate::json::{pairs_view, JsonV, JsonValue};

verus! {

/// A private message. The wire format defines no fields for it yet.
#[derive(Clone, Copy, Debug, PartialEq, Eq, Structural)]
pub struct Message {}

impl View for Message {
    type V = Message;

    open spec fn view(&self) -> Message {
        *self
    }
}

pub open spec fn spec_decode_message(pairs: Seq<(Seq<char>, JsonV)>) -> Result<
    Message,
    DecodeErrorV,
> {
    Ok(Message {  })
}

pub open spec fn spec_encode_message(m: Message) -> Seq<(Seq<char>, JsonV)> {
    Seq::empty()
}

impl Message {
    /// Decodes a message out of the fields of an envelope's `data` object.
    pub fn decode(fields: &Vec<(String, JsonValue)>) -> (r: Result<Message, DecodeError>)
        ensures
            res_view(r) == spec_decode_message(pairs_view(*fields, 0)),
    {
        Ok(Message {  })
    }

    /// Encodes the message as the fields of an envelope's `data` object.
    pub fn encode(&self) -> (r: Vec<(String, JsonValue)>)
        ensures
            pairs_view(r, 0) == spec_encode_message(*self),
    {
        let v: Vec<(String, JsonValue)> = Vec::new();
        proof {
            assert(pairs_view(v, 0) =~= Seq::<(Seq<char>, JsonV)>::empty());
        }
        v
    }
}

/// A message payload decodes back from its own encoding.
pub proof fn lemma_message_round_trip(m: Message)
    ensures
        spec_decode_message(spec_encode_message(m)) == Ok::<Message, DecodeErrorV>(m),
{
}

} // verus!
