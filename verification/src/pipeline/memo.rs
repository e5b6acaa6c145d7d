//! What the attempts at one request share.

use crate::pipeline::wire::{peeks, Wire};
use crate::protocol::OperationKey;
use crate::text::{optional, same};
use crate::transport::octets;
use bytes::Bytes;
use vstd::prelude::*;

verus! {

/// A body converted for a target and a model.
struct MemoBody {
    target: OperationKey,
    model: String,
    body: Bytes,
}

/// Shared by the attempts at one request: the converted bodies by target and
/// model, and the model that the inbound body names once it has been looked
/// up. The whole target counts, since two targets may share a wire format and
/// differ in the operation.
pub struct AttemptMemo {
    bodies: Vec<MemoBody>,
    inbound_model: Option<Option<String>>,
}

/// What an `AttemptMemo` knows.
#[verifier::ext_equal]
pub struct Memo {
    pub bodies: Map<(OperationKey, Seq<char>), Seq<u8>>,
    pub inbound: Option<Option<Seq<char>>>,
}

impl Memo {
    /// The model that the inbound body names, where `answer` is what a look
    /// into the body gives.
    pub open spec fn model(self, answer: Option<Seq<char>>) -> Option<Seq<char>> {
        match self.inbound {
            Some(known) => known,
            None => answer,
        }
    }

    /// This memo once the inbound model has been asked for.
    pub open spec fn asked(self, answer: Option<Seq<char>>) -> Memo {
        Memo { inbound: Some(self.model(answer)), ..self }
    }

    /// This memo with a converted body.
    pub open spec fn with_body(
        self,
        target: OperationKey,
        model: Seq<char>,
        body: Seq<u8>,
    ) -> Memo {
        Memo { bodies: self.bodies.insert((target, model), body), ..self }
    }
}

/// The bodies by target and model; a later one takes the place of an earlier.
spec fn by_target(bodies: Seq<MemoBody>) -> Map<(OperationKey, Seq<char>), Seq<u8>>
    decreases bodies.len(),
{
    if bodies.len() == 0 {
        Map::empty()
    } else {
        let last = bodies.last();
        by_target(bodies.drop_last()).insert((last.target, last.model@), octets(last.body))
    }
}

impl View for AttemptMemo {
    type V = Memo;

    closed spec fn view(&self) -> Memo {
        Memo {
            bodies: by_target(self.bodies@),
            inbound: match self.inbound_model {
                Some(known) => Some(optional(known)),
                None => None,
            },
        }
    }
}

impl Default for AttemptMemo {
    fn default() -> (r: AttemptMemo)
        ensures
            r@ == (Memo { bodies: Map::empty(), inbound: None }),
    {
        AttemptMemo { bodies: Vec::new(), inbound_model: None }
    }
}

impl AttemptMemo {
    /// The model that the inbound `body` names. The body is looked into once;
    /// after that the answer is remembered.
    pub fn inbound_model<W: Wire>(&mut self, wire: &W, body: &Bytes) -> (r: Option<String>)
        ensures
            old(self)@.inbound is None ==> peeks(wire, *body, optional(r)),
            optional(r) == old(self)@.model(optional(r)),
            final(self)@ == old(self)@.asked(optional(r)),
    {
        match &self.inbound_model {
            Some(known) => known.clone(),
            None => {
                let answer = wire.peek_model(body);
                self.inbound_model = Some(answer.clone());
                answer
            },
        }
    }

    /// The body that was converted for `target` and `model`.
    pub fn body(&self, target: OperationKey, model: &str) -> (r: Option<Bytes>)
        ensures
            match r {
                Some(body) => self@.bodies.contains_key((target, model@)) && self@.bodies[(
                    target,
                    model@,
                )] == octets(body),
                None => !self@.bodies.contains_key((target, model@)),
            },
    {
        let mut i: usize = self.bodies.len();
        assert(self.bodies@.take(i as int) == self.bodies@);
        while i > 0
            invariant
                i <= self.bodies.len(),
                by_target(self.bodies@).contains_key((target, model@)) == by_target(
                    self.bodies@.take(i as int),
                ).contains_key((target, model@)),
                by_target(self.bodies@)[(target, model@)] == by_target(
                    self.bodies@.take(i as int),
                )[(target, model@)],
            decreases i,
        {
            let ghost seen = self.bodies@.take(i as int);
            i = i - 1;
            assert(seen.drop_last() == self.bodies@.take(i as int));
            if self.bodies[i].target == target && same(self.bodies[i].model.as_str(), model) {
                return Some(self.bodies[i].body.clone());
            }
        }
        None
    }

    /// Remembers the body that was converted for `target` and `model`.
    pub fn remember(&mut self, target: OperationKey, model: &str, body: &Bytes)
        ensures
            final(self)@ == old(self)@.with_body(target, model@, octets(*body)),
    {
        let ghost before = self.bodies@;
        self.bodies.push(MemoBody { target, model: model.to_owned(), body: body.clone() });
        assert(self.bodies@.drop_last() == before);
    }
}

} // verus!
