//! The typed command channel: decoders, the decode-and-enqueue policy,
//! and the queue the decoded commands wait in.
//!
//! A decoder turns a raw payload into a domain value; a failing decode
//! is logged by the caller and dropped, never surfaced to the producer
//! side, so malformed control messages cannot crash or stall the
//! consumer loop. Decoded values wait in an unbounded first-in first-out
//! queue with one logical consumer.
use vstd::prelude::*;

verus! {

use core::marker::PhantomData;
use std::collections::VecDeque;

/// A payload could not be converted to the target type.
#[derive(Debug)]
pub struct DecodeError {
    pub message: String,
}

impl DecodeError {
    /// A short description, in place of a `Display` implementation.
    pub fn message(&self) -> (r: &str)
        ensures
            r@ == self.message@,
    {
        self.message.as_str()
    }
}

/// The queue of decoded commands, oldest first: filled by the dispatch
/// side, drained by whoever consumes commands.
pub struct CommandQueue<T> {
    items: VecDeque<T>,
}

impl<T> View for CommandQueue<T> {
    type V = Seq<T>;

    closed spec fn view(&self) -> Seq<T> {
        self.items@
    }
}

impl<T> CommandQueue<T> {
    /// An empty queue.
    pub fn new() -> (q: Self)
        ensures
            q@.len() == 0,
    {
        CommandQueue { items: VecDeque::new() }
    }

    /// How many commands are waiting.
    pub fn len(&self) -> (n: usize)
        ensures
            n == self@.len(),
    {
        self.items.len()
    }

    /// Append one decoded command at the back.
    pub fn push(&mut self, value: T)
        ensures
            final(self)@ =~= old(self)@.push(value),
    {
        self.items.push_back(value);
    }

    /// Take the oldest waiting command, or `None` when nothing waits.
    ///
    /// This is the synchronous core of receiving: the surrounding
    /// runtime turns `None` into suspension until a value arrives or
    /// the channel is closed for good.
    pub fn next(&mut self) -> (r: Option<T>)
        ensures
            old(self)@.len() == 0 ==> r is None && final(self)@ == old(self)@,
            old(self)@.len() > 0 ==> r == Option::Some(old(self)@[0]) && final(self)@ =~= old(
                self,
            )@.skip(1),
    {
        self.items.pop_front()
    }
}

/// Turns raw payload bytes into a domain value.
///
/// `wf` is the implementor's promise that `decode` may be called at
/// all; a decoder built from a total conversion holds it trivially.
/// `decode_rel` is the decoder's input-output relation: `None` stands
/// for a decode failure, `Some(v)` for success with the value `v`;
/// `decode` returns only outcomes the relation admits.
pub trait Decoder<T>: Sized {
    spec fn wf(&self) -> bool;

    spec fn decode_rel(&self, data: Seq<u8>, r: Option<T>) -> bool;

    fn decode(&self, data: &[u8]) -> (r: Result<T, DecodeError>)
        requires
            self.wf(),
        ensures
            match r {
                Ok(v) => self.decode_rel(data@, Some(v)),
                Err(_) => self.decode_rel(data@, None),
            },
    ;
}

/// What a JSON payload parses to as a `bool`, if it parses at all.
pub uninterp spec fn json_bool_of(data: Seq<u8>) -> Option<bool>;

/// What a JSON payload parses to as a `u16`, if it parses at all.
pub uninterp spec fn json_u16_of(data: Seq<u8>) -> Option<u16>;

/// What a JSON payload parses to as a `u32`, if it parses at all.
pub uninterp spec fn json_u32_of(data: Seq<u8>) -> Option<u32>;

/// What a JSON payload parses to as an `i64`, if it parses at all.
pub uninterp spec fn json_i64_of(data: Seq<u8>) -> Option<i64>;

/// What a JSON payload parses to as a `String`, if it parses at all.
pub uninterp spec fn json_string_of(data: Seq<u8>) -> Option<String>;

/// Relies on serde_json::from_slice at `bool`: the result is a
/// function of the bytes alone; the error case carries serde_json's
/// description of the fault.
#[verifier::external_body]
fn json_bool_from_slice(data: &[u8]) -> (r: Result<bool, DecodeError>)
    ensures
        r matches Ok(v) ==> json_bool_of(data@) == Some(v),
        r is Err ==> json_bool_of(data@) is None,
{
    match serde_json::from_slice::<bool>(data) {
        Ok(p) => Ok(p),
        Err(e) => Err(DecodeError { message: e.to_string() }),
    }
}

/// Relies on serde_json::from_slice at `u16`: the result is a
/// function of the bytes alone; the error case carries serde_json's
/// description of the fault.
#[verifier::external_body]
fn json_u16_from_slice(data: &[u8]) -> (r: Result<u16, DecodeError>)
    ensures
        r matches Ok(v) ==> json_u16_of(data@) == Some(v),
        r is Err ==> json_u16_of(data@) is None,
{
    match serde_json::from_slice::<u16>(data) {
        Ok(p) => Ok(p),
        Err(e) => Err(DecodeError { message: e.to_string() }),
    }
}

/// Relies on serde_json::from_slice at `u32`: the result is a
/// function of the bytes alone; the error case carries serde_json's
/// description of the fault.
#[verifier::external_body]
fn json_u32_from_slice(data: &[u8]) -> (r: Result<u32, DecodeError>)
    ensures
        r matches Ok(v) ==> json_u32_of(data@) == Some(v),
        r is Err ==> json_u32_of(data@) is None,
{
    match serde_json::from_slice::<u32>(data) {
        Ok(p) => Ok(p),
        Err(e) => Err(DecodeError { message: e.to_string() }),
    }
}

/// Relies on serde_json::from_slice at `i64`: the result is a
/// function of the bytes alone; the error case carries serde_json's
/// description of the fault.
#[verifier::external_body]
fn json_i64_from_slice(data: &[u8]) -> (r: Result<i64, DecodeError>)
    ensures
        r matches Ok(v) ==> json_i64_of(data@) == Some(v),
        r is Err ==> json_i64_of(data@) is None,
{
    match serde_json::from_slice::<i64>(data) {
        Ok(p) => Ok(p),
        Err(e) => Err(DecodeError { message: e.to_string() }),
    }
}

/// Relies on serde_json::from_slice at `String`: the result is a
/// function of the bytes alone; the error case carries serde_json's
/// description of the fault.
#[verifier::external_body]
fn json_string_from_slice(data: &[u8]) -> (r: Result<String, DecodeError>)
    ensures
        r matches Ok(v) ==> json_string_of(data@) == Some(v),
        r is Err ==> json_string_of(data@) is None,
{
    match serde_json::from_slice::<String>(data) {
        Ok(p) => Ok(p),
        Err(e) => Err(DecodeError { message: e.to_string() }),
    }
}

/// Types a JSON payload parses into. The implementations for the plain
/// types all parse through serde_json; `spec_from_json` names what the
/// bytes parse to, and `from_json` returns exactly that.
pub trait JsonPayload: Sized {
    /// The value the payload parses to, if it parses at all.
    spec fn spec_from_json(data: Seq<u8>) -> Option<Self>;

    fn from_json(data: &[u8]) -> (r: Result<Self, DecodeError>)
        ensures
            match r {
                Ok(v) => Self::spec_from_json(data@) == Some(v),
                Err(_) => Self::spec_from_json(data@) is None,
            },
    ;
}

impl JsonPayload for bool {
    open spec fn spec_from_json(data: Seq<u8>) -> Option<bool> {
        json_bool_of(data)
    }

    fn from_json(data: &[u8]) -> (r: Result<Self, DecodeError>)
        ensures
            match r {
                Ok(v) => Self::spec_from_json(data@) == Some(v),
                Err(_) => Self::spec_from_json(data@) is None,
            },
    {
        json_bool_from_slice(data)
    }
}

impl JsonPayload for u16 {
    open spec fn spec_from_json(data: Seq<u8>) -> Option<u16> {
        json_u16_of(data)
    }

    fn from_json(data: &[u8]) -> (r: Result<Self, DecodeError>)
        ensures
            match r {
                Ok(v) => Self::spec_from_json(data@) == Some(v),
                Err(_) => Self::spec_from_json(data@) is None,
            },
    {
        json_u16_from_slice(data)
    }
}

impl JsonPayload for u32 {
    open spec fn spec_from_json(data: Seq<u8>) -> Option<u32> {
        json_u32_of(data)
    }

    fn from_json(data: &[u8]) -> (r: Result<Self, DecodeError>)
        ensures
            match r {
                Ok(v) => Self::spec_from_json(data@) == Some(v),
                Err(_) => Self::spec_from_json(data@) is None,
            },
    {
        json_u32_from_slice(data)
    }
}

impl JsonPayload for i64 {
    open spec fn spec_from_json(data: Seq<u8>) -> Option<i64> {
        json_i64_of(data)
    }

    fn from_json(data: &[u8]) -> (r: Result<Self, DecodeError>)
        ensures
            match r {
                Ok(v) => Self::spec_from_json(data@) == Some(v),
                Err(_) => Self::spec_from_json(data@) is None,
            },
    {
        json_i64_from_slice(data)
    }
}

impl JsonPayload for String {
    open spec fn spec_from_json(data: Seq<u8>) -> Option<String> {
        json_string_of(data)
    }

    fn from_json(data: &[u8]) -> (r: Result<Self, DecodeError>)
        ensures
            match r {
                Ok(v) => Self::spec_from_json(data@) == Some(v),
                Err(_) => Self::spec_from_json(data@) is None,
            },
    {
        json_string_from_slice(data)
    }
}

/// A decoder that parses the payload as JSON into a `P` and maps it
/// through the given constructor into the command type, typically an
/// enum variant picking one command kind.
#[verifier::reject_recursive_types(P)]
#[verifier::reject_recursive_types(T)]
pub struct JsonDecoder<P, T, F: Fn(P) -> T>(pub F, pub PhantomData<(P, T)>);

impl<P: JsonPayload, T, F: Fn(P) -> T> Decoder<T> for JsonDecoder<P, T, F> {
    /// The constructor must accept every parsed value.
    open spec fn wf(&self) -> bool {
        forall|p: P| call_requires(self.0, (p,))
    }

    /// Decoding succeeds exactly when the payload parses as a `P`, and
    /// then yields a value the constructor may return for the parsed
    /// one.
    open spec fn decode_rel(&self, data: Seq<u8>, r: Option<T>) -> bool {
        match P::spec_from_json(data) {
            Some(p) => r matches Some(v) && call_ensures(self.0, (p,), v),
            None => r is None,
        }
    }

    fn decode(&self, data: &[u8]) -> (r: Result<T, DecodeError>)
        ensures
            match r {
                Ok(v) => self.decode_rel(data@, Some(v)),
                Err(_) => self.decode_rel(data@, None),
            },
    {
        match P::from_json(data) {
            Ok(p) => Ok((self.0)(p)),
            Err(e) => Err(e),
        }
    }
}

/// Feed one decode outcome into the command queue: a decoded value is
/// appended at the back; a decode failure leaves the queue untouched
/// and is reported to the caller, whose only duty is to log it.
pub fn deliver<T>(decoded: Result<T, DecodeError>, queue: &mut CommandQueue<T>) -> (r: Result<
    (),
    DecodeError,
>)
    ensures
        match decoded {
            Ok(v) => r is Ok && final(queue)@ =~= old(queue)@.push(v),
            Err(_) => r is Err && final(queue)@ == old(queue)@,
        },
{
    match decoded {
        Ok(v) => {
            queue.push(v);
            Ok(())
        },
        Err(e) => Err(e),
    }
}

/// The sink a command registration installs: decodes each delivered
/// payload and funnels the successes into the channel's queue.
pub struct Command<T, D: Decoder<T>> {
    pub decoder: D,
    pub marker: PhantomData<T>,
}

impl<T, D: Decoder<T>> Command<T, D> {
    /// Handle one delivered payload: decode it and append the decoded
    /// command to the queue, or drop it and hand the decode error back
    /// for logging. On success the queue grows by exactly a value the
    /// decoder's relation admits for the payload; on a decode failure,
    /// which the relation must admit too, the queue stays as it was
    /// and the error never propagates further.
    pub fn send(&self, payload: &[u8], queue: &mut CommandQueue<T>) -> (r: Result<(), DecodeError>)
        requires
            self.decoder.wf(),
        ensures
            r is Ok ==> exists|v: T|
                #[trigger] self.decoder.decode_rel(payload@, Some(v)) && final(queue)@ == old(
                    queue,
                )@.push(v),
            r is Err ==> self.decoder.decode_rel(payload@, None) && final(queue)@ == old(queue)@,
    {
        let decoded = self.decoder.decode(payload);
        let ghost decoded_snapshot = decoded;
        let r = deliver(decoded, queue);
        proof {
            if let Ok(v) = decoded_snapshot {
                assert(self.decoder.decode_rel(payload@, Some(v)) && queue@ == old(queue)@.push(
                    v,
                ));
            }
        }
        r
    }
}

} // verus!
