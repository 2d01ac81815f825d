use vstd::prelude::*;
use crate::name::{Name, duplicate_name_opt, valid_name};
use crate::text::str_eq;

verus! {

/// Serialization format of a pipe message on the wire.
#[derive(Copy, Clone, Debug, PartialEq, Eq, Structural)]
pub enum Codec {
    Json,
    MessagePack,
    Cbor,
}

/// First-byte marker that tells how the rest of a frame is encoded.
#[derive(Copy, Clone, Debug, PartialEq, Eq, Structural)]
pub enum OpCode {
    Unsupported,
    AsciiEnd,
    MessagePack,
    Cbor,
}

/// Byte written before a MessagePack body.
pub const OPCODE_MESSAGE_PACK: u8 = 0x80;

/// Byte written before a CBOR body.
pub const OPCODE_CBOR: u8 = 0x81;

/// Largest byte that still marks a text (JSON) frame.
pub const OPCODE_ASCII_END: u8 = 0x7F;

pub open spec fn spec_opcode(value: u8) -> OpCode {
    if value <= 0x7F {
        OpCode::AsciiEnd
    } else if value == 0x80 {
        OpCode::MessagePack
    } else if value == 0x81 {
        OpCode::Cbor
    } else {
        OpCode::Unsupported
    }
}

impl OpCode {
    /// Classifies the first byte of a frame.
    pub fn from_byte(value: u8) -> (op: OpCode)
        ensures
            op == spec_opcode(value),
    {
        if value <= OPCODE_ASCII_END {
            OpCode::AsciiEnd
        } else if value == OPCODE_MESSAGE_PACK {
            OpCode::MessagePack
        } else if value == OPCODE_CBOR {
            OpCode::Cbor
        } else {
            OpCode::Unsupported
        }
    }
}

/// Why a frame could not be split into codec and body.
#[derive(Copy, Clone, Debug, PartialEq, Eq, Structural)]
pub enum FrameError {
    UnsupportedOpCode,
}

/// The bytes that `encode_frame` produces for a body.
pub open spec fn spec_encode_frame(codec: Codec, body: Seq<u8>) -> Seq<u8> {
    match codec {
        Codec::Json => body,
        Codec::MessagePack => seq![0x80u8] + body,
        Codec::Cbor => seq![0x81u8] + body,
    }
}

/// What `decode_frame` makes of a frame.
pub open spec fn spec_decode_frame(frame: Seq<u8>) -> Result<(Codec, Seq<u8>), FrameError> {
    if frame.len() == 0 {
        Ok((Codec::Json, frame))
    } else {
        match spec_opcode(frame[0]) {
            OpCode::AsciiEnd => Ok((Codec::Json, frame)),
            OpCode::MessagePack => Ok((Codec::MessagePack, frame.skip(1))),
            OpCode::Cbor => Ok((Codec::Cbor, frame.skip(1))),
            OpCode::Unsupported => Err(FrameError::UnsupportedOpCode),
        }
    }
}

/// Prefixes an encoded body with the opcode of its codec.
/// A JSON body is sent as it is: its first byte is ASCII.
pub fn encode_frame(codec: Codec, body: &[u8]) -> (frame: Vec<u8>)
    ensures
        frame@ == spec_encode_frame(codec, body@),
{
    let mut frame: Vec<u8> = Vec::new();
    match codec {
        Codec::Json => {},
        Codec::MessagePack => frame.push(OPCODE_MESSAGE_PACK),
        Codec::Cbor => frame.push(OPCODE_CBOR),
    }
    let ghost start = frame@;
    let mut i: usize = 0;
    while i < body.len()
        invariant
            i <= body@.len(),
            frame@ == start + body@.take(i as int),
        decreases body@.len() - i,
    {
        frame.push(body[i]);
        i = i + 1;
        assert(body@.take(i as int) == body@.take((i - 1) as int).push(body@[i - 1]));
    }
    assert(body@.take(body@.len() as int) == body@);
    frame
}

/// Splits a received frame into the codec it names and the encoded body.
pub fn decode_frame(frame: &[u8]) -> (r: Result<(Codec, Vec<u8>), FrameError>)
    ensures
        match r {
            Ok((codec, body)) => spec_decode_frame(frame@) == Ok::<(Codec, Seq<u8>), FrameError>((codec, body@)),
            Err(e) => spec_decode_frame(frame@) == Err::<(Codec, Seq<u8>), FrameError>(e),
        },
{
    let (codec, start) = if frame.len() == 0 {
        (Codec::Json, 0usize)
    } else {
        match OpCode::from_byte(frame[0]) {
            OpCode::AsciiEnd => (Codec::Json, 0usize),
            OpCode::MessagePack => (Codec::MessagePack, 1usize),
            OpCode::Cbor => (Codec::Cbor, 1usize),
            OpCode::Unsupported => {
                return Err(FrameError::UnsupportedOpCode);
            },
        }
    };
    let mut body: Vec<u8> = Vec::new();
    let mut i: usize = start;
    while i < frame.len()
        invariant
            start <= i <= frame@.len(),
            body@ == frame@.subrange(start as int, i as int),
        decreases frame@.len() - i,
    {
        body.push(frame[i]);
        i = i + 1;
    }
    assert(frame@.skip(start as int) == frame@.subrange(start as int, frame@.len() as int));
    assert(start == 0 ==> frame@.subrange(0, frame@.len() as int) == frame@);
    Ok((codec, body))
}

/// Decoding a frame gives back the codec and the body that were encoded,
/// for the binary codecs always, and for JSON whenever the body starts
/// with an ASCII byte (as every JSON text does) or is empty.
pub proof fn lemma_frame_roundtrip(codec: Codec, body: Seq<u8>)
    requires
        codec == Codec::Json ==> (body.len() == 0 || body[0] <= 0x7F),
    ensures
        spec_decode_frame(spec_encode_frame(codec, body)) == Ok::<(Codec, Seq<u8>), FrameError>((codec, body)),
{
    match codec {
        Codec::Json => {},
        Codec::MessagePack => {
            assert((seq![0x80u8] + body).skip(1) == body);
        },
        Codec::Cbor => {
            assert((seq![0x81u8] + body).skip(1) == body);
        },
    }
}

/// The default codec of a pipe is JSON.
pub fn default_codec() -> (c: Codec)
    ensures
        c == Codec::Json,
{
    Codec::Json
}

impl Default for Codec {
    fn default() -> (c: Self)
        ensures
            c == Codec::Json,
    {
        Codec::Json
    }
}

/// The name of a codec.
pub open spec fn spec_codec_name(c: Codec) -> Seq<char> {
    match c {
        Codec::Json => "Json"@,
        Codec::MessagePack => "MessagePack"@,
        Codec::Cbor => "Cbor"@,
    }
}

impl Codec {
    /// The name of the codec.
    pub fn as_str(&self) -> (s: &'static str)
        ensures
            s@ == spec_codec_name(*self),
    {
        match self {
            Codec::Json => "Json",
            Codec::MessagePack => "MessagePack",
            Codec::Cbor => "Cbor",
        }
    }

    /// The codec of a given name.
    pub fn from_name(name: &str) -> (r: Option<Codec>)
        ensures
            r matches Some(c) ==> spec_codec_name(c) == name@,
            r is None ==> forall|c: Codec| spec_codec_name(c) != name@,
    {
        if str_eq(name, "Json") {
            Some(Codec::Json)
        } else if str_eq(name, "MessagePack") {
            Some(Codec::MessagePack)
        } else if str_eq(name, "Cbor") {
            Some(Codec::Cbor)
        } else {
            proof {
                assert forall|c: Codec| spec_codec_name(c) != name@ by {
                    match c {
                        Codec::Json => {},
                        Codec::MessagePack => {},
                        Codec::Cbor => {},
                    }
                }
            }
            None
        }
    }
}

/// The names of the codecs are distinct, so a name read back gives the
/// codec that was written.
pub proof fn lemma_codec_name_roundtrip(a: Codec, b: Codec)
    ensures
        spec_codec_name(a) == spec_codec_name(b) ==> a == b,
{
    reveal_strlit("Json");
    reveal_strlit("MessagePack");
    reveal_strlit("Cbor");
    if a != b {
        assert(spec_codec_name(a)[0] != spec_codec_name(b)[0]);
    }
}

/// An instant, as seconds and nanoseconds since the Unix epoch.
#[derive(Copy, Clone, Debug, PartialEq, Eq, Structural)]
pub struct Timestamp {
    pub seconds: i64,
    pub nanos: u32,
}

/// Where the bytes of a payload are kept.
#[derive(Copy, Clone, Debug, PartialEq, Eq, Structural)]
pub enum StorageType {
    /// Inside the message itself.
    Passthrough,
    /// In an object storage, under the payload's model and path.
    S3,
}

/// Where a reply to a message goes: the inbox to answer to, and the model
/// that the reply is about.
#[derive(Debug)]
pub struct PipeReply {
    pub inbox: String,
    pub target: Option<Name>,
}

pub open spec fn opt_name_view(n: Option<Name>) -> Option<Seq<char>> {
    match n {
        Some(n) => Some(n@),
        None => None,
    }
}

impl PipeReply {
    /// The view of a reply: its inbox and target.
    pub open spec fn spec_view(&self) -> (Seq<char>, Option<Seq<char>>) {
        (self.inbox@, opt_name_view(self.target))
    }

    /// A reply to `inbox` about the model that `target` names, where it
    /// names one; a target that is no valid name is dropped.
    pub fn from_parts(inbox: String, target: Option<String>) -> (r: PipeReply)
        ensures
            r.inbox@ == inbox@,
            opt_name_view(r.target) == (match target {
                Some(t) => if valid_name(t@) {
                    Some(t@)
                } else {
                    None
                },
                None => None,
            }),
    {
        let target = match target {
            Some(t) => match Name::parse(t.as_str()) {
                Ok(name) => Some(name),
                Err(_) => None,
            },
            None => None,
        };
        PipeReply { inbox, target }
    }

    /// A copy of the reply.
    pub fn duplicate(&self) -> (r: PipeReply)
        ensures
            r.spec_view() == self.spec_view(),
    {
        PipeReply { inbox: self.inbox.clone(), target: duplicate_name_opt(&self.target) }
    }
}

pub open spec fn opt_reply_view(r: Option<PipeReply>) -> Option<(Seq<char>, Option<Seq<char>>)> {
    match r {
        Some(r) => Some(r.spec_view()),
        None => None,
    }
}

/// A named piece of data that travels with a message: inline, or stored
/// elsewhere under a model and a path.
#[derive(Debug)]
pub struct PipePayload<Value> {
    pub key: String,
    pub model: Option<Name>,
    pub path: Option<String>,
    pub storage: Option<StorageType>,
    pub value: Option<Value>,
}

pub open spec fn opt_string_view(s: Option<String>) -> Option<Seq<char>> {
    match s {
        Some(s) => Some(s@),
        None => None,
    }
}

impl<Value> PipePayload<Value> {
    /// Where the payload is: its key, model, path and storage type.
    pub open spec fn spec_place(&self) -> (Seq<char>, Option<Seq<char>>, Option<Seq<char>>, Option<StorageType>) {
        (self.key@, opt_name_view(self.model), opt_string_view(self.path), self.storage)
    }

    /// A payload with the given key and value, not yet stored anywhere.
    pub fn new(key: String, value: Option<Value>) -> (p: Self)
        ensures
            p.key@ == key@,
            p.model is None,
            p.path is None,
            p.storage is None,
            p.value == value,
    {
        PipePayload { key, model: None, path: None, storage: None, value }
    }

    /// The payload without its value, where it is kept.
    pub fn drop_value<T>(self) -> (p: PipePayload<T>)
        ensures
            p.spec_place() == self.spec_place(),
            p.value is None,
    {
        PipePayload { key: self.key, model: self.model, path: self.path, storage: self.storage, value: None }
    }

    /// A copy of where the payload is, without its value.
    pub fn as_dropped<T>(&self) -> (p: PipePayload<T>)
        ensures
            p.spec_place() == self.spec_place(),
            p.value is None,
    {
        PipePayload {
            key: self.key.clone(),
            model: duplicate_name_opt(&self.model),
            path: match &self.path {
                Some(s) => Some(s.clone()),
                None => None,
            },
            storage: self.storage,
            value: None,
        }
    }

    /// The value of the payload, where it is inline.
    pub fn value(&self) -> (v: Option<&Value>)
        ensures
            v is Some <==> self.value is Some,
            v matches Some(x) ==> self.value == Some(*x),
    {
        match &self.value {
            Some(x) => Some(x),
            None => None,
        }
    }
}

/// A message of a pipe: its payloads, where its reply goes, when it was
/// made, and its value.
#[derive(Debug)]
pub struct PipeMessage<Value, Payload> {
    pub payloads: Vec<PipePayload<Payload>>,
    pub reply: Option<PipeReply>,
    pub timestamp: Timestamp,
    pub value: Value,
}

impl<Value, Payload> PipeMessage<Value, Payload> {
    /// A message with no payloads and no reply, made at `now`.
    pub fn new(value: Value, now: Timestamp) -> (m: Self)
        ensures
            m.payloads@.len() == 0,
            m.reply is None,
            m.timestamp == now,
            m.value == value,
    {
        PipeMessage { payloads: Vec::new(), reply: None, timestamp: now, value }
    }

    /// A message with payloads and no reply, made at `now`.
    pub fn with_payloads(payloads: Vec<PipePayload<Payload>>, value: Value, now: Timestamp) -> (m: Self)
        ensures
            m.payloads == payloads,
            m.reply is None,
            m.timestamp == now,
            m.value == value,
    {
        PipeMessage { payloads, reply: None, timestamp: now, value }
    }

    /// A message that answers `request`: it keeps the request's reply.
    pub fn with_request<P, V>(
        request: &PipeMessage<V, P>,
        payloads: Vec<PipePayload<Payload>>,
        value: Value,
        now: Timestamp,
    ) -> (m: Self)
        ensures
            m.payloads == payloads,
            opt_reply_view(m.reply) == opt_reply_view(request.reply),
            m.timestamp == now,
            m.value == value,
    {
        let reply = match &request.reply {
            Some(r) => Some(r.duplicate()),
            None => None,
        };
        PipeMessage { payloads, reply, timestamp: now, value }
    }

    /// Sets the inbox that replies go to; an empty inbox drops the reply.
    pub fn with_reply_inbox(self, inbox: String) -> (m: Self)
        ensures
            inbox@.len() == 0 ==> m.reply is None,
            inbox@.len() > 0 ==> (m.reply matches Some(r) && r.inbox@ == inbox@ && r.target is None),
            m.payloads == self.payloads,
            m.timestamp == self.timestamp,
            m.value == self.value,
    {
        if inbox.unicode_len() != 0 {
            PipeMessage {
                payloads: self.payloads,
                reply: Some(PipeReply { inbox, target: None }),
                timestamp: self.timestamp,
                value: self.value,
            }
        } else {
            self.drop_reply()
        }
    }

    /// Sets the target of the reply, where there is a reply without one.
    pub fn with_reply_target(self, target: &Option<Name>) -> (m: Self)
        ensures
            self.reply is None ==> m.reply is None,
            self.reply matches Some(r) ==> (m.reply matches Some(r2) && r2.inbox@ == r.inbox@
                && opt_name_view(r2.target) == (if r.target is None {
                opt_name_view(*target)
            } else {
                opt_name_view(r.target)
            })),
            m.payloads == self.payloads,
            m.timestamp == self.timestamp,
            m.value == self.value,
    {
        let PipeMessage { payloads, reply, timestamp, value } = self;
        let reply = match reply {
            Some(r) => {
                let PipeReply { inbox, target: current } = r;
                let t = match current {
                    Some(t) => Some(t),
                    None => duplicate_name_opt(target),
                };
                Some(PipeReply { inbox, target: t })
            },
            None => None,
        };
        PipeMessage { payloads, reply, timestamp, value }
    }

    /// Sets the time of the message.
    pub fn with_timestamp(self, timestamp: Timestamp) -> (m: Self)
        ensures
            m.timestamp == timestamp,
            m.payloads == self.payloads,
            m.reply == self.reply,
            m.value == self.value,
    {
        PipeMessage { payloads: self.payloads, reply: self.reply, timestamp, value: self.value }
    }

    /// Drops the reply.
    pub fn drop_reply(self) -> (m: Self)
        ensures
            m.reply is None,
            m.payloads == self.payloads,
            m.timestamp == self.timestamp,
            m.value == self.value,
    {
        PipeMessage { payloads: self.payloads, reply: None, timestamp: self.timestamp, value: self.value }
    }

    /// The time of the message.
    pub fn timestamp(&self) -> (t: Timestamp)
        ensures
            t == self.timestamp,
    {
        self.timestamp
    }

    /// The message with the values of its payloads dropped.
    pub fn drop_payloads<P>(self) -> (m: PipeMessage<Value, P>)
        ensures
            m.payloads@.len() == self.payloads@.len(),
            forall|i: int|
                0 <= i < m.payloads@.len() ==> (#[trigger] m.payloads@[i]).spec_place()
                    == self.payloads@[i].spec_place() && m.payloads@[i].value is None,
            m.reply == self.reply,
            m.timestamp == self.timestamp,
            m.value == self.value,
    {
        let PipeMessage { payloads, reply, timestamp, value } = self;
        let mut out: Vec<PipePayload<P>> = Vec::new();
        let mut i: usize = 0;
        while i < payloads.len()
            invariant
                i <= payloads@.len(),
                out@.len() == i,
                forall|j: int|
                    0 <= j < i ==> (#[trigger] out@[j]).spec_place() == payloads@[j].spec_place()
                        && out@[j].value is None,
            decreases payloads@.len() - i,
        {
            out.push(payloads[i].as_dropped());
            i = i + 1;
        }
        PipeMessage { payloads: out, reply, timestamp, value }
    }
}

/// A message as it may arrive: its time may be missing.
#[derive(Debug)]
pub struct MaybePipeMessage<Value, Payload> {
    pub payloads: Vec<PipePayload<Payload>>,
    pub reply: Option<PipeReply>,
    pub timestamp: Option<Timestamp>,
    pub value: Value,
}

impl<Value, Payload> MaybePipeMessage<Value, Payload> {
    /// The message, timed at `now` where it carries no time.
    pub fn into_message(self, now: Timestamp) -> (m: PipeMessage<Value, Payload>)
        ensures
            m.payloads == self.payloads,
            m.reply == self.reply,
            m.timestamp == (match self.timestamp {
                Some(t) => t,
                None => now,
            }),
            m.value == self.value,
    {
        PipeMessage {
            payloads: self.payloads,
            reply: self.reply,
            timestamp: match self.timestamp {
                Some(t) => t,
                None => now,
            },
            value: self.value,
        }
    }
}

/// None, one or several messages.
#[derive(Debug)]
pub enum PipeMessages<Value, Payload> {
    Empty,
    Single(PipeMessage<Value, Payload>),
    Batch(Vec<PipeMessage<Value, Payload>>),
}

impl<Value, Payload> PipeMessages<Value, Payload> {
    /// The messages, in order.
    pub open spec fn spec_messages(&self) -> Seq<PipeMessage<Value, Payload>> {
        match self {
            PipeMessages::Empty => Seq::empty(),
            PipeMessages::Single(m) => seq![*m],
            PipeMessages::Batch(ms) => ms@,
        }
    }

    /// The messages, in order.
    pub fn into_vec(self) -> (v: Vec<PipeMessage<Value, Payload>>)
        ensures
            v@ == self.spec_messages(),
    {
        match self {
            PipeMessages::Empty => Vec::new(),
            PipeMessages::Single(m) => {
                let mut v = Vec::new();
                v.push(m);
                proof {
                    assert(v@ =~= seq![m]);
                }
                v
            },
            PipeMessages::Batch(ms) => ms,
        }
    }

    /// Are there no messages?
    pub fn is_empty(&self) -> (r: bool)
        ensures
            r == (self.spec_messages().len() == 0),
    {
        match self {
            PipeMessages::Empty => true,
            PipeMessages::Single(_) => false,
            PipeMessages::Batch(ms) => ms.len() == 0,
        }
    }

    /// The number of messages.
    pub fn len(&self) -> (n: usize)
        ensures
            n == self.spec_messages().len(),
    {
        match self {
            PipeMessages::Empty => 0,
            PipeMessages::Single(_) => 1,
            PipeMessages::Batch(ms) => ms.len(),
        }
    }
}

/// The number of messages agrees with their list, and there are none
/// exactly when the count is zero.
pub proof fn lemma_messages_len_is_empty<Value, Payload>(m: PipeMessages<Value, Payload>)
    ensures
        (m.spec_messages().len() == 0) <==> (m is Empty || (m matches PipeMessages::Batch(v) && v@.len() == 0)),
        m is Single ==> m.spec_messages().len() == 1,
{
}

/// Where a payload that is being sent on stands, as found among the
/// payloads of the input messages: its model and storage type.
pub open spec fn spec_find_payload<V, P>(messages: Seq<PipeMessage<V, P>>, key: Seq<char>) -> Option<(Option<Seq<char>>, Option<StorageType>)>
    decreases messages.len(),
{
    if messages.len() == 0 {
        None
    } else {
        match spec_find_in(messages.last().payloads@, key) {
            Some(found) => Some(found),
            None => spec_find_payload(messages.drop_last(), key),
        }
    }
}

/// The model and storage type of the last payload with `key` in a list.
pub open spec fn spec_find_in<P>(payloads: Seq<PipePayload<P>>, key: Seq<char>) -> Option<(Option<Seq<char>>, Option<StorageType>)>
    decreases payloads.len(),
{
    if payloads.len() == 0 {
        None
    } else if payloads.last().key@ == key {
        Some((opt_name_view(payloads.last().model), payloads.last().storage))
    } else {
        spec_find_in(payloads.drop_last(), key)
    }
}

fn find_in<P>(payloads: &Vec<PipePayload<P>>, key: &str) -> (r: Option<(Option<Name>, Option<StorageType>)>)
    ensures
        match (r, spec_find_in(payloads@, key@)) {
            (Some((m, s)), Some((m2, s2))) => opt_name_view(m) == m2 && s == s2,
            (None, None) => true,
            _ => false,
        },
{
    proof {
        assert(payloads@.take(payloads@.len() as int) =~= payloads@);
    }
    let mut i: usize = payloads.len();
    while i > 0
        invariant
            i <= payloads@.len(),
            spec_find_in(payloads@, key@) == spec_find_in(payloads@.take(i as int), key@),
        decreases i,
    {
        let j = i - 1;
        proof {
            assert(payloads@.take(i as int).drop_last() =~= payloads@.take(j as int));
            assert(payloads@.take(i as int).last() == payloads@[j as int]);
        }
        if str_eq(payloads[j].key.as_str(), key) {
            return Some((duplicate_name_opt(&payloads[j].model), payloads[j].storage));
        }
        i = j;
    }
    proof {
        assert(payloads@.take(0) =~= Seq::<PipePayload<P>>::empty());
    }
    None
}

/// The model and storage type under which the input messages last carried
/// a payload with `key`: the last such payload of the last message that
/// has one, as a map from keys to payloads built in order keeps it.
pub fn find_payload<V, P>(messages: &Vec<PipeMessage<V, P>>, key: &str) -> (r: Option<(Option<Name>, Option<StorageType>)>)
    ensures
        match (r, spec_find_payload(messages@, key@)) {
            (Some((m, s)), Some((m2, s2))) => opt_name_view(m) == m2 && s == s2,
            (None, None) => true,
            _ => false,
        },
{
    proof {
        assert(messages@.take(messages@.len() as int) =~= messages@);
    }
    let mut i: usize = messages.len();
    while i > 0
        invariant
            i <= messages@.len(),
            spec_find_payload(messages@, key@) == spec_find_payload(messages@.take(i as int), key@),
        decreases i,
    {
        let j = i - 1;
        proof {
            assert(messages@.take(i as int).drop_last() =~= messages@.take(j as int));
            assert(messages@.take(i as int).last() == messages@[j as int]);
        }
        match find_in(&messages[j].payloads, key) {
            Some(found) => {
                return Some(found);
            },
            None => {},
        }
        i = j;
    }
    None
}

/// What happens to a payload when a message is sent on.
#[derive(Debug)]
pub enum DumpPlan<P> {
    /// It stays where an input message left it, in the same storage: only
    /// where it is is sent.
    Keep(PipePayload<P>),
    /// It travels inline.
    Inline(PipePayload<P>),
    /// Its value is stored under the model; the payload then says where.
    Upload { model: Name, key: String, value: P },
    /// It has nowhere to go and is dropped.
    Drop,
}

/// What happens to a payload when a message is sent on: where the input
/// messages or the payload itself name a model, and name the storage type
/// of the next storage, the payload stays there; else it travels inline
/// into a pass-through storage, or is uploaded into an object storage
/// under the model of the message or of the storage, and dropped where
/// there is no such model or no value.
pub fn dump_plan<P>(
    payload: PipePayload<P>,
    last: Option<(Option<Name>, Option<StorageType>)>,
    next_storage: StorageType,
    model: Option<Name>,
    storage_model: Option<Name>,
) -> (r: DumpPlan<P>)
    ensures
        ({
            let last_model = match last {
                Some((Some(m), _)) => Some(m@),
                _ => opt_name_view(payload.model),
            };
            let last_storage = match last {
                Some((_, Some(s))) => Some(s),
                _ => payload.storage,
            };
            if last_model is Some && last_storage == Some(next_storage) {
                r matches DumpPlan::Keep(p) && p.key@ == payload.key@ && opt_name_view(p.model)
                    == last_model && opt_string_view(p.path) == opt_string_view(payload.path) && p.storage
                    == last_storage && p.value is None
            } else if next_storage == StorageType::Passthrough {
                r matches DumpPlan::Inline(p) && p.key@ == payload.key@ && p.model is None && p.path is None
                    && p.storage == Some(StorageType::Passthrough) && p.value == payload.value
            } else {
                let chosen = match model {
                    Some(m) => Some(m@),
                    None => opt_name_view(storage_model),
                };
                if chosen is Some && payload.value is Some {
                    r matches DumpPlan::Upload { model: m, key: k, value: v } && Some(m@) == chosen && k@
                        == payload.key@ && Some(v) == payload.value
                } else {
                    r is Drop
                }
            }
        }),
{
    let PipePayload { key, model: own_model, path, storage: own_storage, value } = payload;
    let (last_model, last_storage) = match last {
        Some((m, s)) => (m, s),
        None => (None, None),
    };
    let last_model = match last_model {
        Some(m) => Some(m),
        None => own_model,
    };
    let last_storage = match last_storage {
        Some(s) => Some(s),
        None => own_storage,
    };
    let same_storage = match last_storage {
        Some(s) => s == next_storage,
        None => false,
    };
    if last_model.is_some() && same_storage {
        return DumpPlan::Keep(PipePayload { key, model: last_model, path, storage: last_storage, value: None });
    }
    match next_storage {
        StorageType::Passthrough => DumpPlan::Inline(
            PipePayload { key, model: None, path: None, storage: Some(StorageType::Passthrough), value },
        ),
        StorageType::S3 => {
            let chosen = match model {
                Some(m) => Some(m),
                None => storage_model,
            };
            match (chosen, value) {
                (Some(m), Some(v)) => DumpPlan::Upload { model: m, key, value: v },
                _ => DumpPlan::Drop,
            }
        },
    }
}

/// The payload after its value was uploaded under `model` at `path`.
pub fn uploaded<P>(model: Name, key: String, path: String) -> (p: PipePayload<P>)
    ensures
        p.key@ == key@,
        opt_name_view(p.model) == Some(model@),
        p.path matches Some(x) && x@ == path@,
        p.storage == Some(StorageType::S3),
        p.value is None,
{
    PipePayload { key, model: Some(model), path: Some(path), storage: Some(StorageType::S3), value: None }
}

/// Where the value of a received payload comes from.
#[derive(Debug)]
pub enum LoadPlan<P> {
    /// It is inline, or absent.
    Inline(Option<P>),
    /// It is fetched from the object storage under the model and path.
    Fetch { model: Name, path: String },
    /// The payload says nothing of where it is kept.
    UnknownStorage,
}

/// Where the value of a received payload comes from: from the message in a
/// pass-through storage; from the object storage where the payload names
/// both a model and a path, and nowhere where it lacks either.
pub fn load_plan<P>(storage: Option<StorageType>, model: Option<Name>, path: Option<String>, value: Option<P>) -> (r: LoadPlan<P>)
    ensures
        storage is None ==> r is UnknownStorage,
        storage == Some(StorageType::Passthrough) ==> (r matches LoadPlan::Inline(v) && v == value),
        storage == Some(StorageType::S3) && model is Some && path is Some ==> (r matches LoadPlan::Fetch {
            model: m,
            path: p,
        } && m@ == model->0@ && p@ == path->0@),
        storage == Some(StorageType::S3) && !(model is Some && path is Some) ==> (r matches LoadPlan::Inline(
            v,
        ) && v is None),
{
    match storage {
        None => LoadPlan::UnknownStorage,
        Some(StorageType::Passthrough) => LoadPlan::Inline(value),
        Some(StorageType::S3) => match (model, path) {
            (Some(m), Some(p)) => LoadPlan::Fetch { model: m, path: p },
            _ => LoadPlan::Inline(None),
        },
    }
}


} // verus!
