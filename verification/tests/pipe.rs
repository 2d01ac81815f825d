use dash::function::connector::{Connector, ConnectorArgs};
use dash::function::{BatchCall, BatchStep, chunks, num_rows, ColumnShape, FunctionError, OwnedFunctionBuilder, OwnedFunctionBuilderArgs, StatelessRemoteFunction, DELTA_CHUNK_SIZE};
use dash::message::{Codec, DumpPlan, FrameError, LoadPlan, MaybePipeMessage, OpCode, PipeMessage, PipeMessages, PipePayload, PipeReply, StorageType, Timestamp, decode_frame, default_codec, dump_plan, encode_frame, find_payload, load_plan, uploaded};
use dash::name::Name;
use dash::python_function::FunctionArgs;
use dash::storage_connector::storage_connector_flags;

fn now() -> Timestamp {
    Timestamp { seconds: 1_700_000_000, nanos: 0 }
}

#[test]
fn frames_round_trip() {
    let body = br#"{"a":1}"#;
    let frame = encode_frame(Codec::Json, body);
    assert_eq!(frame, body.to_vec());
    assert_eq!(decode_frame(&frame).unwrap(), (Codec::Json, body.to_vec()));
    let frame = encode_frame(Codec::MessagePack, &[1, 2]);
    assert_eq!(frame, vec![0x80, 1, 2]);
    assert_eq!(decode_frame(&frame).unwrap(), (Codec::MessagePack, vec![1, 2]));
    let frame = encode_frame(Codec::Cbor, &[]);
    assert_eq!(decode_frame(&frame).unwrap(), (Codec::Cbor, vec![]));
    assert_eq!(decode_frame(&[0x90, 1]).unwrap_err(), FrameError::UnsupportedOpCode);
    assert_eq!(decode_frame(&[]).unwrap(), (Codec::Json, vec![]));
}

#[test]
fn opcodes_and_codec_names() {
    assert_eq!(OpCode::from_byte(0x00), OpCode::AsciiEnd);
    assert_eq!(OpCode::from_byte(0x7F), OpCode::AsciiEnd);
    assert_eq!(OpCode::from_byte(0x80), OpCode::MessagePack);
    assert_eq!(OpCode::from_byte(0x81), OpCode::Cbor);
    assert_eq!(OpCode::from_byte(0xFF), OpCode::Unsupported);
    assert_eq!(default_codec(), Codec::Json);
    assert_eq!(Codec::default(), Codec::Json);
    assert_eq!(Codec::MessagePack.as_str(), "MessagePack");
    assert_eq!(Codec::from_name("Cbor"), Some(Codec::Cbor));
    assert_eq!(Codec::from_name("cbor"), None);
}

#[test]
fn messages_count() {
    let empty: PipeMessages<u32, Vec<u8>> = PipeMessages::Empty;
    assert!(empty.is_empty());
    assert_eq!(empty.len(), 0);
    let single: PipeMessages<u32, Vec<u8>> = PipeMessages::Single(PipeMessage::new(1, now()));
    assert_eq!(single.len(), 1);
    assert!(!single.is_empty());
    assert_eq!(single.into_vec().len(), 1);
    let batch: PipeMessages<u32, Vec<u8>> = PipeMessages::Batch(vec![]);
    assert!(batch.is_empty());
}

#[test]
fn replies() {
    let m: PipeMessage<u32, Vec<u8>> = PipeMessage::new(1, now()).with_reply_inbox("inbox".to_string());
    assert_eq!(m.reply.as_ref().unwrap().inbox, "inbox");
    let target = Some(Name::parse("model").unwrap());
    let m = m.with_reply_target(&target);
    assert_eq!(m.reply.as_ref().unwrap().target.as_ref().unwrap().as_str(), "model");
    let other = Some(Name::parse("other").unwrap());
    let m = m.with_reply_target(&other);
    assert_eq!(m.reply.as_ref().unwrap().target.as_ref().unwrap().as_str(), "model");
    let answer: PipeMessage<u8, Vec<u8>> = PipeMessage::with_request(&m, vec![], 2, now());
    assert_eq!(answer.reply.unwrap().inbox, "inbox");
    let m = m.with_reply_inbox(String::new());
    assert!(m.reply.is_none());
    let later = Timestamp { seconds: 1, nanos: 2 };
    assert_eq!(m.with_timestamp(later).timestamp(), later);
}

#[test]
fn payload_plans() {
    let p: PipePayload<Vec<u8>> = PipePayload::new("img".into(), Some(vec![1]));
    match dump_plan(p, None, StorageType::Passthrough, None, None) {
        DumpPlan::Inline(p) => assert_eq!(p.value, Some(vec![1])),
        _ => panic!("expected inline"),
    }
    let p: PipePayload<Vec<u8>> = PipePayload::new("img".into(), Some(vec![1]));
    let model = Name::parse("m").unwrap();
    match dump_plan(p, None, StorageType::S3, Some(model), None) {
        DumpPlan::Upload { model, key, value } => {
            assert_eq!(model.as_str(), "m");
            assert_eq!(key, "img");
            assert_eq!(value, vec![1]);
        }
        _ => panic!("expected upload"),
    }
    let p: PipePayload<Vec<u8>> = PipePayload::new("img".into(), Some(vec![1]));
    assert!(matches!(dump_plan(p, None, StorageType::S3, None, None), DumpPlan::Drop));
    let p: PipePayload<Vec<u8>> = PipePayload::new("img".into(), Some(vec![1]));
    let last = Some((Some(Name::parse("m").unwrap()), Some(StorageType::S3)));
    match dump_plan(p, last, StorageType::S3, None, None) {
        DumpPlan::Keep(p) => assert!(p.value.is_none()),
        _ => panic!("expected keep"),
    }
    let up: PipePayload<Vec<u8>> = uploaded(Name::parse("m").unwrap(), "img".into(), "m/img".into());
    assert_eq!(up.storage, Some(StorageType::S3));
    assert!(matches!(load_plan::<Vec<u8>>(None, None, None, None), LoadPlan::UnknownStorage));
    assert!(matches!(load_plan::<Vec<u8>>(Some(StorageType::S3), None, Some("p".into()), None), LoadPlan::Inline(None)));
    let messages: Vec<PipeMessage<u8, Vec<u8>>> = vec![
        PipeMessage::with_payloads(vec![PipePayload::new("a".into(), None)], 1, now()),
        PipeMessage::with_payloads(vec![up], 2, now()),
    ];
    let found = find_payload(&messages, "img").unwrap();
    assert_eq!(found.1, Some(StorageType::S3));
    assert!(find_payload(&messages, "zzz").is_none());
    let dropped: PipeMessage<u8, ()> = PipeMessage::with_payloads(vec![PipePayload::new("k".into(), Some(vec![1u8]))], 0, now()).drop_payloads();
    assert!(dropped.payloads[0].value.is_none());
    assert_eq!(dropped.payloads[0].key, "k");
}

#[test]
fn maybe_message_takes_now() {
    let m: MaybePipeMessage<u8, Vec<u8>> = MaybePipeMessage { payloads: vec![], reply: None, timestamp: None, value: 3 };
    assert_eq!(m.into_message(now()).timestamp, now());
}

#[test]
fn functions() {
    let args = OwnedFunctionBuilderArgs::new(5u32);
    assert_eq!(*OwnedFunctionBuilder::try_new(&args).unwrap().0, 5);
    let empty: OwnedFunctionBuilderArgs<u32> = OwnedFunctionBuilderArgs::from_arg_matches();
    assert!(matches!(OwnedFunctionBuilder::try_new(&empty), Err(FunctionError::EmptyOwnedFunction)));
    let delta = StatelessRemoteFunction { publisher: () }.into_delta("in", "out");
    assert_eq!(delta.chunk_size, DELTA_CHUNK_SIZE);
    assert_eq!(delta.chunk_size, 8);
    assert_eq!(chunks(20, 8), vec![(0, 8), (8, 8), (16, 4)]);
    assert_eq!(chunks(16, 8), vec![(0, 8), (8, 8)]);
    assert!(chunks(0, 8).is_empty());
    assert_eq!(num_rows(&vec![ColumnShape::Scalar]).unwrap(), 1);
    assert_eq!(num_rows(&vec![ColumnShape::Array(3), ColumnShape::Scalar]).unwrap(), 3);
    assert!(matches!(num_rows(&vec![ColumnShape::Array(0), ColumnShape::Array(0)]), Err(FunctionError::EmptyInputs)));
    assert!(matches!(num_rows(&vec![]), Err(FunctionError::EmptyInputs)));
}

#[test]
fn connector_paces_ticks() {
    let mut c = Connector::new(ConnectorArgs { interval_ms: Some(100) });
    assert_eq!(c.tick_wait(0), 0);
    assert_eq!(c.tick_wait(50_000_000), 50_000_000);
    assert_eq!(c.tick_wait(500_000_000), 0);
    assert_eq!(c.next_iteration, 3);
    let mut idle = Connector::new(ConnectorArgs { interval_ms: None });
    assert_eq!(idle.tick_wait(0), 0);
    assert_eq!(idle.next_iteration, 0);
}

#[test]
fn python_and_storage_connector_args() {
    assert_eq!(FunctionArgs::default_python_tick_method(), "tick");
    assert_eq!(FunctionArgs::default_python_tick_method_str(), "tick");
    assert_eq!(FunctionArgs::with_default_tick("main.py".into()).python_tick_method, "tick");
    let flags = storage_connector_flags();
    assert!(!flags.load && !flags.store && !flags.store_metadata);
}

#[test]
fn replies_from_raw_parts() {
    let r = PipeReply::from_parts("inbox".into(), Some("model-a".into()));
    assert_eq!(r.inbox, "inbox");
    assert_eq!(r.target.map(|n| n.as_str().to_string()), Some("model-a".to_string()));
    let r = PipeReply::from_parts("inbox".into(), Some("Not A Name!".into()));
    assert!(r.target.is_none());
    let r = PipeReply::from_parts("inbox".into(), None);
    assert!(r.target.is_none());
}

#[test]
fn batch_calls_go_chunk_by_chunk_and_stop_at_the_first_error() {
    // 20 rows in chunks of 8: three calls, in row order
    let (mut call, mut step) = BatchCall::<usize>::start::<String>(&vec![ColumnShape::Array(20)], DELTA_CHUNK_SIZE).unwrap();
    let mut seen = vec![];
    loop {
        match step {
            BatchStep::Call(offset, len) => {
                seen.push((offset, len));
                step = call.on_result(Ok((offset..offset + len).collect()));
            },
            BatchStep::Done => break,
            BatchStep::Failed(_) => panic!("no error expected"),
        }
    }
    assert_eq!(seen, vec![(0, 8), (8, 8), (16, 4)]);
    assert_eq!(call.outputs, (0..20).collect::<Vec<_>>());

    let (mut call, step) = BatchCall::<usize>::start::<String>(&vec![ColumnShape::Array(20)], 8).unwrap();
    assert!(matches!(step, BatchStep::Call(0, 8)));
    assert!(matches!(call.on_result::<String>(Ok(vec![1])), BatchStep::Call(8, 8)));
    match call.on_result(Err("boom".to_string())) {
        BatchStep::Failed(e) => assert_eq!(e, "boom"),
        _ => panic!("expected the error"),
    }
    assert_eq!(call.done, 1);
    assert!(matches!(
        BatchCall::<usize>::start::<String>(&vec![ColumnShape::Array(0), ColumnShape::Array(0)], 8),
        Err(FunctionError::EmptyInputs)
    ));
}
