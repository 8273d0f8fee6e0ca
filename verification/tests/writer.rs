use super_simple_upload::writer::{FileWriter, WriteError, WriterAction, WriterEvent};

/// A file in memory, and what is to go wrong with it.
struct Sink {
    created: bool,
    content: Vec<u8>,
    appends: usize,
    flushed: bool,
    fail_create: bool,
    fail_append_at: Option<usize>,
    fail_flush: bool,
}

impl Sink {
    fn new() -> Sink {
        Sink {
            created: false,
            content: vec![0xAA, 0xBB],
            appends: 0,
            flushed: false,
            fail_create: false,
            fail_append_at: None,
            fail_flush: false,
        }
    }
}

/// Does what the writer says, with `chunks` as the stream.
fn run(path: &str, chunks: Vec<Result<Vec<u8>, ()>>, sink: &mut Sink) -> Result<(), WriteError> {
    let mut stream = chunks.into_iter();
    let mut writer = FileWriter::new(path.to_string());
    loop {
        let event = match writer.action() {
            WriterAction::Create { path: asked } => {
                assert_eq!(asked, path);
                if sink.fail_create {
                    WriterEvent::Created { ok: false }
                } else {
                    sink.created = true;
                    sink.content.clear();
                    WriterEvent::Created { ok: true }
                }
            }
            WriterAction::Pull => match stream.next() {
                Some(Ok(data)) => WriterEvent::Chunk { data },
                Some(Err(())) => WriterEvent::ChunkFailed,
                None => WriterEvent::StreamEnded,
            },
            WriterAction::Append { data } => {
                if sink.fail_append_at == Some(sink.appends) {
                    WriterEvent::Written { ok: false }
                } else {
                    sink.appends += 1;
                    sink.content.extend_from_slice(data);
                    WriterEvent::Written { ok: true }
                }
            }
            WriterAction::Flush => {
                if sink.fail_flush {
                    WriterEvent::Flushed { ok: false }
                } else {
                    sink.flushed = true;
                    WriterEvent::Flushed { ok: true }
                }
            }
            WriterAction::Finish { result } => return result,
        };
        writer = writer.step(event);
    }
}

fn pattern(len: usize) -> Vec<u8> {
    (0..len).map(|i| (i * 31 + i / 251) as u8).collect()
}

fn round_trip(input: &[u8], chunk_len: usize) {
    let chunks: Vec<Result<Vec<u8>, ()>> =
        input.chunks(chunk_len).map(|c| Ok(c.to_vec())).collect();
    let mut sink = Sink::new();
    assert_eq!(run("./uploads/abcdef", chunks, &mut sink), Ok(()));
    assert!(sink.created);
    assert!(sink.flushed);
    assert_eq!(sink.content.len(), input.len());
    assert!(sink.content == input);
}

#[test]
fn round_trip_of_no_bytes() {
    round_trip(&[], 16);
    let mut sink = Sink::new();
    assert_eq!(run("./uploads/abcdef", vec![Ok(Vec::new()), Ok(Vec::new())], &mut sink), Ok(()));
    assert!(sink.content.is_empty());
}

#[test]
fn round_trip_of_one_byte() {
    round_trip(&[0x5A], 16);
}

#[test]
fn round_trip_of_a_few_chunks() {
    let input = pattern(1000);
    round_trip(&input, 1);
    round_trip(&input, 7);
    round_trip(&input, 999);
    round_trip(&input, 1000);
    round_trip(&input, 4096);
}

#[test]
fn round_trip_of_one_mebibyte() {
    let input = pattern(1024 * 1024);
    round_trip(&input, 64 * 1024);
    round_trip(&input, 1024 * 1024);
}

#[test]
fn round_trip_of_nearly_one_gibibyte() {
    // The bytes are checked and counted as they are appended, so that the
    // test holds one chunk at a time, as the writer does.
    let total: u64 = 1024 * 1024 * 1024 - 1;
    let chunk_len: u64 = 4 * 1024 * 1024;
    let base = pattern(chunk_len as usize);
    let mut writer = FileWriter::new("./uploads/abcdef".to_string());
    let mut given: u64 = 0;
    let mut written: u64 = 0;
    let mut number: u8 = 0;
    let result = loop {
        let event = match writer.action() {
            WriterAction::Create { .. } => WriterEvent::Created { ok: true },
            WriterAction::Pull => {
                if given == total {
                    WriterEvent::StreamEnded
                } else {
                    let len = chunk_len.min(total - given) as usize;
                    let mut data = base[..len].to_vec();
                    number = number.wrapping_add(1);
                    data[0] = number;
                    given += len as u64;
                    WriterEvent::Chunk { data }
                }
            }
            WriterAction::Append { data } => {
                assert_eq!(written + data.len() as u64, given);
                assert_eq!(data[0], number);
                assert!(data[1..] == base[1..data.len()]);
                written += data.len() as u64;
                WriterEvent::Written { ok: true }
            }
            WriterAction::Flush => WriterEvent::Flushed { ok: true },
            WriterAction::Finish { result } => break result,
        };
        writer = writer.step(event);
    };
    assert_eq!(result, Ok(()));
    assert_eq!(given, total);
    assert_eq!(written, total);
}

#[test]
fn old_content_is_replaced() {
    let mut sink = Sink::new();
    assert_eq!(sink.content, vec![0xAA, 0xBB]);
    assert_eq!(run("./uploads/abcdef", vec![Ok(vec![1, 2, 3])], &mut sink), Ok(()));
    assert_eq!(sink.content, vec![1, 2, 3]);
}

#[test]
fn failed_create_ends_the_work() {
    let mut sink = Sink::new();
    sink.fail_create = true;
    let result = run("./uploads/abcdef", vec![Ok(vec![1, 2, 3])], &mut sink);
    assert_eq!(result, Err(WriteError::Create));
    assert!(!sink.created);
    assert_eq!(sink.appends, 0);
    assert!(!sink.flushed);
}

#[test]
fn failed_read_ends_the_work() {
    let mut sink = Sink::new();
    let chunks = vec![Ok(vec![1, 2]), Err(()), Ok(vec![3, 4])];
    assert_eq!(run("./uploads/abcdef", chunks, &mut sink), Err(WriteError::Read));
    assert_eq!(sink.content, vec![1, 2]);
    assert_eq!(sink.appends, 1);
    assert!(!sink.flushed);
}

#[test]
fn failed_write_ends_the_work() {
    let mut sink = Sink::new();
    sink.fail_append_at = Some(1);
    let chunks = vec![Ok(vec![1, 2]), Ok(vec![3, 4]), Ok(vec![5, 6])];
    assert_eq!(run("./uploads/abcdef", chunks, &mut sink), Err(WriteError::Write));
    assert_eq!(sink.content, vec![1, 2]);
    assert_eq!(sink.appends, 1);
    assert!(!sink.flushed);
}

#[test]
fn failed_flush_ends_the_work() {
    let mut sink = Sink::new();
    sink.fail_flush = true;
    let chunks = vec![Ok(vec![1, 2])];
    assert_eq!(run("./uploads/abcdef", chunks, &mut sink), Err(WriteError::Flush));
    assert_eq!(sink.content, vec![1, 2]);
}

#[test]
fn writer_starts_with_the_file() {
    let writer = FileWriter::new("./uploads/abcde.jpg".to_string());
    assert!(matches!(writer.action(), WriterAction::Create { path: "./uploads/abcde.jpg" }));
}

#[test]
fn writer_asks_for_each_thing_in_turn() {
    let writer = FileWriter::new("p".to_string());
    let writer = writer.step(WriterEvent::Created { ok: true });
    assert!(matches!(writer.action(), WriterAction::Pull));
    let writer = writer.step(WriterEvent::Chunk { data: vec![7, 8] });
    assert!(matches!(writer.action(), WriterAction::Append { data: [7, 8] }));
    let writer = writer.step(WriterEvent::Written { ok: true });
    assert!(matches!(writer.action(), WriterAction::Pull));
    let writer = writer.step(WriterEvent::StreamEnded);
    assert!(matches!(writer.action(), WriterAction::Flush));
    let writer = writer.step(WriterEvent::Flushed { ok: true });
    assert!(matches!(writer.action(), WriterAction::Finish { result: Ok(()) }));
}

#[test]
fn report_out_of_turn_changes_nothing() {
    let writer = FileWriter::new("p".to_string());
    let writer = writer.step(WriterEvent::Chunk { data: vec![1] });
    assert!(matches!(writer.action(), WriterAction::Create { path: "p" }));
    let writer = writer.step(WriterEvent::Written { ok: false });
    assert!(matches!(writer.action(), WriterAction::Create { path: "p" }));
    let writer = writer.step(WriterEvent::StreamEnded);
    assert!(matches!(writer.action(), WriterAction::Create { path: "p" }));
    let writer = writer.step(WriterEvent::Created { ok: true });
    let writer = writer.step(WriterEvent::Created { ok: false });
    assert!(matches!(writer.action(), WriterAction::Pull));
    let writer = writer.step(WriterEvent::Flushed { ok: false });
    assert!(matches!(writer.action(), WriterAction::Pull));
    let writer = writer.step(WriterEvent::Chunk { data: vec![1] });
    let writer = writer.step(WriterEvent::Chunk { data: vec![2] });
    assert!(matches!(writer.action(), WriterAction::Append { data: [1] }));
    let writer = writer.step(WriterEvent::ChunkFailed);
    assert!(matches!(writer.action(), WriterAction::Append { data: [1] }));
}

#[test]
fn finished_writer_stays_finished() {
    let writer = FileWriter::new("p".to_string());
    let writer = writer.step(WriterEvent::Created { ok: false });
    assert!(matches!(writer.action(), WriterAction::Finish { result: Err(WriteError::Create) }));
    let writer = writer.step(WriterEvent::Created { ok: true });
    let writer = writer.step(WriterEvent::Chunk { data: vec![1] });
    let writer = writer.step(WriterEvent::Flushed { ok: true });
    assert!(matches!(writer.action(), WriterAction::Finish { result: Err(WriteError::Create) }));

    let writer = FileWriter::new("p".to_string());
    let writer = writer.step(WriterEvent::Created { ok: true });
    let writer = writer.step(WriterEvent::StreamEnded);
    let writer = writer.step(WriterEvent::Flushed { ok: true });
    let writer = writer.step(WriterEvent::Written { ok: false });
    let writer = writer.step(WriterEvent::ChunkFailed);
    assert!(matches!(writer.action(), WriterAction::Finish { result: Ok(()) }));
}
