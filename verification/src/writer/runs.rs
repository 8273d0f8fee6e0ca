//! What holds of every course that the writing of a file can take.

use vstd::prelude::*;
use crate::writer::model::{Action, Event, Stage, Writing, action_of, initial, next};

verus! {

/// The state that `start` is in after `events`, taken in order.
pub open spec fn feed(start: Writing, events: Seq<Event>) -> Writing
    decreases events.len(),
{
    if events.len() == 0 {
        start
    } else {
        next(feed(start, events.drop_last()), events.last())
    }
}

/// Whether `w` waits for `event`.
pub open spec fn awaited(w: Writing, event: Event) -> bool {
    match (w.stage, event) {
        (Stage::Creating, Event::Created { .. }) => true,
        (Stage::AwaitingChunk, Event::Chunk { .. }) => true,
        (Stage::AwaitingChunk, Event::ChunkFailed) => true,
        (Stage::AwaitingChunk, Event::StreamEnded) => true,
        (Stage::WritingChunk { .. }, Event::Written { .. }) => true,
        (Stage::Flushing, Event::Flushed { .. }) => true,
        _ => false,
    }
}

/// Whether event number `i` is one that the writer waits for when it
/// comes.
pub open spec fn in_turn_at(start: Writing, events: Seq<Event>, i: int) -> bool {
    awaited(feed(start, events.take(i)), events[i])
}

/// Whether each of `events` is one that the writer waits for when it comes:
/// the caller did what the writer said, and reported it.
pub open spec fn in_turn(start: Writing, events: Seq<Event>) -> bool {
    forall|i: int| 0 <= i < events.len() ==> #[trigger] in_turn_at(start, events, i)
}

/// The bytes of the chunks that the stream gave in `events`, in order.
pub open spec fn delivered(events: Seq<Event>) -> Seq<u8>
    decreases events.len(),
{
    if events.len() == 0 {
        Seq::empty()
    } else {
        match events.last() {
            Event::Chunk { data } => delivered(events.drop_last()) + data,
            _ => delivered(events.drop_last()),
        }
    }
}

/// The bytes of `chunks`, in order.
pub open spec fn all_bytes(chunks: Seq<Seq<u8>>) -> Seq<u8>
    decreases chunks.len(),
{
    if chunks.len() == 0 {
        Seq::empty()
    } else {
        all_bytes(chunks.drop_last()) + chunks.last()
    }
}

/// The number of bytes in `chunks`.
pub open spec fn total_len(chunks: Seq<Seq<u8>>) -> nat
    decreases chunks.len(),
{
    if chunks.len() == 0 {
        0
    } else {
        total_len(chunks.drop_last()) + chunks.last().len()
    }
}

/// What is reported while `chunks` are stored and nothing goes wrong, up to
/// the last chunk's write.
pub open spec fn chunk_events(chunks: Seq<Seq<u8>>) -> Seq<Event>
    decreases chunks.len(),
{
    if chunks.len() == 0 {
        Seq::empty().push(Event::Created { ok: true })
    } else {
        chunk_events(chunks.drop_last()).push(Event::Chunk { data: chunks.last() }).push(
            Event::Written { ok: true },
        )
    }
}

/// What is reported while `chunks` are stored and nothing goes wrong.
pub open spec fn clean_run(chunks: Seq<Seq<u8>>) -> Seq<Event> {
    chunk_events(chunks).push(Event::StreamEnded).push(Event::Flushed { ok: true })
}

/// Feeding events one after the other is feeding them all.
pub proof fn feed_push(start: Writing, events: Seq<Event>, event: Event)
    ensures
        feed(start, events.push(event)) == next(feed(start, events), event),
{
    assert(events.push(event).drop_last() == events);
}

/// The stream has given one more chunk with a `Chunk` event, and nothing
/// more with any other.
pub proof fn delivered_push(events: Seq<Event>, event: Event)
    ensures
        delivered(events.push(event)) == match event {
            Event::Chunk { data } => delivered(events) + data,
            _ => delivered(events),
        },
{
    assert(events.push(event).drop_last() == events);
}

/// A course in turn stays in turn with one more event that the writer
/// waits for.
pub proof fn in_turn_push(start: Writing, events: Seq<Event>, event: Event)
    requires
        in_turn(start, events),
        awaited(feed(start, events), event),
    ensures
        in_turn(start, events.push(event)),
{
    let longer = events.push(event);
    assert forall|i: int| 0 <= i < longer.len() implies #[trigger] in_turn_at(start, longer, i) by {
        if i < events.len() {
            assert(in_turn_at(start, events, i));
            assert(longer.take(i) == events.take(i));
        } else {
            assert(longer.take(i) == events);
        }
    }
}

/// A course of events in turn is in turn up to any point.
pub proof fn in_turn_prefix(start: Writing, events: Seq<Event>, n: int)
    requires
        in_turn(start, events),
        0 <= n <= events.len(),
    ensures
        in_turn(start, events.take(n)),
{
    assert forall|i: int| 0 <= i < n implies #[trigger] in_turn_at(start, events.take(n), i) by {
        assert(in_turn_at(start, events, i));
        assert(events.take(n).take(i) == events.take(i));
    }
}

/// While the caller does what the writer says, the file holds the bytes
/// that the stream gave, in order: all of them between two chunks, all but
/// the chunk in hand while that is written, and never a byte that the
/// stream did not give.
pub proof fn written_follows_stream(path: Seq<char>, events: Seq<Event>)
    requires
        in_turn(initial(path), events),
    ensures
        ({
            let w = feed(initial(path), events);
            &&& w.path == path
            &&& match w.stage {
                Stage::Creating => delivered(events) == w.written && w.written.len() == 0,
                Stage::WritingChunk { chunk } => delivered(events) == w.written + chunk,
                Stage::Failed { error } => w.written.is_prefix_of(delivered(events)),
                _ => delivered(events) == w.written,
            }
        }),
    decreases events.len(),
{
    if events.len() > 0 {
        let front = events.drop_last();
        in_turn_prefix(initial(path), events, events.len() - 1);
        written_follows_stream(path, front);
        assert(in_turn_at(initial(path), events, events.len() - 1));
        assert(events.take(events.len() - 1) == front);
    }
}

/// When the writer has finished without error, the file holds the bytes
/// that the stream gave, each of them and in order, and so has as many
/// bytes as the stream gave.
pub proof fn done_file_holds_stream(path: Seq<char>, events: Seq<Event>)
    requires
        in_turn(initial(path), events),
        feed(initial(path), events).stage is Done,
    ensures
        feed(initial(path), events).written == delivered(events),
        feed(initial(path), events).written.len() == delivered(events).len(),
        action_of(feed(initial(path), events)) == (Action::Finish { result: Ok(()) }),
{
    written_follows_stream(path, events);
}

/// The writer stays in the state that it has finished in, with or without
/// error.
pub proof fn finished_writer_stays(w: Writing, event: Event)
    requires
        w.stage is Done || w.stage is Failed,
    ensures
        next(w, event) == w,
{
}

/// The bytes of `chunks` are as many as `total_len` counts.
pub proof fn all_bytes_len(chunks: Seq<Seq<u8>>)
    ensures
        all_bytes(chunks).len() == total_len(chunks),
    decreases chunks.len(),
{
    if chunks.len() > 0 {
        all_bytes_len(chunks.drop_last());
    }
}

/// Up to the last chunk's write, a course in which nothing goes wrong is
/// in turn, has the stream give the bytes of `chunks`, and leaves the writer
/// waiting for the next chunk with these bytes in the file.
proof fn chunk_events_store_all(path: Seq<char>, chunks: Seq<Seq<u8>>)
    ensures
        in_turn(initial(path), chunk_events(chunks)),
        delivered(chunk_events(chunks)) == all_bytes(chunks),
        feed(initial(path), chunk_events(chunks)) == (Writing {
            stage: Stage::AwaitingChunk,
            path,
            written: all_bytes(chunks),
        }),
    decreases chunks.len(),
{
    let start = initial(path);
    if chunks.len() == 0 {
        let none = Seq::<Event>::empty();
        let created = Event::Created { ok: true };
        feed_push(start, none, created);
        delivered_push(none, created);
        in_turn_push(start, none, created);
    } else {
        let front = chunk_events(chunks.drop_last());
        let chunk = Event::Chunk { data: chunks.last() };
        let written = Event::Written { ok: true };
        chunk_events_store_all(path, chunks.drop_last());
        feed_push(start, front, chunk);
        delivered_push(front, chunk);
        in_turn_push(start, front, chunk);
        feed_push(start, front.push(chunk), written);
        delivered_push(front.push(chunk), written);
        in_turn_push(start, front.push(chunk), written);
    }
}

/// Storing `chunks` with nothing going wrong leaves a file that holds the
/// bytes of `chunks`, each of them and in order, and so has as many bytes
/// as they have.
pub proof fn clean_run_stores_all(path: Seq<char>, chunks: Seq<Seq<u8>>)
    ensures
        in_turn(initial(path), clean_run(chunks)),
        feed(initial(path), clean_run(chunks)) == (Writing {
            stage: Stage::Done,
            path,
            written: all_bytes(chunks),
        }),
        all_bytes(chunks).len() == total_len(chunks),
        action_of(feed(initial(path), clean_run(chunks))) == (Action::Finish { result: Ok(()) }),
{
    let start = initial(path);
    let front = chunk_events(chunks);
    let ended = Event::StreamEnded;
    let flushed = Event::Flushed { ok: true };
    chunk_events_store_all(path, chunks);
    all_bytes_len(chunks);
    feed_push(start, front, ended);
    in_turn_push(start, front, ended);
    feed_push(start, front.push(ended), flushed);
    in_turn_push(start, front.push(ended), flushed);
}

/// Whatever goes wrong first ends the work with the error of its kind.
pub proof fn first_failure_ends_work(w: Writing, event: Event)
    requires
        awaited(w, event),
        event == (Event::Created { ok: false }) || event == Event::ChunkFailed || event == (
            Event::Written { ok: false }) || event == (Event::Flushed { ok: false }),
    ensures
        next(w, event).stage is Failed,
        action_of(next(w, event)) is Finish,
        action_of(next(w, event))->result is Err,
        next(w, event).written == w.written,
{
}

} // verus!
