use pixelflut::endpoint::Endpoint;
use pixelflut::protocol::{Color, Error, ProtocolError, Vec2};
use pixelflut::worker::{Command, Step, Worker};

const BLUE: Color = Color { r: 0, g: 0, b: 255 };

fn idle() -> Worker {
    Worker::new(Endpoint::new())
}

fn with_offset(offset: Vec2) -> Worker {
    match idle().receive(Some(Command::SetOffset(offset))) {
        Step::Continue(worker) => worker,
        other => panic!("expected the worker back, got {:?}", other),
    }
}

#[test]
fn closed_queue_finishes_the_worker() {
    assert!(matches!(idle().receive(None), Step::Finished));
}

#[test]
fn set_pixel_is_written_and_the_worker_goes_on() {
    let step = idle().receive(Some(Command::SetPixel(Vec2 { x: 3, y: 4 }, BLUE)));
    let sending = match step {
        Step::Write(sending, line) => {
            assert_eq!(line, "PX 3 4 0000ff\n");
            sending
        }
        other => panic!("expected a write, got {:?}", other),
    };
    let worker = sending.written(true).expect("the write went through");
    assert_eq!(worker.offset(), Vec2 { x: 0, y: 0 });
    assert!(matches!(worker.receive(Some(Command::GetSize)), Step::AskSize(_, _)));
}

#[test]
fn failed_write_stops_the_worker() {
    let step = idle().receive(Some(Command::SetPixel(Vec2 { x: 3, y: 4 }, BLUE)));
    match step {
        Step::Write(sending, _) => {
            assert_eq!(sending.written(false).err(), Some(Error::Connection));
        }
        other => panic!("expected a write, got {:?}", other),
    }
}

#[test]
fn set_offset_needs_no_connection_and_translates_what_follows() {
    let worker = with_offset(Vec2 { x: 10, y: 20 });
    assert_eq!(worker.offset(), Vec2 { x: 10, y: 20 });
    let worker = match worker.receive(Some(Command::SetPixel(Vec2 { x: 1, y: 2 }, BLUE))) {
        Step::Write(sending, line) => {
            assert_eq!(line, "PX 11 22 0000ff\n");
            sending.written(true).unwrap()
        }
        other => panic!("expected a write, got {:?}", other),
    };
    assert_eq!(worker.offset(), Vec2 { x: 10, y: 20 });
    match worker.receive(Some(Command::SetPixel(Vec2 { x: 5, y: 5 }, BLUE))) {
        Step::Write(_, line) => assert_eq!(line, "PX 15 25 0000ff\n"),
        other => panic!("expected a write, got {:?}", other),
    }
}

#[test]
fn second_offset_replaces_the_first() {
    let worker = with_offset(Vec2 { x: 10, y: 20 });
    let worker = match worker.receive(Some(Command::SetOffset(Vec2 { x: 1, y: 1 }))) {
        Step::Continue(worker) => worker,
        other => panic!("expected the worker back, got {:?}", other),
    };
    assert_eq!(worker.offset(), Vec2 { x: 1, y: 1 });
}

#[test]
fn pixel_query_is_asked_untranslated_and_answered() {
    let worker = with_offset(Vec2 { x: 10, y: 20 });
    let query = match worker.receive(Some(Command::GetPixel(Vec2 { x: 1, y: 2 }))) {
        Step::AskPixel(query, line) => {
            assert_eq!(line, "PX 1 2\n");
            query
        }
        other => panic!("expected a pixel query, got {:?}", other),
    };
    let (worker, color) = query.answered(Some("PX 1 2 0000ff\n")).unwrap();
    assert_eq!(color, BLUE);
    assert_eq!(worker.offset(), Vec2 { x: 10, y: 20 });
}

#[test]
fn size_query_is_asked_and_answered() {
    let query = match idle().receive(Some(Command::GetSize)) {
        Step::AskSize(query, line) => {
            assert_eq!(line, "SIZE\n");
            query
        }
        other => panic!("expected a size query, got {:?}", other),
    };
    let (_, size) = query.answered(Some("SIZE 800 600\n")).unwrap();
    assert_eq!(size, Vec2 { x: 800, y: 600 });
}

#[test]
fn lost_connection_during_a_query_stops_the_worker() {
    match idle().receive(Some(Command::GetSize)) {
        Step::AskSize(query, _) => assert_eq!(query.answered(None).err(), Some(Error::Connection)),
        other => panic!("expected a size query, got {:?}", other),
    }
    match idle().receive(Some(Command::GetPixel(Vec2 { x: 0, y: 0 }))) {
        Step::AskPixel(query, _) => {
            assert_eq!(query.answered(None).err(), Some(Error::Connection))
        }
        other => panic!("expected a pixel query, got {:?}", other),
    }
}

#[test]
fn malformed_reply_stops_the_worker() {
    match idle().receive(Some(Command::GetSize)) {
        Step::AskSize(query, _) => assert_eq!(
            query.answered(Some("SIZE abc\n")).err(),
            Some(Error::Protocol(ProtocolError::TokenCount))
        ),
        other => panic!("expected a size query, got {:?}", other),
    }
    match idle().receive(Some(Command::GetPixel(Vec2 { x: 0, y: 0 }))) {
        Step::AskPixel(query, _) => assert_eq!(
            query.answered(Some("PX 0 0 xyzxyz\n")).err(),
            Some(Error::Protocol(ProtocolError::Color))
        ),
        other => panic!("expected a pixel query, got {:?}", other),
    }
}

#[test]
fn worker_tells_which_commands_it_can_carry_out() {
    let worker = with_offset(Vec2 { x: u32::MAX, y: 0 });
    assert!(worker.takes(&Command::SetPixel(Vec2 { x: 0, y: u32::MAX }, BLUE)));
    assert!(!worker.takes(&Command::SetPixel(Vec2 { x: 1, y: 0 }, BLUE)));
    assert!(worker.takes(&Command::GetPixel(Vec2 { x: 1, y: 0 })));
    assert!(worker.takes(&Command::GetSize));
    assert!(worker.takes(&Command::SetOffset(Vec2 { x: 1, y: 0 })));
}

#[test]
fn every_command_of_a_batch_is_written_once() {
    let mut worker = idle();
    let mut written = Vec::new();
    for i in 0..50u32 {
        worker = match worker.receive(Some(Command::SetPixel(Vec2 { x: i, y: 2 * i }, BLUE))) {
            Step::Write(sending, line) => {
                written.push(line);
                sending.written(true).unwrap()
            }
            other => panic!("expected a write, got {:?}", other),
        };
    }
    let expected: Vec<String> = (0..50u32).map(|i| format!("PX {} {} 0000ff\n", i, 2 * i)).collect();
    assert_eq!(written, expected);
}

#[test]
fn one_worker_failing_leaves_the_others_working() {
    let first = idle();
    let second = idle();
    match first.receive(Some(Command::GetSize)) {
        Step::AskSize(query, _) => assert!(query.answered(None).is_err()),
        other => panic!("expected a size query, got {:?}", other),
    }
    match second.receive(Some(Command::GetSize)) {
        Step::AskSize(query, _) => {
            assert_eq!(query.answered(Some("SIZE 4 4\n")).unwrap().1, Vec2 { x: 4, y: 4 })
        }
        other => panic!("expected a size query, got {:?}", other),
    }
}
