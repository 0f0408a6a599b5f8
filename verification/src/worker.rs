//! The loop of one pool worker, as decisions without the waiting.
//!
//! A worker owns one endpoint. It takes a command from the shared queue,
//! says what has to happen on its connection, and is told how that went.
//! Whoever runs the loop does the waiting: on the queue, on the socket, on
//! the reply slot. Each state of the loop is a type of its own, so that a
//! result can only be handed to the state that waits for it; a worker whose
//! connection failed is gone, and nothing can be asked of it again.

use crate::codec::wire_bytes;
use crate::endpoint::{reply_of, Endpoint};
use crate::protocol::{Color, Error, Vec2};
use crate::wire::{decode_color, decode_size, get_pixel_line, get_size_line};
use vstd::prelude::*;

verus! {

/// One unit of work for the pool. A query travels together with the reply
/// slot that its caller waits on; the slot is the runtime's business and not
/// part of the command.
#[derive(Debug, Clone, Copy, PartialEq, Eq, Structural)]
pub enum Command {
    /// Ask for the colour at a position.
    GetPixel(Vec2),
    /// Paint a position in a colour.
    SetPixel(Vec2, Color),
    /// Ask for the size of the canvas.
    GetSize,
    /// Replace the offset of the worker that takes this command.
    SetOffset(Vec2),
}

/// A worker that waits for its next command.
#[derive(Debug)]
pub struct Worker {
    endpoint: Endpoint,
}

/// A worker whose line is being written; no reply will come.
#[derive(Debug)]
pub struct Sending {
    endpoint: Endpoint,
}

/// A worker that waits for the reply to a pixel query.
#[derive(Debug)]
pub struct PixelQuery {
    endpoint: Endpoint,
}

/// A worker that waits for the reply to a size query.
#[derive(Debug)]
pub struct SizeQuery {
    endpoint: Endpoint,
}

/// What a worker does with what the queue gave it.
#[derive(Debug)]
pub enum Step {
    /// The queue is closed and empty: leave the loop. The worker ends well.
    Finished,
    /// The command needed nothing from the connection: take the next one.
    Continue(Worker),
    /// Write the line. It need not be flushed, and nothing is read after it.
    /// Then tell [`Sending::written`] how the write went.
    Write(Sending, String),
    /// Write the line, flush, and read one line. Then hand
    /// [`PixelQuery::answered`] what was read.
    AskPixel(PixelQuery, String),
    /// Write the line, flush, and read one line. Then hand
    /// [`SizeQuery::answered`] what was read.
    AskSize(SizeQuery, String),
}

impl Sending {
    /// The endpoint of the worker.
    pub closed spec fn endpoint(self) -> Endpoint {
        self.endpoint
    }

    /// Takes the outcome of the write. After a write that went through the
    /// worker waits for its next command, with its endpoint as it was. After
    /// one that failed the endpoint is dead: the worker stops consuming.
    pub fn written(self, delivered: bool) -> (next: Result<Worker, Error>)
        ensures
            delivered ==> (next matches Ok(worker) && worker.endpoint() == self.endpoint()),
            !delivered ==> next == Err::<Worker, Error>(Error::Connection),
    {
        if delivered {
            Ok(Worker { endpoint: self.endpoint })
        } else {
            Err(Error::Connection)
        }
    }
}

impl PixelQuery {
    /// The endpoint of the worker.
    pub closed spec fn endpoint(self) -> Endpoint {
        self.endpoint
    }

    /// Takes the line that was read, or `None` where writing, flushing or
    /// reading failed. A well-formed reply gives the colour for the reply
    /// slot, and the worker waits for its next command. Anything else ends
    /// the worker: the slot is dropped unfulfilled, which closes it.
    pub fn answered(self, line: Option<&str>) -> (next: Result<(Worker, Color), Error>)
        ensures
            match line {
                None => next == Err::<(Worker, Color), Error>(Error::Connection),
                Some(text) => match reply_of(decode_color(wire_bytes(text@))) {
                    Ok(color) => next matches Ok((worker, reply)) && worker.endpoint()
                        == self.endpoint() && reply == color,
                    Err(error) => next == Err::<(Worker, Color), Error>(error),
                },
            },
    {
        match line {
            None => Err(Error::Connection),
            Some(text) => match self.endpoint.pixel_reply(text) {
                Ok(color) => Ok((Worker { endpoint: self.endpoint }, color)),
                Err(error) => Err(error),
            },
        }
    }
}

impl SizeQuery {
    /// The endpoint of the worker.
    pub closed spec fn endpoint(self) -> Endpoint {
        self.endpoint
    }

    /// Takes the line that was read, or `None` where writing, flushing or
    /// reading failed. A well-formed reply gives the size for the reply
    /// slot, and the worker waits for its next command. Anything else ends
    /// the worker: the slot is dropped unfulfilled, which closes it.
    pub fn answered(self, line: Option<&str>) -> (next: Result<(Worker, Vec2), Error>)
        ensures
            match line {
                None => next == Err::<(Worker, Vec2), Error>(Error::Connection),
                Some(text) => match reply_of(decode_size(wire_bytes(text@))) {
                    Ok(size) => next matches Ok((worker, reply)) && worker.endpoint()
                        == self.endpoint() && reply == size,
                    Err(error) => next == Err::<(Worker, Vec2), Error>(error),
                },
            },
    {
        match line {
            None => Err(Error::Connection),
            Some(text) => match self.endpoint.size_reply(text) {
                Ok(size) => Ok((Worker { endpoint: self.endpoint }, size)),
                Err(error) => Err(error),
            },
        }
    }
}

impl Worker {
    /// The endpoint of the worker.
    pub closed spec fn endpoint(self) -> Endpoint {
        self.endpoint
    }

    /// Whether the worker can carry the command out: a position to paint must
    /// stay on the grid once the worker's offset is added.
    pub open spec fn accepts(self, command: Command) -> bool {
        command matches Command::SetPixel(position, _) ==> position.can_add(
            self.endpoint().offset(),
        )
    }

    /// A worker for a fresh connection.
    pub fn new(endpoint: Endpoint) -> (worker: Worker)
        ensures
            worker.endpoint() == endpoint,
    {
        Worker { endpoint }
    }

    /// Whether the worker can carry the command out.
    pub fn takes(&self, command: &Command) -> (yes: bool)
        ensures
            yes == self.accepts(*command),
    {
        match command {
            Command::SetPixel(position, _) => position.checked_add(
                self.endpoint.current_offset(),
            ).is_some(),
            _ => true,
        }
    }

    /// The offset that this worker adds to what it paints.
    pub fn offset(&self) -> (offset: Vec2)
        ensures
            offset == self.endpoint().offset(),
    {
        self.endpoint.current_offset()
    }

    /// Takes what the queue gave: a command, or `None` once the queue is
    /// closed and empty. Each command is turned into exactly one step.
    pub fn receive(self, received: Option<Command>) -> (step: Step)
        requires
            received matches Some(command) ==> self.accepts(command),
        ensures
            match received {
                None => step is Finished,
                Some(Command::SetOffset(offset)) => step matches Step::Continue(worker)
                    && worker.endpoint() == self.endpoint().with_offset(offset),
                Some(Command::SetPixel(position, color)) => step matches Step::Write(sending, line)
                    && sending.endpoint() == self.endpoint() && wire_bytes(line@)
                    == self.endpoint().painted(position, color),
                Some(Command::GetPixel(position)) => step matches Step::AskPixel(query, line)
                    && query.endpoint() == self.endpoint() && wire_bytes(line@) == get_pixel_line(
                    position,
                ),
                Some(Command::GetSize) => step matches Step::AskSize(query, line)
                    && query.endpoint() == self.endpoint() && wire_bytes(line@) == get_size_line(),
            },
    {
        let mut endpoint = self.endpoint;
        match received {
            None => Step::Finished,
            Some(Command::SetOffset(offset)) => {
                endpoint.set_offset(offset);
                Step::Continue(Worker { endpoint })
            },
            Some(Command::SetPixel(position, color)) => {
                let line = endpoint.set_pixel(position, &color);
                Step::Write(Sending { endpoint }, line)
            },
            Some(Command::GetPixel(position)) => {
                let line = endpoint.get_pixel(position);
                Step::AskPixel(PixelQuery { endpoint }, line)
            },
            Some(Command::GetSize) => {
                let line = endpoint.get_size();
                Step::AskSize(SizeQuery { endpoint }, line)
            },
        }
    }
}

} // verus!
