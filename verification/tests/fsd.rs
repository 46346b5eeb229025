use std::collections::HashMap;
use std::collections::VecDeque;
use userland::capability::Capability;
use userland::fsd::read;
use userland::fsd::Event;
use userland::fsd::Next;
use userland::fsd::ReadStage;
use userland::fsd::Request;
use userland::fsd::Sector;
use userland::fsd::Step;
use userland::fsd::WriteError;
use userland::fsd::WriteStage;
use userland::fsd::GPT_SIGNATURE;
use userland::fsd::OP_READ;
use userland::fsd::OP_WRITE;
use userland::syscalls::dealloc_page;
use userland::syscalls::Message;
use userland::syscalls::MessageType;
use userland::syscalls::Pid;
use userland::syscalls::SendError;
use userland::syscalls::Syscall;

/// A block-device server with scripted answers, and the pages it has
/// handed out.
struct Server {
    channel: u128,
    sent: Vec<(bool, MessageType, u64, u64)>,
    send_results: VecDeque<Result<(), SendError>>,
    replies: VecDeque<Option<Message>>,
    pages: HashMap<u64, Vec<u8>>,
    released: Vec<(u64, u64)>,
    receives: usize,
}

impl Server {
    fn new(channel: Capability) -> Server {
        Server {
            channel: channel.raw(),
            sent: Vec::new(),
            send_results: VecDeque::new(),
            replies: VecDeque::new(),
            pages: HashMap::new(),
            released: Vec::new(),
            receives: 0,
        }
    }

    fn reply(&mut self, type_: MessageType, data: u64, metadata: u64) {
        self.replies.push_back(Some(Message { pid: Pid(2), type_, data, metadata }));
    }

    fn perform(&mut self, request: Request) -> Event {
        match request {
            Request::Send { block, channel, type_, data, metadata } => {
                assert_eq!(channel.raw(), self.channel);
                self.sent.push((block, type_, data, metadata));
                Event::Sent(self.send_results.pop_front().unwrap_or(Ok(())))
            }
            Request::Recv { block, channel } => {
                assert!(block);
                assert_eq!(channel.raw(), self.channel);
                self.receives += 1;
                Event::Received(self.replies.pop_front().unwrap_or(None))
            }
        }
    }

    fn release(&mut self, call: Option<Syscall>) {
        if let Some(call) = call {
            assert_eq!(call.id, 3);
            self.released.push((call.a1, call.a2));
            self.pages.remove(&call.a1);
        }
    }

    fn run_read(&mut self, channel: Capability, sector: u64) -> Option<Sector> {
        let (mut transfer, mut request) = read(channel, sector);
        loop {
            let event = self.perform(request);
            let step = transfer.step(event);
            self.release(step.release);
            match step.next {
                Next::Ask(next) => request = next,
                Next::Done(result) => {
                    assert_eq!(transfer.stage, ReadStage::Finished);
                    return result;
                }
            }
        }
    }

    fn run_write(
        &mut self,
        channel: Capability,
        sector: u64,
        data: u64,
        len: usize,
    ) -> Result<(), WriteError> {
        let (mut transfer, mut request) = userland::fsd::write(channel, sector, data, len);
        loop {
            let event = self.perform(request);
            let step = transfer.step(event);
            self.release(step.release);
            match step.next {
                Next::Ask(next) => request = next,
                Next::Done(result) => {
                    assert_eq!(transfer.stage, WriteStage::Finished);
                    return result;
                }
            }
        }
    }
}

fn channel() -> Capability {
    Capability::new(0xc0ffee)
}

#[test]
fn operation_numbers() {
    assert_eq!(OP_READ, 0);
    assert_eq!(OP_WRITE, 1);
    assert_eq!(GPT_SIGNATURE.to_le_bytes(), *b"EFI PART");
}

#[test]
fn read_returns_the_page_the_server_sent() {
    let mut server = Server::new(channel());
    server.pages.insert(0x8000, vec![0xaa; 4096]);
    server.reply(MessageType::Signal, 0, 0);
    server.reply(MessageType::Data, 0x8000, 0);
    let sector = server.run_read(channel(), 5).unwrap();
    assert_eq!(server.sent, vec![(true, MessageType::Signal, 0, 5)]);
    assert_eq!(server.receives, 2);
    assert_eq!(sector.get(), 0x8000);
    assert_eq!(server.pages[&sector.get()], vec![0xaa; 4096]);
    assert!(server.released.is_empty());
    let call = sector.discard();
    assert_eq!(call, dealloc_page(0x8000, 1));
    server.release(Some(call));
    assert_eq!(server.released, vec![(0x8000, 1)]);
    assert!(server.pages.is_empty());
}

#[test]
fn read_without_the_data_message_is_absent() {
    let mut server = Server::new(channel());
    server.reply(MessageType::Signal, 0, 0);
    assert!(server.run_read(channel(), 5).is_none());
    assert_eq!(server.receives, 2);
    assert!(server.released.is_empty());
}

#[test]
fn read_with_a_failure_status_is_absent() {
    for (data, metadata) in [(0, 1), (1, 0), (7, 7), (0, u64::MAX)] {
        let mut server = Server::new(channel());
        server.pages.insert(0x8000, vec![0xaa; 4096]);
        server.reply(MessageType::Signal, data, metadata);
        server.reply(MessageType::Data, 0x8000, 0);
        assert!(server.run_read(channel(), 5).is_none());
        assert_eq!(server.receives, 1);
        assert!(server.released.is_empty());
    }
}

#[test]
fn read_with_no_reply_is_absent() {
    let mut server = Server::new(channel());
    assert!(server.run_read(channel(), 5).is_none());
    assert_eq!(server.receives, 1);
}

#[test]
fn read_whose_request_fails_is_absent() {
    for error in [SendError::InvalidArguments, SendError::MessageQueueFull] {
        let mut server = Server::new(channel());
        server.send_results.push_back(Err(error));
        server.reply(MessageType::Signal, 0, 0);
        assert!(server.run_read(channel(), 5).is_none());
        assert_eq!(server.receives, 0);
    }
}

#[test]
fn read_releases_a_first_reply_that_owns_pages() {
    let mut server = Server::new(channel());
    server.pages.insert(0x8000, vec![0xaa; 4096]);
    server.reply(MessageType::Data, 0x8000, 0);
    assert!(server.run_read(channel(), 5).is_none());
    assert_eq!(server.released, vec![(0x8000, 1)]);
    let mut server = Server::new(channel());
    server.reply(MessageType::Pointer, 0x8000, 8193);
    assert!(server.run_read(channel(), 5).is_none());
    assert_eq!(server.released, vec![(0x8000, 3)]);
}

#[test]
fn read_releases_a_second_reply_that_is_not_data() {
    let mut server = Server::new(channel());
    server.reply(MessageType::Signal, 0, 0);
    server.reply(MessageType::Pointer, 0x8000, 4096);
    assert!(server.run_read(channel(), 5).is_none());
    assert_eq!(server.released, vec![(0x8000, 1)]);
    for type_ in [MessageType::Signal, MessageType::Integer, MessageType::Interrupt] {
        let mut server = Server::new(channel());
        server.reply(MessageType::Signal, 0, 0);
        server.reply(type_, 0x8000, 4096);
        assert!(server.run_read(channel(), 5).is_none());
        assert!(server.released.is_empty());
    }
}

#[test]
fn read_ends_on_an_event_that_answers_nothing() {
    let (mut transfer, _) = read(channel(), 5);
    let message = Message { pid: Pid(2), type_: MessageType::Data, data: 0x8000, metadata: 0 };
    let step: Step<Option<Sector>> = transfer.step(Event::Received(Some(message)));
    assert_eq!(step.release, Some(dealloc_page(0x8000, 1)));
    assert!(matches!(step.next, Next::Done(None)));
    assert_eq!(transfer.stage, ReadStage::Finished);
    let step = transfer.step(Event::Sent(Ok(())));
    assert_eq!(step.release, None);
    assert!(matches!(step.next, Next::Done(None)));
}

#[test]
fn write_succeeds_when_the_server_confirms() {
    let mut server = Server::new(channel());
    server.reply(MessageType::Signal, 1, 0);
    assert_eq!(server.run_write(channel(), 3, 0x7000, 512), Ok(()));
    assert_eq!(
        server.sent,
        vec![(true, MessageType::Signal, 1, 3), (true, MessageType::Data, 0x7000, 512)]
    );
    assert_eq!(server.receives, 1);
    assert!(server.released.is_empty());
}

#[test]
fn write_fails_on_any_other_reply() {
    let replies = [
        (MessageType::Signal, 1, 1),
        (MessageType::Signal, 1, 7),
        (MessageType::Signal, 1, u64::MAX),
        (MessageType::Signal, 0, 0),
        (MessageType::Signal, 0, 1),
        (MessageType::Integer, 1, 0),
        (MessageType::Interrupt, 1, 0),
    ];
    for (type_, data, metadata) in replies {
        let mut server = Server::new(channel());
        server.reply(type_, data, metadata);
        server.reply(MessageType::Signal, 1, 0);
        assert_eq!(server.run_write(channel(), 3, 0x7000, 512), Err(WriteError::WriteError));
        assert_eq!(server.sent.len(), 2);
        assert_eq!(server.receives, 1);
    }
    let mut server = Server::new(channel());
    assert_eq!(server.run_write(channel(), 3, 0x7000, 512), Err(WriteError::WriteError));
    assert_eq!(server.receives, 1);
}

#[test]
fn write_reports_a_failed_send() {
    let mut server = Server::new(channel());
    server.send_results.push_back(Err(SendError::MessageQueueFull));
    assert_eq!(
        server.run_write(channel(), 3, 0x7000, 512),
        Err(WriteError::SendError(SendError::MessageQueueFull))
    );
    assert_eq!(server.sent.len(), 1);
    assert_eq!(server.receives, 0);
    let mut server = Server::new(channel());
    server.send_results.push_back(Ok(()));
    server.send_results.push_back(Err(SendError::InvalidArguments));
    assert_eq!(
        server.run_write(channel(), 3, 0x7000, 512),
        Err(WriteError::SendError(SendError::InvalidArguments))
    );
    assert_eq!(server.sent.len(), 2);
    assert_eq!(server.receives, 0);
}

#[test]
fn write_releases_a_reply_that_owns_pages() {
    let mut server = Server::new(channel());
    server.reply(MessageType::Data, 0x8000, 0);
    assert_eq!(server.run_write(channel(), 3, 0x7000, 512), Err(WriteError::WriteError));
    assert_eq!(server.released, vec![(0x8000, 1)]);
}

#[test]
fn write_error_from_send_error() {
    assert_eq!(
        WriteError::from(SendError::InvalidArguments),
        WriteError::SendError(SendError::InvalidArguments)
    );
    assert_eq!(
        WriteError::from(SendError::MessageQueueFull),
        WriteError::SendError(SendError::MessageQueueFull)
    );
}
