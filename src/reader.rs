use vstd::prelude::*;
use vstd::string::StringExecFns;
use crate::cancel::{CancelPoll, poll_stop, stops};
use crate::device::SerialDevice;
use crate::state::ReadData;
use std::sync::mpsc::Receiver;

verus! {

/// The event name under which chunks read from `path` are delivered: a fixed
/// prefix, a dash, and the identifier, one channel per port.
pub open spec fn event_name_of(path: Seq<char>) -> Seq<char> {
    "plugin-serialport-read-"@ + path
}

/// The chunk that a read outcome yields from `buf`: the first `n` bytes of a
/// read of `n > 0` bytes, and nothing for an empty read or an error.
pub open spec fn chunk_of(read: Result<usize, String>, buf: Seq<u8>) -> Option<Seq<u8>> {
    match read {
        Ok(n) => if n > 0 {
            Some(buf.take(n as int))
        } else {
            None
        },
        Err(_) => None,
    }
}

/// What one iteration of a reader amounts to.
#[derive(Debug, Clone, PartialEq, Eq)]
pub enum ReadStep {
    /// The stop channel was signalled or dropped: the reader ends.
    Stop,
    /// Nothing to deliver this time: an empty read, a timeout or an error.
    Idle,
    /// A chunk to deliver under the reader's event name.
    Emit(ReadData),
}

/// The event name of `path`'s reader.
pub fn read_event_name(path: &String) -> (r: String)
    ensures
        r@ == event_name_of(path@),
{
    let prefix = "plugin-serialport-read-".to_owned();
    prefix.concat(path.as_str())
}

/// Whether a reader that found `poll` on its stop channel must end.
pub fn stop_requested(poll: CancelPoll) -> (r: bool)
    ensures
        r == stops(poll),
{
    match poll {
        CancelPoll::Pending => false,
        CancelPoll::Signalled | CancelPoll::Disconnected => true,
    }
}

/// The event, if any, that a read with outcome `read` into `buf` yields.
pub fn chunk_event(read: Result<usize, String>, buf: &Vec<u8>) -> (r: Option<ReadData>)
    requires
        read matches Ok(n) ==> n <= buf@.len(),
    ensures
        r is Some <==> chunk_of(read, buf@) is Some,
        r matches Some(d) ==> Some(d.data@) == chunk_of(read, buf@) && d.size == d.data@.len(),
{
    match read {
        Ok(n) => {
            if n == 0 {
                return None;
            }
            let mut data: Vec<u8> = Vec::new();
            let mut i: usize = 0;
            while i < n
                invariant
                    n <= buf@.len(),
                    i <= n,
                    data@ == buf@.take(i as int),
                decreases n - i,
            {
                data.push(buf[i]);
                i = i + 1;
                assert(data@ =~= buf@.take(i as int));
            }
            Some(ReadData { data, size: n })
        },
        Err(_) => None,
    }
}

/// One background reader: a handle of its own on the device, the receiving
/// end of its stop channel, and the buffer it reads into.
pub struct ReaderTask<H> {
    path: String,
    event: String,
    device: H,
    receiver: Receiver<usize>,
    buffer: Vec<u8>,
    idle_ms: u64,
    last_poll: Ghost<CancelPoll>,
    last_read: Ghost<Option<Result<usize, String>>>,
}

impl<H> ReaderTask<H> {
    pub closed spec fn spec_path(&self) -> Seq<char> {
        self.path@
    }

    pub closed spec fn spec_buffer_size(&self) -> nat {
        self.buffer@.len()
    }

    /// The bytes of the buffer after the last read.
    pub closed spec fn spec_buffer(&self) -> Seq<u8> {
        self.buffer@
    }

    /// What the last iteration found on the stop channel.
    pub closed spec fn spec_last_poll(&self) -> CancelPoll {
        self.last_poll@
    }

    /// The outcome of the last iteration's read; `None` when it did not read.
    pub closed spec fn spec_last_read(&self) -> Option<Result<usize, String>> {
        self.last_read@
    }

    pub closed spec fn spec_idle_ms(&self) -> u64 {
        self.idle_ms
    }

    pub closed spec fn spec_event(&self) -> Seq<char> {
        self.event@
    }

    /// The event name is the path's.
    pub closed spec fn wf(&self) -> bool {
        self.event@ == event_name_of(self.path@)
    }

    /// A reader of `path` through `device`, stopped through `receiver`, with a
    /// buffer of `buffer_size` bytes and `idle_ms` between iterations.
    pub fn new(path: String, device: H, receiver: Receiver<usize>, buffer_size: usize, idle_ms: u64) -> (r: Self)
        ensures
            r.wf(),
            r.spec_path() == path@,
            r.spec_buffer_size() == buffer_size,
            r.spec_idle_ms() == idle_ms,
            r.spec_event() == event_name_of(path@),
    {
        let event = read_event_name(&path);
        ReaderTask {
            path,
            event,
            device,
            receiver,
            buffer: vec![0u8; buffer_size],
            idle_ms,
            last_poll: Ghost(CancelPoll::Pending),
            last_read: Ghost(None),
        }
    }

    /// The identifier of the port read.
    pub fn path(&self) -> (r: &String)
        ensures
            r@ == self.spec_path(),
    {
        &self.path
    }

    /// The name of the events this reader delivers.
    pub fn event_name(&self) -> (r: &String)
        requires
            self.wf(),
        ensures
            r@ == event_name_of(self.spec_path()),
    {
        &self.event
    }

    /// How long to wait between iterations, in milliseconds.
    pub fn idle_delay_ms(&self) -> (r: u64)
        ensures
            r == self.spec_idle_ms(),
    {
        self.idle_ms
    }

    /// The size of the buffer read into.
    pub fn buffer_size(&self) -> (r: usize)
        ensures
            r == self.spec_buffer_size(),
    {
        self.buffer.len()
    }
}

impl<H: SerialDevice> ReaderTask<H> {
    /// One iteration: stop if the channel says so; otherwise read once and
    /// yield the bytes read, if any. A failed read is no reason to stop.
    pub fn step(&mut self) -> (r: ReadStep)
        requires
            old(self).wf(),
        ensures
            final(self).wf(),
            final(self).spec_path() == old(self).spec_path(),
            final(self).spec_buffer_size() == old(self).spec_buffer_size(),
            final(self).spec_idle_ms() == old(self).spec_idle_ms(),
            r matches ReadStep::Emit(d) ==> 0 < d.size && d.size == d.data@.len()
                && d.size <= old(self).spec_buffer_size()
                && d.data@ == final(self).spec_buffer().take(d.size as int),
            stops(final(self).spec_last_poll()) ==> r == ReadStep::Stop
                && final(self).spec_last_read() is None,
            !stops(final(self).spec_last_poll()) ==> (final(self).spec_last_read() matches Some(res) && {
                &&& !(r is Stop)
                &&& (r is Emit <==> chunk_of(res, final(self).spec_buffer()) is Some)
                &&& r matches ReadStep::Emit(d) ==> Some(d.data@) == chunk_of(res, final(self).spec_buffer())
            }),
    {
        let poll = poll_stop(&self.receiver);
        self.last_poll = Ghost(poll);
        if stop_requested(poll) {
            self.last_read = Ghost(None);
            return ReadStep::Stop;
        }
        let read = self.device.read_bytes(&mut self.buffer);
        let ghost outcome = read;
        self.last_read = Ghost(Some(outcome));
        match chunk_event(read, &self.buffer) {
            Some(d) => ReadStep::Emit(d),
            None => ReadStep::Idle,
        }
    }
}

} // verus!
