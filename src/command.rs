use vstd::prelude::*;
use crate::cancel::{cancel_channel, send_stop};
use crate::config::{PortConfig, config_of, DEFAULT_BUFFER_SIZE, DEFAULT_TIMEOUT_MS};
use crate::device::SerialDevice;
use crate::error::Error;
use crate::reader::ReaderTask;
use vstd::utf8::encode_utf8;
use crate::state::{PortView, RegistryView, SerialportInfo, SerialportState};

verus! {

/// `open` on `pre`: an identifier already present is refused; otherwise the
/// port is added, idle, with `config`, unless the device failed to open.
pub open spec fn open_post(
    pre: RegistryView,
    id: Seq<char>,
    config: PortConfig,
    post: RegistryView,
    r: Result<(), Error>,
) -> bool {
    if pre.contains_key(id) {
        r == Err::<(), Error>(Error::AlreadyOpen) && post == pre
    } else {
        match r {
            Ok(_) => post == pre.insert(id, PortView { config, streaming: false, writes: Seq::empty() }),
            Err(e) => e is OpenFailed && post == pre,
        }
    }
}

/// `close` on `pre`: the port is removed, or `NotOpen` when absent.
pub open spec fn close_post(pre: RegistryView, id: Seq<char>, post: RegistryView, r: Result<(), Error>) -> bool {
    if pre.contains_key(id) {
        r is Ok && post == pre.remove(id)
    } else {
        r == Err::<(), Error>(Error::NotOpen) && post == pre
    }
}

/// `force_close` on `pre`: the port is absent afterwards, and no error comes.
pub open spec fn force_close_post(pre: RegistryView, id: Seq<char>, post: RegistryView, r: Result<(), Error>) -> bool {
    r is Ok && post == pre.remove(id)
}

/// `close_all` on `pre`: the registry is empty afterwards; the only error is
/// a stop signal that could not be delivered, so none comes when no port streams.
pub open spec fn close_all_post(pre: RegistryView, post: RegistryView, r: Result<(), Error>) -> bool {
    &&& post == RegistryView::empty()
    &&& (r is Ok || r matches Err(Error::SignalFailed(_)))
    &&& (forall|k: Seq<char>| pre.contains_key(k) ==> !(#[trigger] pre[k]).streaming) ==> r is Ok
}

/// The port `id` of `pre`, marked as streaming or not.
pub open spec fn with_streaming(pre: RegistryView, id: Seq<char>, streaming: bool) -> RegistryView {
    pre.insert(id, PortView { config: pre[id].config, streaming, writes: pre[id].writes })
}

/// `read` on `pre`: `NotOpen` when absent; nothing new while a reader
/// streams; otherwise a new reader and the port streams, unless the handle
/// could not be duplicated.
pub open spec fn read_post<H>(
    pre: RegistryView,
    id: Seq<char>,
    post: RegistryView,
    r: Result<Option<ReaderTask<H>>, Error>,
) -> bool {
    if !pre.contains_key(id) {
        r == Err::<Option<ReaderTask<H>>, Error>(Error::NotOpen) && post == pre
    } else if pre[id].streaming {
        r == Ok::<Option<ReaderTask<H>>, Error>(None) && post == pre
    } else {
        match r {
            Ok(Some(_)) => post == with_streaming(pre, id, true),
            Ok(None) => false,
            Err(e) => e is CloneFailed && post == pre,
        }
    }
}

/// `cancel_read` on `pre`: `NotOpen` when absent; otherwise the port is idle.
pub open spec fn cancel_read_post(pre: RegistryView, id: Seq<char>, post: RegistryView, r: Result<(), Error>) -> bool {
    if pre.contains_key(id) {
        r is Ok && post == with_streaming(pre, id, false)
    } else {
        r == Err::<(), Error>(Error::NotOpen) && post == pre
    }
}

/// What a write returns for the device's answer `res`: the device's count,
/// or its reason as `WriteFailed`.
pub open spec fn write_outcome(res: Result<usize, String>) -> Result<usize, Error> {
    match res {
        Ok(n) => Ok(n),
        Err(reason) => Err(Error::WriteFailed(reason)),
    }
}

/// A write of `data` on `pre`: `NotOpen` when absent. Otherwise `data` is
/// handed to the port's device once, the write and the device's answer are
/// appended to the port's log, and the answer is returned as `write_outcome`
/// gives it; nothing else changes.
pub open spec fn write_post(pre: RegistryView, id: Seq<char>, data: Seq<u8>, post: RegistryView, r: Result<usize, Error>) -> bool {
    if pre.contains_key(id) {
        let res = post[id].writes.last().1;
        &&& post == pre.insert(
            id,
            PortView { config: pre[id].config, streaming: pre[id].streaming, writes: pre[id].writes.push((data, res)) },
        )
        &&& r == write_outcome(res)
        &&& res matches Ok(n) ==> n <= data.len()
    } else {
        r == Err::<usize, Error>(Error::NotOpen) && post == pre
    }
}

/// Looks `path` up: `NotOpen` when it is absent.
pub fn get_serialport<H>(state: &SerialportState<H>, path: &String) -> (r: Result<(), Error>)
    requires
        state.wf(),
    ensures
        r is Ok <==> state@.contains_key(path@),
        r is Err ==> r == Err::<(), Error>(Error::NotOpen),
{
    if state.contains(path) {
        Ok(())
    } else {
        Err(Error::NotOpen)
    }
}

/// Opens the device `path` and adds it to the registry, idle. The optional
/// parameters take their defaults as `PortConfig::from_options` resolves them.
pub fn open<H: SerialDevice>(
    state: &mut SerialportState<H>,
    path: String,
    baud_rate: u32,
    data_bits: Option<usize>,
    flow_control: Option<String>,
    parity: Option<String>,
    stop_bits: Option<usize>,
    timeout: Option<u64>,
) -> (r: Result<(), Error>)
    requires
        old(state).wf(),
    ensures
        final(state).wf(),
        open_post(
            old(state)@,
            path@,
            config_of(baud_rate, data_bits, flow_control, parity, stop_bits, timeout),
            final(state)@,
            r,
        ),
{
    if state.contains(&path) {
        return Err(Error::AlreadyOpen);
    }
    let config = PortConfig::from_options(baud_rate, data_bits, flow_control, parity, stop_bits, timeout);
    let opened = H::open_device(&path, &config);
    add_opened(state, path, config, opened)
}

/// Adds the outcome of opening `path` with `config`: the handle, idle and with
/// no writes yet, or `OpenFailed` with the device's reason and no change.
pub fn add_opened<H>(
    state: &mut SerialportState<H>,
    path: String,
    config: PortConfig,
    opened: Result<H, String>,
) -> (r: Result<(), Error>)
    requires
        old(state).wf(),
        !old(state)@.contains_key(path@),
    ensures
        final(state).wf(),
        match opened {
            Ok(_) => r is Ok && final(state)@ == old(state)@.insert(
                path@,
                PortView { config, streaming: false, writes: Seq::empty() },
            ),
            Err(reason) => r == Err::<(), Error>(Error::OpenFailed(reason)) && final(state)@ == old(state)@,
        },
{
    match opened {
        Ok(serialport) => {
            state.insert_new(path, config, serialport);
            Ok(())
        },
        Err(reason) => Err(Error::OpenFailed(reason)),
    }
}

/// Closes `path`: stops its reader, if one streams, and removes the port.
/// A stop signal that cannot be delivered means the reader is gone already.
pub fn close<H>(state: &mut SerialportState<H>, path: String) -> (r: Result<(), Error>)
    requires
        old(state).wf(),
    ensures
        final(state).wf(),
        close_post(old(state)@, path@, final(state)@, r),
{
    match state.remove(&path) {
        Some(entry) => {
            let _ = stop_reader(&entry);
            Ok(())
        },
        None => {
            assert(old(state)@.remove(path@) =~= old(state)@);
            Err(Error::NotOpen)
        },
    }
}

/// Sends a stop signal to the reader of `entry`, if one streams, and hands
/// back the delivery's outcome; `None` when no reader streams.
fn stop_reader<H>(entry: &SerialportInfo<H>) -> (r: Option<Result<(), String>>)
    ensures
        r is None <==> entry.sender is None,
{
    match &entry.sender {
        Some(sender) => Some(send_stop(sender)),
        None => None,
    }
}

/// The result of signalling readers whose deliveries had the outcomes
/// `outcomes`, in order: success when every signal was delivered, otherwise
/// `SignalFailed` with the reason of the first that was not.
pub open spec fn signals_result(outcomes: Seq<Result<(), String>>) -> Result<(), Error>
    decreases outcomes.len(),
{
    if outcomes.len() == 0 {
        Ok(())
    } else {
        match outcomes[0] {
            Ok(_) => signals_result(outcomes.drop_first()),
            Err(reason) => Err(Error::SignalFailed(reason)),
        }
    }
}

/// Sums up the outcomes of delivering stop signals, as `signals_result` says.
pub fn signal_summary(outcomes: &Vec<Result<(), String>>) -> (r: Result<(), Error>)
    ensures
        r == signals_result(outcomes@),
        r is Ok || r matches Err(Error::SignalFailed(_)),
{
    let mut i: usize = 0;
    assert(outcomes@.skip(0) =~= outcomes@);
    while i < outcomes.len()
        invariant
            i <= outcomes@.len(),
            signals_result(outcomes@) == signals_result(outcomes@.skip(i as int)),
        decreases outcomes@.len() - i,
    {
        if let Err(reason) = &outcomes[i] {
            return Err(Error::SignalFailed(reason.clone()));
        }
        assert(outcomes@.skip(i as int).drop_first() =~= outcomes@.skip(i + 1));
        i = i + 1;
    }
    Ok(())
}

/// Closes every port: signals each streaming reader, then empties the
/// registry. The registry is emptied whatever the signals give; the result is
/// `signal_summary` of the deliveries, so the first signal that could not be
/// delivered is reported.
pub fn close_all<H>(state: &mut SerialportState<H>) -> (r: Result<(), Error>)
    requires
        old(state).wf(),
    ensures
        final(state).wf(),
        close_all_post(old(state)@, final(state)@, r),
{
    let entries = state.take_all();
    let mut outcomes: Vec<Result<(), String>> = Vec::new();
    let mut i: usize = 0;
    while i < entries.len()
        invariant
            i <= entries@.len(),
            outcomes@.len() > 0 ==> exists|j: int| 0 <= j < i && (#[trigger] entries@[j]).sender is Some,
        decreases entries@.len() - i,
    {
        if let Some(outcome) = stop_reader(&entries[i]) {
            outcomes.push(outcome);
        }
        i = i + 1;
    }
    proof {
        if outcomes@.len() > 0 {
            let j = choose|j: int| 0 <= j < i && (#[trigger] entries@[j]).sender is Some;
            assert(old(state)@.contains_key(entries@[j].path@));
        }
    }
    signal_summary(&outcomes)
}

/// Closes `path` if it is open, stopping its reader; never fails, also not
/// when `path` is absent.
pub fn force_close<H>(state: &mut SerialportState<H>, path: String) -> (r: Result<(), Error>)
    requires
        old(state).wf(),
    ensures
        final(state).wf(),
        force_close_post(old(state)@, path@, final(state)@, r),
{
    if let Some(entry) = state.remove(&path) {
        let _ = stop_reader(&entry);
    }
    Ok(())
}

/// Writes the UTF-8 bytes of `value` to `path`'s device; returns how many it took.
pub fn write<H: SerialDevice>(state: &mut SerialportState<H>, path: String, value: String) -> (r: Result<usize, Error>)
    requires
        old(state).wf(),
    ensures
        final(state).wf(),
        write_post(old(state)@, path@, encode_utf8(value@), final(state)@, r),
{
    write_bytes_to(state, &path, value.as_str().as_bytes())
}

/// Writes `value` to `path`'s device; returns how many bytes it took.
pub fn write_binary<H: SerialDevice>(state: &mut SerialportState<H>, path: String, value: Vec<u8>) -> (r: Result<usize, Error>)
    requires
        old(state).wf(),
    ensures
        final(state).wf(),
        write_post(old(state)@, path@, value@, final(state)@, r),
{
    write_bytes_to(state, &path, value.as_slice())
}

/// Turns the device's answer to a write into the write's result.
pub fn write_result(res: Result<usize, String>) -> (r: Result<usize, Error>)
    ensures
        r == write_outcome(res),
{
    match res {
        Ok(n) => Ok(n),
        Err(reason) => Err(Error::WriteFailed(reason)),
    }
}

fn write_bytes_to<H: SerialDevice>(state: &mut SerialportState<H>, path: &String, data: &[u8]) -> (r: Result<usize, Error>)
    requires
        old(state).wf(),
    ensures
        final(state).wf(),
        write_post(old(state)@, path@, data@, final(state)@, r),
{
    match state.write_to(path, data) {
        Some(res) => write_result(res),
        None => Err(Error::NotOpen),
    }
}

/// Starts a reader on `path` unless one streams already. A new reader gets
/// its own handle on the device and the receiving end of a fresh stop
/// channel, whose sender the registry keeps; the caller runs it. The reader
/// waits `timeout` milliseconds between iterations (200 when none is given)
/// and reads into a buffer of `size` bytes (1024 when none is given).
pub fn read<H: SerialDevice>(
    state: &mut SerialportState<H>,
    path: String,
    timeout: Option<u64>,
    size: Option<usize>,
) -> (r: Result<Option<ReaderTask<H>>, Error>)
    requires
        old(state).wf(),
    ensures
        final(state).wf(),
        read_post(old(state)@, path@, final(state)@, r),
        r matches Ok(Some(task)) ==> {
            &&& task.wf()
            &&& task.spec_path() == path@
            &&& task.spec_buffer_size() == match size {
                Some(n) => n,
                None => DEFAULT_BUFFER_SIZE,
            }
            &&& task.spec_idle_ms() == match timeout {
                Some(t) => t,
                None => DEFAULT_TIMEOUT_MS,
            }
        },
{
    if get_serialport(state, &path).is_err() {
        return Err(Error::NotOpen);
    }
    if state.is_streaming(&path) {
        return Ok(None);
    }
    match state.clone_handle(&path) {
        Some(cloned) => start_reader(state, path, cloned, timeout, size),
        None => Err(Error::NotOpen),
    }
}

/// Starts a reader on the open, idle port `path` with the outcome of
/// duplicating its handle: with a handle, a fresh stop channel whose sender
/// the registry keeps, and a reader that owns the handle and the receiving
/// end; without one, `CloneFailed` with the device's reason and no change.
pub fn start_reader<H>(
    state: &mut SerialportState<H>,
    path: String,
    cloned: Result<H, String>,
    timeout: Option<u64>,
    size: Option<usize>,
) -> (r: Result<Option<ReaderTask<H>>, Error>)
    requires
        old(state).wf(),
        old(state)@.contains_key(path@),
        !old(state)@[path@].streaming,
    ensures
        final(state).wf(),
        match cloned {
            Ok(_) => {
                &&& final(state)@ == with_streaming(old(state)@, path@, true)
                &&& r matches Ok(Some(task)) && {
                    &&& task.wf()
                    &&& task.spec_path() == path@
                    &&& task.spec_buffer_size() == match size {
                        Some(n) => n,
                        None => DEFAULT_BUFFER_SIZE,
                    }
                    &&& task.spec_idle_ms() == match timeout {
                        Some(t) => t,
                        None => DEFAULT_TIMEOUT_MS,
                    }
                }
            },
            Err(reason) => {
                &&& r == Err::<Option<ReaderTask<H>>, Error>(Error::CloneFailed(reason))
                &&& final(state)@ == old(state)@
            },
        },
{
    match cloned {
        Ok(device) => {
            let (sender, receiver) = cancel_channel();
            state.set_sender(&path, sender);
            let buffer_size = match size {
                Some(n) => n,
                None => DEFAULT_BUFFER_SIZE,
            };
            let idle_ms = match timeout {
                Some(t) => t,
                None => DEFAULT_TIMEOUT_MS,
            };
            Ok(Some(ReaderTask::new(path, device, receiver, buffer_size, idle_ms)))
        },
        Err(reason) => Err(Error::CloneFailed(reason)),
    }
}

/// Stops `path`'s reader, if one streams, and marks the port idle at once, so
/// that a new `read` may start before the old reader has noticed. A stop
/// signal that cannot be delivered means the reader is gone already.
pub fn cancel_read<H>(state: &mut SerialportState<H>, path: String) -> (r: Result<(), Error>)
    requires
        old(state).wf(),
    ensures
        final(state).wf(),
        cancel_read_post(old(state)@, path@, final(state)@, r),
{
    get_serialport(state, &path)?;
    if let Some(sender) = state.take_sender(&path) {
        let _ = send_stop(&sender);
    }
    Ok(())
}

} // verus!
