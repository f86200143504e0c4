use std::collections::VecDeque;
use std::sync::{Arc, Mutex};

use tauri_plugin_serialport::command::{add_opened, signal_summary, start_reader, write_result};
use tauri_plugin_serialport::{
    cancel_read, close, close_all, force_close, get_serialport, open, read, write_binary, Error,
    PortConfig, ReadStep, ReaderTask, SerialDevice, SerialportState,
};

/// A device that hands back what was written to it, one written chunk per
/// read; a read with nothing pending times out. Paths starting with
/// "missing" cannot be opened, "fixed" cannot be duplicated, "broken"
/// refuses writes.
struct Loopback {
    line: Arc<Mutex<VecDeque<Vec<u8>>>>,
    path: String,
}

impl SerialDevice for Loopback {
    fn open_device(path: &String, _config: &PortConfig) -> Result<Self, String> {
        if path.starts_with("missing") {
            return Err("No such file or directory".to_string());
        }
        Ok(Loopback { line: Arc::new(Mutex::new(VecDeque::new())), path: path.clone() })
    }

    fn try_clone_device(&self) -> Result<Self, String> {
        if self.path.starts_with("fixed") {
            return Err("cannot duplicate".to_string());
        }
        Ok(Loopback { line: self.line.clone(), path: self.path.clone() })
    }

    fn write_bytes(&mut self, data: &[u8]) -> Result<usize, String> {
        if self.path.starts_with("broken") {
            return Err("Input/output error".to_string());
        }
        self.line.lock().unwrap().push_back(data.to_vec());
        Ok(data.len())
    }

    fn read_bytes(&mut self, buf: &mut Vec<u8>) -> Result<usize, String> {
        let mut line = self.line.lock().unwrap();
        match line.pop_front() {
            None => Err("Operation timed out".to_string()),
            Some(chunk) => {
                let n = chunk.len().min(buf.len());
                buf[..n].copy_from_slice(&chunk[..n]);
                if n < chunk.len() {
                    line.push_front(chunk[n..].to_vec());
                }
                Ok(n)
            }
        }
    }
}

fn open_default(state: &mut SerialportState<Loopback>, path: &str) -> Result<(), Error> {
    open(state, path.to_string(), 9600, None, None, None, None, None)
}

fn start(state: &mut SerialportState<Loopback>, path: &str) -> ReaderTask<Loopback> {
    read(state, path.to_string(), None, None).unwrap().unwrap()
}

#[test]
fn open_twice_is_already_open() {
    let mut state = SerialportState::<Loopback>::new();
    let first = open(
        &mut state,
        "/dev/ttyUSB0".to_string(),
        115200,
        Some(7),
        None,
        Some("Odd".to_string()),
        Some(1),
        Some(100),
    );
    assert_eq!(first, Ok(()));
    let second = open(&mut state, "/dev/ttyUSB0".to_string(), 9600, None, None, None, None, None);
    assert_eq!(second, Err(Error::AlreadyOpen));
    assert_eq!(state.len(), 1);
    let expected = PortConfig::from_options(115200, Some(7), None, Some("Odd".to_string()), Some(1), Some(100));
    assert_eq!(state.port_config(&"/dev/ttyUSB0".to_string()), Some(expected));
}

#[test]
fn open_failure_inserts_nothing() {
    let mut state = SerialportState::<Loopback>::new();
    let r = open_default(&mut state, "missing0");
    assert_eq!(r, Err(Error::OpenFailed("No such file or directory".to_string())));
    assert!(!state.contains(&"missing0".to_string()));
    assert_eq!(state.len(), 0);
}

#[test]
fn open_several_ports() {
    let mut state = SerialportState::<Loopback>::new();
    assert_eq!(open_default(&mut state, "a"), Ok(()));
    assert_eq!(open_default(&mut state, "b"), Ok(()));
    assert_eq!(state.len(), 2);
    assert!(state.contains(&"a".to_string()));
    assert!(state.contains(&"b".to_string()));
    assert_eq!(get_serialport(&state, &"a".to_string()), Ok(()));
    assert_eq!(get_serialport(&state, &"c".to_string()), Err(Error::NotOpen));
}

#[test]
fn close_unopened_is_not_open() {
    let mut state = SerialportState::<Loopback>::new();
    assert_eq!(close(&mut state, "COM1".to_string()), Err(Error::NotOpen));
}

#[test]
fn force_close_unopened_succeeds() {
    let mut state = SerialportState::<Loopback>::new();
    assert_eq!(force_close(&mut state, "COM1".to_string()), Ok(()));
    assert_eq!(force_close(&mut state, "COM1".to_string()), Ok(()));
    assert_eq!(state.len(), 0);
}

#[test]
fn close_removes_port() {
    let mut state = SerialportState::<Loopback>::new();
    open_default(&mut state, "COM1").unwrap();
    assert_eq!(close(&mut state, "COM1".to_string()), Ok(()));
    assert!(!state.contains(&"COM1".to_string()));
    assert_eq!(close(&mut state, "COM1".to_string()), Err(Error::NotOpen));
    assert_eq!(open_default(&mut state, "COM1"), Ok(()));
}

#[test]
fn close_stops_reader() {
    let mut state = SerialportState::<Loopback>::new();
    open_default(&mut state, "COM1").unwrap();
    let mut task = start(&mut state, "COM1");
    assert_eq!(close(&mut state, "COM1".to_string()), Ok(()));
    assert_eq!(task.step(), ReadStep::Stop);
}

#[test]
fn force_close_stops_reader() {
    let mut state = SerialportState::<Loopback>::new();
    open_default(&mut state, "COM1").unwrap();
    let mut task = start(&mut state, "COM1");
    assert_eq!(force_close(&mut state, "COM1".to_string()), Ok(()));
    assert!(!state.contains(&"COM1".to_string()));
    assert_eq!(task.step(), ReadStep::Stop);
}

#[test]
fn close_after_reader_ended_still_removes() {
    let mut state = SerialportState::<Loopback>::new();
    open_default(&mut state, "COM1").unwrap();
    let task = start(&mut state, "COM1");
    drop(task);
    assert_eq!(close(&mut state, "COM1".to_string()), Ok(()));
    assert!(!state.contains(&"COM1".to_string()));
}

#[test]
fn read_twice_starts_one_reader() {
    let mut state = SerialportState::<Loopback>::new();
    open_default(&mut state, "COM1").unwrap();
    let first = read(&mut state, "COM1".to_string(), None, None).unwrap();
    assert!(first.is_some());
    assert!(state.is_streaming(&"COM1".to_string()));
    let second = read(&mut state, "COM1".to_string(), None, None).unwrap();
    assert!(second.is_none());
    assert!(state.is_streaming(&"COM1".to_string()));
}

#[test]
fn read_unopened_is_not_open() {
    let mut state = SerialportState::<Loopback>::new();
    assert!(matches!(read(&mut state, "COM1".to_string(), None, None), Err(Error::NotOpen)));
}

#[test]
fn read_clone_failure_leaves_port_idle() {
    let mut state = SerialportState::<Loopback>::new();
    open_default(&mut state, "fixed0").unwrap();
    let r = read(&mut state, "fixed0".to_string(), None, None);
    assert!(matches!(r, Err(Error::CloneFailed(reason)) if reason == "cannot duplicate"));
    assert!(!state.is_streaming(&"fixed0".to_string()));
}

#[test]
fn read_defaults_and_overrides() {
    let mut state = SerialportState::<Loopback>::new();
    open_default(&mut state, "a").unwrap();
    open_default(&mut state, "b").unwrap();
    let a = start(&mut state, "a");
    assert_eq!(a.buffer_size(), 1024);
    assert_eq!(a.idle_delay_ms(), 200);
    assert_eq!(a.path(), "a");
    assert_eq!(a.event_name(), "plugin-serialport-read-a");
    let b = read(&mut state, "b".to_string(), Some(10), Some(16)).unwrap().unwrap();
    assert_eq!(b.buffer_size(), 16);
    assert_eq!(b.idle_delay_ms(), 10);
}

#[test]
fn read_after_cancel_restarts() {
    let mut state = SerialportState::<Loopback>::new();
    open_default(&mut state, "COM1").unwrap();
    let mut old_task = start(&mut state, "COM1");
    assert_eq!(cancel_read(&mut state, "COM1".to_string()), Ok(()));
    assert!(!state.is_streaming(&"COM1".to_string()));
    let mut new_task = read(&mut state, "COM1".to_string(), None, None).unwrap().unwrap();
    assert!(state.is_streaming(&"COM1".to_string()));
    assert_eq!(old_task.step(), ReadStep::Stop);
    assert_eq!(new_task.step(), ReadStep::Idle);
}

#[test]
fn cancel_read_unopened_is_not_open() {
    let mut state = SerialportState::<Loopback>::new();
    assert_eq!(cancel_read(&mut state, "COM1".to_string()), Err(Error::NotOpen));
}

#[test]
fn cancel_read_without_reader_succeeds() {
    let mut state = SerialportState::<Loopback>::new();
    open_default(&mut state, "COM1").unwrap();
    assert_eq!(cancel_read(&mut state, "COM1".to_string()), Ok(()));
    assert!(!state.is_streaming(&"COM1".to_string()));
}

#[test]
fn close_all_empties_and_stops_readers() {
    let mut state = SerialportState::<Loopback>::new();
    for p in ["a", "b", "c"] {
        open_default(&mut state, p).unwrap();
    }
    let mut ta = start(&mut state, "a");
    let mut tc = start(&mut state, "c");
    assert_eq!(close_all(&mut state), Ok(()));
    assert_eq!(state.len(), 0);
    assert_eq!(ta.step(), ReadStep::Stop);
    assert_eq!(tc.step(), ReadStep::Stop);
}

#[test]
fn close_all_reports_undelivered_signal() {
    let mut state = SerialportState::<Loopback>::new();
    open_default(&mut state, "a").unwrap();
    open_default(&mut state, "b").unwrap();
    let task = start(&mut state, "a");
    drop(task);
    let r = close_all(&mut state);
    assert!(matches!(r, Err(Error::SignalFailed(_))));
    assert_eq!(state.len(), 0);
}

#[test]
fn close_all_on_empty_registry() {
    let mut state = SerialportState::<Loopback>::new();
    assert_eq!(close_all(&mut state), Ok(()));
    assert_eq!(state.len(), 0);
}

#[test]
fn write_abc_to_mock_device() {
    let mut state = SerialportState::<Loopback>::new();
    open_default(&mut state, "COM1").unwrap();
    assert_eq!(tauri_plugin_serialport::command::write(&mut state, "COM1".to_string(), "abc".to_string()), Ok(3));
    let mut task = start(&mut state, "COM1");
    assert_eq!(task.step(), ReadStep::Emit(tauri_plugin_serialport::ReadData { data: vec![0x61, 0x62, 0x63], size: 3 }));
    assert_eq!(task.step(), ReadStep::Idle);
}

#[test]
fn write_binary_counts_bytes() {
    let mut state = SerialportState::<Loopback>::new();
    open_default(&mut state, "COM1").unwrap();
    assert_eq!(write_binary(&mut state, "COM1".to_string(), vec![0, 255, 7, 8]), Ok(4));
    assert_eq!(tauri_plugin_serialport::command::write(&mut state, "COM1".to_string(), "é".to_string()), Ok(2));
}

#[test]
fn write_unopened_is_not_open() {
    let mut state = SerialportState::<Loopback>::new();
    assert_eq!(tauri_plugin_serialport::command::write(&mut state, "COM1".to_string(), "abc".to_string()), Err(Error::NotOpen));
    assert_eq!(write_binary(&mut state, "COM1".to_string(), vec![1]), Err(Error::NotOpen));
}

#[test]
fn write_failure_is_reported() {
    let mut state = SerialportState::<Loopback>::new();
    open_default(&mut state, "broken0").unwrap();
    assert_eq!(
        tauri_plugin_serialport::command::write(&mut state, "broken0".to_string(), "abc".to_string()),
        Err(Error::WriteFailed("Input/output error".to_string()))
    );
    assert!(state.contains(&"broken0".to_string()));
}

#[test]
fn reader_emits_chunks_and_skips_timeout() {
    let mut state = SerialportState::<Loopback>::new();
    open_default(&mut state, "COM1").unwrap();
    let mut task = start(&mut state, "COM1");
    let mut events: Vec<Vec<u8>> = Vec::new();
    write_binary(&mut state, "COM1".to_string(), vec![1, 2, 3]).unwrap();
    for round in 0..3 {
        if round == 2 {
            write_binary(&mut state, "COM1".to_string(), vec![4]).unwrap();
        }
        match task.step() {
            ReadStep::Emit(d) => {
                assert_eq!(d.size, d.data.len());
                events.push(d.data);
            }
            ReadStep::Idle => {}
            ReadStep::Stop => panic!("reader stopped"),
        }
    }
    assert_eq!(events, vec![vec![1, 2, 3], vec![4]]);
}

#[test]
fn reader_splits_chunk_larger_than_buffer() {
    let mut state = SerialportState::<Loopback>::new();
    open_default(&mut state, "COM1").unwrap();
    let mut task = read(&mut state, "COM1".to_string(), None, Some(2)).unwrap().unwrap();
    write_binary(&mut state, "COM1".to_string(), vec![9, 8, 7]).unwrap();
    assert_eq!(task.step(), ReadStep::Emit(tauri_plugin_serialport::ReadData { data: vec![9, 8], size: 2 }));
    assert_eq!(task.step(), ReadStep::Emit(tauri_plugin_serialport::ReadData { data: vec![7], size: 1 }));
    assert_eq!(task.step(), ReadStep::Idle);
}

#[test]
fn add_opened_inserts_handle() {
    let mut state = SerialportState::<Loopback>::new();
    let config = PortConfig::from_options(19200, Some(6), None, None, None, None);
    let device = Loopback::open_device(&"COM5".to_string(), &config).unwrap();
    assert_eq!(add_opened(&mut state, "COM5".to_string(), config, Ok(device)), Ok(()));
    assert_eq!(state.port_config(&"COM5".to_string()), Some(config));
    assert!(!state.is_streaming(&"COM5".to_string()));
}

#[test]
fn add_opened_keeps_device_reason() {
    let mut state = SerialportState::<Loopback>::new();
    let config = PortConfig::from_options(9600, None, None, None, None, None);
    let r = add_opened(&mut state, "COM5".to_string(), config, Err("Permission denied".to_string()));
    assert_eq!(r, Err(Error::OpenFailed("Permission denied".to_string())));
    assert_eq!(state.len(), 0);
}

#[test]
fn start_reader_with_clone() {
    let mut state = SerialportState::<Loopback>::new();
    open_default(&mut state, "COM1").unwrap();
    let config = PortConfig::from_options(9600, None, None, None, None, None);
    let clone = Loopback::open_device(&"COM1".to_string(), &config).unwrap();
    let task = start_reader(&mut state, "COM1".to_string(), Ok(clone), Some(5), Some(64)).unwrap().unwrap();
    assert!(state.is_streaming(&"COM1".to_string()));
    assert_eq!(task.buffer_size(), 64);
    assert_eq!(task.idle_delay_ms(), 5);
    assert_eq!(task.event_name(), "plugin-serialport-read-COM1");
}

#[test]
fn start_reader_keeps_clone_reason() {
    let mut state = SerialportState::<Loopback>::new();
    open_default(&mut state, "COM1").unwrap();
    let r = start_reader::<Loopback>(&mut state, "COM1".to_string(), Err("Bad file descriptor".to_string()), None, None);
    assert!(matches!(r, Err(Error::CloneFailed(reason)) if reason == "Bad file descriptor"));
    assert!(!state.is_streaming(&"COM1".to_string()));
}

#[test]
fn write_result_maps_device_answer() {
    assert_eq!(write_result(Ok(7)), Ok(7));
    assert_eq!(write_result(Ok(0)), Ok(0));
    assert_eq!(
        write_result(Err("Broken pipe".to_string())),
        Err(Error::WriteFailed("Broken pipe".to_string()))
    );
}

#[test]
fn signal_summary_reports_first_failure() {
    assert_eq!(signal_summary(&Vec::new()), Ok(()));
    assert_eq!(signal_summary(&vec![Ok(()), Ok(())]), Ok(()));
    assert_eq!(
        signal_summary(&vec![Ok(()), Err("gone".to_string()), Err("later".to_string())]),
        Err(Error::SignalFailed("gone".to_string()))
    );
}
