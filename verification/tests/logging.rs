use starter::logging::{
    error_log_file_path, log_file_path, open_stdout_logfile_or_discard, rotated_log_file_path,
    Discard, FileStep, LogWorker, Sink, MAX_LOGFILE_LENGTH,
};

/// The log directory as the worker's decisions leave it, kept in memory.
struct Directory {
    current: Option<Vec<u8>>,
    rotated: Option<Vec<u8>>,
    writable: bool,
}

impl Directory {
    /// Carries out the steps of a reopening and says whether the file is open.
    fn reopen(&mut self) -> bool {
        let steps = open_stdout_logfile_or_discard(self.current.is_some());
        let mut opened = false;
        for step in steps {
            if !self.writable {
                continue;
            }
            match step {
                FileStep::RemoveRotated => self.rotated = None,
                FileStep::RenameCurrentToRotated => self.rotated = self.current.take(),
                FileStep::OpenCurrent => {
                    self.current = Some(Vec::new());
                    opened = true;
                }
            }
        }
        opened
    }
}

/// Runs the worker over `lines` the way the program does.
fn drain(directory: &mut Directory, lines: &[Vec<u8>]) -> (LogWorker, usize) {
    let mut worker = LogWorker::start(directory.reopen());
    let mut consumed = 0;
    for line in lines {
        if worker.on_read(Some(line.len())) {
            break;
        }
        consumed += 1;
        let ok = match worker.current_sink() {
            Sink::File => {
                if directory.writable {
                    directory.current.as_mut().unwrap().extend_from_slice(line);
                    true
                } else {
                    false
                }
            }
            Sink::Discard => Discard {}.write(line) == Ok(line.len()),
        };
        if worker.on_write(line.len(), ok) {
            let opened = directory.reopen();
            worker.on_reopen(opened);
        }
    }
    (worker, consumed)
}

#[test]
fn ceiling_is_twenty_mebibytes() {
    assert_eq!(MAX_LOGFILE_LENGTH, 20 * 1024 * 1024);
}

#[test]
fn log_files_stand_in_the_base_directory() {
    assert_eq!(log_file_path("/data/clash"), "/data/clash/app.log");
    assert_eq!(rotated_log_file_path("/data/clash"), "/data/clash/app.log.old");
    assert_eq!(error_log_file_path("/data/clash"), "/data/clash/app_err.log");
    assert_eq!(log_file_path("/data/clash/"), "/data/clash/app.log");
    assert_eq!(log_file_path(""), "app.log");
}

#[test]
fn discard_accepts_everything() {
    let mut sink = Discard {};
    assert_eq!(sink.write(b"hello\n"), Ok(6));
    assert_eq!(sink.write(b""), Ok(0));
    assert_eq!(sink.flush(), Ok(()));
}

#[test]
fn reopening_removes_the_old_file_before_renaming() {
    assert_eq!(
        open_stdout_logfile_or_discard(true),
        vec![FileStep::RemoveRotated, FileStep::RenameCurrentToRotated, FileStep::OpenCurrent]
    );
    assert_eq!(
        open_stdout_logfile_or_discard(false),
        vec![FileStep::RemoveRotated, FileStep::OpenCurrent]
    );
}

#[test]
fn reopening_without_a_current_file_still_removes_the_old_one() {
    let mut directory =
        Directory { current: None, rotated: Some(b"long ago\n".to_vec()), writable: true };
    assert!(directory.reopen());
    assert_eq!(directory.rotated, None);
    assert_eq!(directory.current, Some(Vec::new()));
}

#[test]
fn worker_starts_with_the_sink_that_the_open_gave() {
    let worker = LogWorker::start(true);
    assert_eq!(worker.current_sink(), Sink::File);
    assert_eq!(worker.bytes_written(), 0);
    let worker = LogWorker::start(false);
    assert_eq!(worker.current_sink(), Sink::Discard);
    assert_eq!(worker.bytes_written(), 0);
}

#[test]
fn worker_stops_only_at_the_end_of_the_stream() {
    let worker = LogWorker::start(true);
    assert!(worker.on_read(Some(0)));
    assert!(worker.on_read(None));
    assert!(!worker.on_read(Some(1)));
    assert!(!worker.on_read(Some(usize::MAX)));
    let worker = LogWorker::start(false);
    assert!(!worker.on_read(Some(80)));
    assert!(worker.on_read(Some(0)));
}

#[test]
fn worker_counts_bytes_up_to_the_ceiling() {
    let mut worker = LogWorker::start(true);
    assert!(!worker.on_write(100, true));
    assert_eq!(worker.bytes_written(), 100);
    assert!(!worker.on_write(MAX_LOGFILE_LENGTH - 101, true));
    assert_eq!(worker.bytes_written(), MAX_LOGFILE_LENGTH - 1);
    assert!(worker.on_write(1, true));
    assert_eq!(worker.bytes_written(), 0);
    assert_eq!(worker.current_sink(), Sink::File);
}

#[test]
fn worker_reopens_after_a_failed_write() {
    let mut worker = LogWorker::start(true);
    assert!(!worker.on_write(10, true));
    assert!(worker.on_write(10, false));
    assert_eq!(worker.bytes_written(), 0);
    worker.on_reopen(false);
    assert_eq!(worker.current_sink(), Sink::Discard);
    worker.on_reopen(true);
    assert_eq!(worker.current_sink(), Sink::File);
    assert_eq!(worker.bytes_written(), 0);
}

#[test]
fn worker_takes_a_line_of_any_length() {
    let mut worker = LogWorker::start(true);
    assert!(!worker.on_write(5, true));
    assert!(worker.on_write(usize::MAX, true));
    assert_eq!(worker.bytes_written(), 0);
}

#[test]
fn rotation_keeps_every_byte_across_one_rotation() {
    let mut directory = Directory { current: None, rotated: None, writable: true };
    let mebibyte = 1024 * 1024;
    let lines: Vec<Vec<u8>> = (0..25u8).map(|i| vec![i; mebibyte]).collect();
    let (worker, consumed) = drain(&mut directory, &lines);
    assert_eq!(consumed, 25);
    let rotated = directory.rotated.unwrap();
    let current = directory.current.unwrap();
    assert_eq!(rotated.len(), 20 * mebibyte);
    assert_eq!(current.len(), 5 * mebibyte);
    assert_eq!(rotated.len() + current.len(), 25 * mebibyte);
    assert_eq!(worker.bytes_written(), current.len());
    let mut all = rotated;
    all.extend_from_slice(&current);
    assert_eq!(all, lines.concat());
}

#[test]
fn rotation_starts_the_next_write_in_an_empty_file() {
    let mut directory = Directory { current: None, rotated: None, writable: true };
    let lines = vec![vec![b'a'; MAX_LOGFILE_LENGTH - 1], vec![b'b'; 1]];
    let (worker, _) = drain(&mut directory, &lines);
    assert_eq!(directory.current, Some(Vec::new()));
    assert_eq!(directory.rotated.as_ref().map(|f| f.len()), Some(MAX_LOGFILE_LENGTH));
    assert_eq!(worker.bytes_written(), 0);
    let lines = vec![b"next\n".to_vec()];
    let mut worker = worker;
    assert!(!worker.on_write(lines[0].len(), true));
    assert_eq!(worker.bytes_written(), 5);
}

#[test]
fn second_rotation_replaces_the_rotated_file() {
    let mut directory =
        Directory { current: Some(b"from the last run\n".to_vec()), rotated: None, writable: true };
    let lines =
        vec![vec![b'a'; MAX_LOGFILE_LENGTH], vec![b'b'; MAX_LOGFILE_LENGTH], vec![b'c'; 3]];
    let (worker, consumed) = drain(&mut directory, &lines);
    assert_eq!(consumed, 3);
    assert_eq!(directory.rotated, Some(vec![b'b'; MAX_LOGFILE_LENGTH]));
    assert_eq!(directory.current, Some(vec![b'c'; 3]));
    assert_eq!(worker.bytes_written(), 3);
}

#[test]
fn start_puts_the_log_of_the_last_run_aside() {
    let mut directory = Directory {
        current: Some(b"last run\n".to_vec()),
        rotated: Some(b"the run before\n".to_vec()),
        writable: true,
    };
    let (_, _) = drain(&mut directory, &[b"hello\n".to_vec()]);
    assert_eq!(directory.rotated, Some(b"last run\n".to_vec()));
    assert_eq!(directory.current, Some(b"hello\n".to_vec()));
}

#[test]
fn unwritable_directory_makes_the_worker_discard() {
    let mut directory = Directory { current: None, rotated: None, writable: false };
    let lines: Vec<Vec<u8>> = (0..50).map(|_| vec![b'x'; 1024 * 1024]).collect();
    let (worker, consumed) = drain(&mut directory, &lines);
    assert_eq!(consumed, 50);
    assert_eq!(worker.current_sink(), Sink::Discard);
    assert!(worker.bytes_written() < MAX_LOGFILE_LENGTH);
    assert_eq!(directory.current, None);
    assert_eq!(directory.rotated, None);
}

#[test]
fn directory_that_becomes_unwritable_does_not_stop_the_worker() {
    let mut directory = Directory { current: None, rotated: None, writable: true };
    let (mut worker, _) = drain(&mut directory, &[b"first\n".to_vec()]);
    assert_eq!(worker.current_sink(), Sink::File);
    directory.writable = false;
    assert!(worker.on_write(7, false));
    worker.on_reopen(directory.reopen());
    assert_eq!(worker.current_sink(), Sink::Discard);
    for _ in 0..100 {
        assert!(!worker.on_read(Some(7)));
        let accepted = Discard {}.write(b"later\n\n");
        assert_eq!(accepted, Ok(7));
        assert!(!worker.on_write(7, true));
    }
    assert_eq!(worker.bytes_written(), 700);
    assert_eq!(directory.current, Some(b"first\n".to_vec()));
}
