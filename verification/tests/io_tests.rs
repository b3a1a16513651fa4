use pal::io::Error;
use pal::io::ErrorKind;
use pal::io::Initializer;
use pal::io::Read;
use pal::io::read_to_end;

struct ChunksSource {
    // Each step is either a chunk of bytes to hand out, or an error
    // kind to report.
    steps: Vec<Result<Vec<u8>, ErrorKind>>,
    at: usize,
}

impl Read for ChunksSource {
    fn read(&mut self, buf: &mut Vec<u8>, pos: usize) -> Result<usize, Error> {
        if self.at >= self.steps.len() {
            return Ok(0);
        }
        let step = self.steps[self.at].clone();
        self.at += 1;
        match step {
            Ok(chunk) => {
                let room = buf.len() - pos;
                let n = if chunk.len() <= room { chunk.len() } else { room };
                let mut i = 0;
                while i < n {
                    buf[pos + i] = chunk[i];
                    i += 1;
                }
                if n < chunk.len() {
                    // Hand out the rest of this chunk on the next call.
                    self.at -= 1;
                    self.steps[self.at] = Ok(chunk[n..].to_vec());
                }
                Ok(n)
            }
            Err(kind) => Err(Error::new(kind)),
        }
    }
}

#[test]
fn adaptive_read_completeness() {
    // Chunks of sizes [4, 0]: four bytes, then end of stream.
    let mut source = ChunksSource { steps: vec![Ok(vec![10, 20, 30, 40]), Ok(vec![])], at: 0 };
    let mut buf = vec![9, 9];
    let n = read_to_end(&mut source, &mut buf);
    assert!(matches!(n, Ok(4)));
    assert_eq!(buf, vec![9, 9, 10, 20, 30, 40]);
}

#[test]
fn adaptive_read_interrupt_transparency() {
    // Two interrupted reports, then 7 bytes, then end of stream.
    let mut source = ChunksSource {
        steps: vec![
            Err(ErrorKind::Interrupted),
            Err(ErrorKind::Interrupted),
            Ok(vec![1, 2, 3, 4, 5, 6, 7]),
            Ok(vec![]),
        ],
        at: 0,
    };
    let mut buf = Vec::new();
    let n = read_to_end(&mut source, &mut buf);
    assert!(matches!(n, Ok(7)));
    assert_eq!(buf, vec![1, 2, 3, 4, 5, 6, 7]);
}

#[test]
fn adaptive_read_failure_preservation() {
    // Three bytes of progress, then a non-interrupted error: the error
    // is surfaced, the three bytes stay.
    let mut source = ChunksSource {
        steps: vec![Ok(vec![7, 8, 9]), Err(ErrorKind::PermissionDenied)],
        at: 0,
    };
    let mut buf = Vec::new();
    let r = read_to_end(&mut source, &mut buf);
    match r {
        Ok(_) => panic!("the error must be surfaced"),
        Err(e) => assert_eq!(e.kind(), ErrorKind::PermissionDenied),
    }
    assert_eq!(buf, vec![7, 8, 9]);
}

#[test]
fn read_to_end_empty_stream() {
    let mut source = ChunksSource { steps: vec![], at: 0 };
    let mut buf = vec![1, 2, 3];
    let n = read_to_end(&mut source, &mut buf);
    assert!(matches!(n, Ok(0)));
    assert_eq!(buf, vec![1, 2, 3]);
}

#[test]
fn read_to_end_large_stream() {
    // More than one growth step's worth of data.
    let mut steps: Vec<Result<Vec<u8>, ErrorKind>> = Vec::new();
    for i in 0..10 {
        steps.push(Ok(vec![i as u8; 17]));
    }
    let mut source = ChunksSource { steps, at: 0 };
    let mut buf = Vec::new();
    let n = read_to_end(&mut source, &mut buf);
    assert!(matches!(n, Ok(170)));
    assert_eq!(buf.len(), 170);
    assert_eq!(buf[0], 0);
    assert_eq!(buf[169], 9);
}

#[test]
fn initializer_policies() {
    assert!(Initializer::zeroing().should_initialize());
    assert!(!Initializer::nop().should_initialize());

    let mut buf = vec![5, 5, 5, 5];
    Initializer::zeroing().initialize(&mut buf, 2);
    assert_eq!(buf, vec![5, 5, 0, 0]);

    let mut buf = vec![5, 5, 5, 5];
    Initializer::nop().initialize(&mut buf, 2);
    assert_eq!(buf, vec![5, 5, 5, 5]);
}

struct NopSource {
    sent: bool,
}

impl Read for NopSource {
    fn read(&mut self, buf: &mut Vec<u8>, pos: usize) -> Result<usize, Error> {
        if self.sent {
            return Ok(0);
        }
        self.sent = true;
        let data = [11u8, 22, 33];
        assert!(buf.len() - pos >= data.len());
        let mut i = 0;
        while i < data.len() {
            buf[pos + i] = data[i];
            i += 1;
        }
        Ok(data.len())
    }

    fn initializer(&self) -> Initializer {
        // This source never reads from the destination region and its
        // counts are accurate.
        Initializer::nop()
    }
}

#[test]
fn read_to_end_with_opt_out_initializer() {
    let mut source = NopSource { sent: false };
    let mut buf = Vec::new();
    let n = read_to_end(&mut source, &mut buf);
    assert!(matches!(n, Ok(3)));
    assert_eq!(buf, vec![11, 22, 33]);
}

#[test]
fn default_initializer_zeroes() {
    let source = ChunksSource { steps: vec![], at: 0 };
    assert!(source.initializer().should_initialize());
}

#[test]
fn error_accessors() {
    let e = Error::new(ErrorKind::NotFound);
    assert_eq!(e.kind(), ErrorKind::NotFound);
    assert_eq!(e.raw_os_error(), None);
    assert_eq!(e.message(), "");

    let e = Error::from_raw_os_error(13, ErrorKind::PermissionDenied, String::from("denied"));
    assert_eq!(e.kind(), ErrorKind::PermissionDenied);
    assert_eq!(e.raw_os_error(), Some(13));
    assert_eq!(e.message(), "denied");
}
