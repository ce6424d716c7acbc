use std::io::{BufRead, BufReader, Read};

use rluacat::{Fill, Pull, Reader};

/// A source that yields `data` and then reports a read failure.
struct Flaky {
    data: Vec<u8>,
    at: usize,
}

impl Read for Flaky {
    fn read(&mut self, buf: &mut [u8]) -> std::io::Result<usize> {
        if self.at == self.data.len() {
            return Err(std::io::Error::new(std::io::ErrorKind::Other, "flaky"));
        }
        let n = buf.len().min(self.data.len() - self.at);
        buf[..n].copy_from_slice(&self.data[self.at..self.at + n]);
        self.at += n;
        Ok(n)
    }
}

/// Serves one pull from `source` the way a reader callback does, and returns
/// the piece that the VM would see together with what the reader said.
fn pull_from<R: BufRead>(reader: &mut Reader, source: &mut R) -> (Option<Vec<u8>>, Pull) {
    if let Some(n) = reader.pending() {
        source.consume(n);
    }
    match source.fill_buf() {
        Ok(buf) => {
            let pull = reader.filled(Fill::Ready(buf.len()));
            let piece = if pull.null { None } else { Some(buf[..pull.size].to_vec()) };
            (piece, pull)
        }
        Err(_) => {
            let pull = reader.filled(Fill::Failed);
            (None, pull)
        }
    }
}

#[test]
fn fresh_reader_has_nothing_pending() {
    let reader = Reader::new();
    assert_eq!(reader.pending(), None);
    assert_eq!(reader.advance(), 0);
    assert!(!reader.failed());
}

#[test]
fn buffer_is_lent_with_its_size() {
    let mut reader = Reader::new();
    let pull = reader.filled(Fill::Ready(17));
    assert_eq!(pull, Pull { size: 17, null: false });
    assert_eq!(reader.advance(), 17);
    assert_eq!(reader.pending(), Some(17));
    assert!(!reader.failed());
}

#[test]
fn pending_is_the_size_of_the_last_piece_only() {
    let mut reader = Reader::new();
    reader.filled(Fill::Ready(5));
    reader.filled(Fill::Ready(9));
    assert_eq!(reader.pending(), Some(9));
    reader.filled(Fill::Ready(1));
    assert_eq!(reader.pending(), Some(1));
}

#[test]
fn empty_buffer_on_first_pull_reports_size_zero() {
    let mut reader = Reader::new();
    assert_eq!(reader.pending(), None);
    let pull = reader.filled(Fill::Ready(0));
    assert_eq!(pull, Pull { size: 0, null: false });
    assert_eq!(reader.pending(), None);
    assert!(!reader.failed());
}

#[test]
fn empty_buffer_after_data_leaves_nothing_pending() {
    let mut reader = Reader::new();
    reader.filled(Fill::Ready(12));
    let pull = reader.filled(Fill::Ready(0));
    assert_eq!(pull, Pull { size: 0, null: false });
    assert_eq!(reader.pending(), None);
}

#[test]
fn failure_reports_null_and_size_zero() {
    let mut reader = Reader::new();
    let pull = reader.filled(Fill::Failed);
    assert_eq!(pull, Pull { size: 0, null: true });
    assert_eq!(reader.advance(), 0);
    assert_eq!(reader.pending(), None);
    assert!(reader.failed());
}

#[test]
fn failure_after_data_clears_what_was_pending() {
    let mut reader = Reader::new();
    reader.filled(Fill::Ready(64));
    assert_eq!(reader.pending(), Some(64));
    let pull = reader.filled(Fill::Failed);
    assert_eq!(pull, Pull { size: 0, null: true });
    assert_eq!(reader.pending(), None);
    assert!(reader.failed());
}

#[test]
fn failure_is_kept_through_later_pulls() {
    let mut reader = Reader::new();
    reader.filled(Fill::Failed);
    let pull = reader.filled(Fill::Ready(3));
    assert_eq!(pull, Pull { size: 3, null: false });
    assert_eq!(reader.pending(), Some(3));
    assert!(reader.failed());
    reader.filled(Fill::Ready(0));
    assert!(reader.failed());
}

#[test]
fn largest_buffer_is_lent_whole() {
    let mut reader = Reader::new();
    let pull = reader.filled(Fill::Ready(usize::MAX));
    assert_eq!(pull.size, usize::MAX);
    assert!(!pull.null);
    assert_eq!(reader.pending(), Some(usize::MAX));
}

#[test]
fn lent_bytes_are_consumed_or_pending() {
    let fills = [
        Fill::Ready(5),
        Fill::Ready(0),
        Fill::Failed,
        Fill::Ready(3),
        Fill::Ready(8),
        Fill::Failed,
        Fill::Ready(2),
    ];
    let mut reader = Reader::new();
    let mut lent = 0;
    let mut consumed = 0;
    for fill in fills {
        consumed += reader.pending().unwrap_or(0);
        lent += reader.filled(fill).size;
        assert_eq!(lent, consumed + reader.advance());
    }
    assert_eq!(lent, 18);
    assert_eq!(consumed, 16);
}

#[test]
fn pieces_of_a_slice_source_make_up_the_source() {
    let text = b"return 1 + 1";
    let mut source: &[u8] = text;
    let mut reader = Reader::new();
    let (first, pull) = pull_from(&mut reader, &mut source);
    assert_eq!(first, Some(text.to_vec()));
    assert_eq!(pull, Pull { size: 12, null: false });
    let (second, pull) = pull_from(&mut reader, &mut source);
    assert_eq!(second, Some(Vec::new()));
    assert_eq!(pull, Pull { size: 0, null: false });
    assert!(!reader.failed());
}

#[test]
fn pieces_of_a_small_buffer_make_up_the_source_in_order() {
    let text: Vec<u8> = (0..=255u8).cycle().take(1000).collect();
    let mut source = BufReader::with_capacity(7, &text[..]);
    let mut reader = Reader::new();
    let mut seen = Vec::new();
    let mut pulls = 0;
    loop {
        let (piece, pull) = pull_from(&mut reader, &mut source);
        pulls += 1;
        let piece = piece.unwrap();
        assert_eq!(piece.len(), pull.size);
        if piece.is_empty() {
            break;
        }
        assert!(piece.len() <= 7);
        seen.extend_from_slice(&piece);
    }
    assert_eq!(seen, text);
    assert_eq!(pulls, 144);
    assert!(!reader.failed());
}

#[test]
fn empty_source_ends_at_the_first_pull() {
    let mut source: &[u8] = b"";
    let mut reader = Reader::new();
    let (piece, pull) = pull_from(&mut reader, &mut source);
    assert_eq!(piece, Some(Vec::new()));
    assert_eq!(pull, Pull { size: 0, null: false });
    assert_eq!(reader.pending(), None);
}

#[test]
fn failing_source_is_reported_after_its_bytes() {
    let flaky = Flaky { data: b"local x = ".to_vec(), at: 0 };
    let mut source = BufReader::with_capacity(4, flaky);
    let mut reader = Reader::new();
    let mut seen = Vec::new();
    loop {
        let (piece, pull) = pull_from(&mut reader, &mut source);
        match piece {
            Some(piece) => seen.extend_from_slice(&piece),
            None => {
                assert_eq!(pull, Pull { size: 0, null: true });
                break;
            }
        }
    }
    assert_eq!(seen, b"local x = ".to_vec());
    assert!(reader.failed());
    assert_eq!(reader.pending(), None);
}

#[test]
fn source_that_fails_at_once_yields_no_piece() {
    let flaky = Flaky { data: Vec::new(), at: 0 };
    let mut source = BufReader::new(flaky);
    let mut reader = Reader::new();
    let (piece, pull) = pull_from(&mut reader, &mut source);
    assert_eq!(piece, None);
    assert_eq!(pull, Pull { size: 0, null: true });
    assert!(reader.failed());
}
