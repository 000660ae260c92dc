use pragmatic_logger::buffer::CircularStringsBuffer;
use pragmatic_logger::sink::get_mock_text_data_writer;
use pragmatic_logger::sink::MockDataWriter;
use pragmatic_logger::sink::SinkError;
use pragmatic_logger::sink::TextDataWriter;

fn empty_slots(n: usize) -> Vec<String> {
    let mut b: Vec<String> = Vec::with_capacity(n);
    for _ in 0..n {
        b.push(String::new());
    }
    b
}

fn mock_buffer(n: usize) -> CircularStringsBuffer<MockDataWriter> {
    let (_mock_file, mock_writer) = get_mock_text_data_writer();
    CircularStringsBuffer::new(empty_slots(n), mock_writer)
}

#[test]
fn test_init() {
    const BUFFER_SIZE: usize = 0x10;

    let mut cb = mock_buffer(BUFFER_SIZE);
    cb.push(String::from("1"));
    assert!(cb.get_qty_in_buffer() == 1);
    cb.push(String::from("2"));
    assert!(cb.get_qty_in_buffer() == 2);

    assert!(cb.get(0) == Some(1.to_string()));
    assert!(cb.get(1) == Some(2.to_string()));
    assert!(cb.get(2) == None);
}

#[test]
fn test_wrap() {
    const BUFFER_SIZE: usize = 0x10;

    let mut cb = mock_buffer(BUFFER_SIZE);

    for k in 0..BUFFER_SIZE + 4 {
        cb.push(format!("{}", k));
    }

    assert!(cb.get_qty_in_buffer() == BUFFER_SIZE);

    for k in 4..BUFFER_SIZE + 4 {
        assert!(cb.get(k) == Some(format!("{}", k)));
    }

    assert!(cb.get_min_external_index_in_buffer() == 4);
}

#[test]
fn test_reset() {
    const BUFFER_SIZE: usize = 0x10;

    let mut cb = mock_buffer(BUFFER_SIZE);

    for k in 0..BUFFER_SIZE + 5 {
        cb.push(format!("{}", k));
    }

    assert!(cb.get_qty_in_buffer() == BUFFER_SIZE);

    for k in 5..BUFFER_SIZE + 5 {
        assert!(cb.get(k) == Some(format!("{}", k)));
    }

    assert!(cb.get_min_external_index_in_buffer() == 5);

    cb.reset();
    assert!(cb.get_min_external_index_in_buffer() == 0);
    assert!(cb.get_qty_in_buffer() == 0);
}

#[test]
fn test_reset_fast() {
    const BUFFER_SIZE: usize = 0x10;

    let (mut mock_file, mock_writer) = get_mock_text_data_writer();

    let mut cb = CircularStringsBuffer::new(empty_slots(BUFFER_SIZE), mock_writer);

    for k in 0..BUFFER_SIZE + 8 {
        cb.push(format!("{}", k));
    }

    assert!(cb.get_qty_in_buffer() == BUFFER_SIZE);

    for k in 8..BUFFER_SIZE + 8 {
        assert!(cb.get(k) == Some(format!("{}", k)));
    }

    assert!(cb.get_min_external_index_in_buffer() == 8);

    cb.reset_fast();
    assert!(cb.get_min_external_index_in_buffer() == 0);
    assert!(cb.get_qty_in_buffer() == 0);

    mock_file.process_queued_messages();
    let f = mock_file.get_mock_data();
    assert!(f.len() == 0);
}

#[test]
fn test_more_overflow() {
    const BUFFER_SIZE: usize = 0x10;

    let mut cb = mock_buffer(BUFFER_SIZE);

    for k in 0..BUFFER_SIZE * 1000 {
        cb.push(format!("{}", k));
    }

    assert!(cb.get_qty_in_buffer() == BUFFER_SIZE);

    for k in ((BUFFER_SIZE * 1000) - BUFFER_SIZE)..1000 * BUFFER_SIZE {
        assert!(cb.get(k) == Some(format!("{}", k)));
    }
    assert!(cb.get(((BUFFER_SIZE * 1000) - BUFFER_SIZE) - 1) == None);
    assert!(cb.get(BUFFER_SIZE * 1000) == None);

    assert!(cb.does_index_exist(((BUFFER_SIZE * 1000) - BUFFER_SIZE) - 1) == false);
    assert!(cb.does_index_exist(BUFFER_SIZE * 1000) == false);

    assert!(cb.does_index_exist((BUFFER_SIZE * 1000) - BUFFER_SIZE) == true);
    assert!(cb.does_index_exist((BUFFER_SIZE * 1000) - 1) == true);

    assert!(cb.get_min_external_index_in_buffer() == ((BUFFER_SIZE * 1000) - BUFFER_SIZE));

    cb.reset();
    assert!(cb.get_min_external_index_in_buffer() == 0);
    assert!(cb.get_qty_in_buffer() == 0);
}

#[test]
fn test_wrap_and_write() {
    const BUFFER_SIZE: usize = 0x10;
    let out_path = "test_wrap_and_write.txt";

    let (mut mock_file, mock_writer) = get_mock_text_data_writer();

    let mut cb = CircularStringsBuffer::new(empty_slots(BUFFER_SIZE), mock_writer);

    // Wrap around is +4 past size of buffer
    for k in 0..BUFFER_SIZE + 4 {
        cb.push(format!("{}", k));
    }

    assert!(cb.get_qty_in_buffer() == BUFFER_SIZE);

    // First 4 values were over written by wrapped data. Total size is still BUFFER_SIZE
    for k in 4..BUFFER_SIZE + 4 {
        assert!(cb.get(k) == Some(format!("{}", k)));
    }

    assert!(cb.get_min_external_index_in_buffer() == 4);

    assert!(cb.write_to_file_and_clear(out_path).is_ok());

    mock_file.process_queued_messages();

    let mock_file_data = mock_file.get_mock_data();

    // Header written at start of each data dump
    const HEADER_SIZE: usize = 1;
    for k in 4..BUFFER_SIZE + 4 {
        let v = format!("{}", k);
        assert!(*mock_file_data[k - 4 + HEADER_SIZE] == v);
    }

    assert!(BUFFER_SIZE + HEADER_SIZE == mock_file_data.len());
}

// Flush on a buffer whose occupancy is 20 pushes capped at 16: exactly one
// header line plus the 16 live lines "4".."19", oldest first, and the
// buffer is empty afterwards.
#[test]
fn test_flush_line_count() {
    const BUFFER_SIZE: usize = 0x10;

    let (mut mock_file, mock_writer) = get_mock_text_data_writer();
    let mut cb = CircularStringsBuffer::new(empty_slots(BUFFER_SIZE), mock_writer);

    for k in 0..20 {
        cb.push(format!("{}", k));
    }
    assert_eq!(cb.get_qty_in_buffer(), 16);

    assert!(cb.write_to_file_and_clear("test_flush_line_count.txt").is_ok());
    assert_eq!(cb.get_qty_in_buffer(), 0);
    assert_eq!(cb.get_min_external_index_in_buffer(), 0);

    mock_file.process_queued_messages();
    let lines = mock_file.get_mock_data();
    assert_eq!(lines.len(), 17);
    assert_eq!(lines[0], "\n");
    for k in 4..20 {
        assert_eq!(lines[k - 4 + 1], format!("{}", k));
    }
}

// Flushing an empty buffer succeeds and writes nothing at all.
#[test]
fn test_flush_empty_buffer() {
    const BUFFER_SIZE: usize = 0x10;

    let (mut mock_file, mock_writer) = get_mock_text_data_writer();
    let mut cb = CircularStringsBuffer::new(empty_slots(BUFFER_SIZE), mock_writer);

    assert!(cb.write_to_file_and_clear("test_flush_empty.txt").is_ok());

    mock_file.process_queued_messages();
    assert_eq!(mock_file.get_mock_data().len(), 0);
}

// A sink that is already open makes the flush fail with the open error,
// but the buffer is still cleared.
#[test]
fn test_flush_open_failure() {
    const BUFFER_SIZE: usize = 0x10;

    let (mut mock_file, mut mock_writer) = get_mock_text_data_writer();
    assert!(mock_writer.open("already_open.txt").is_ok());

    let mut cb = CircularStringsBuffer::new(empty_slots(BUFFER_SIZE), mock_writer);
    cb.push(String::from("lost line"));

    let r = cb.write_to_file_and_clear("test_flush_open_failure.txt");
    assert_eq!(r, Err("File open failed in write_to_file_and_clear()"));
    assert_eq!(cb.get_qty_in_buffer(), 0);

    mock_file.process_queued_messages();
    assert_eq!(mock_file.get_mock_data().len(), 0);
}

// A small flush resets the counters without touching slot text, so the
// same logical window can be pushed and read again afterwards.
#[test]
fn test_flush_then_reuse() {
    const BUFFER_SIZE: usize = 0x10;

    let (mut mock_file, mock_writer) = get_mock_text_data_writer();
    let mut cb = CircularStringsBuffer::new(empty_slots(BUFFER_SIZE), mock_writer);

    cb.push(String::from("a"));
    cb.push(String::from("b"));
    assert!(cb.write_to_file_and_clear("test_flush_then_reuse.txt").is_ok());
    assert_eq!(cb.get_qty_in_buffer(), 0);

    cb.push(String::from("c"));
    assert_eq!(cb.get(0), Some(String::from("c")));

    mock_file.process_queued_messages();
    let lines = mock_file.get_mock_data();
    assert_eq!(lines.len(), 3);
    assert_eq!(lines[0], "\n");
    assert_eq!(lines[1], "a");
    assert_eq!(lines[2], "b");
}

// The sink contract: writes fail with NotConnected until an open, a
// second open fails with AlreadyOpen, and close disconnects again.
#[test]
fn test_mock_sink_lifecycle() {
    let (mut mock_file, mut w) = get_mock_text_data_writer();

    assert_eq!(w.write("early"), Err(SinkError::NotConnected));
    assert!(w.open("lifecycle.txt").is_ok());
    assert_eq!(w.open("lifecycle.txt"), Err(SinkError::AlreadyOpen));
    assert!(w.write("during").is_ok());
    w.close();
    assert_eq!(w.write("late"), Err(SinkError::NotConnected));

    mock_file.process_queued_messages();
    let lines = mock_file.get_mock_data();
    assert_eq!(lines.len(), 1);
    assert_eq!(lines[0], "during");
}
