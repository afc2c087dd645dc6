use mandelbrot::file::{close, open, File, Filestate};

#[test]
fn new_file_is_empty_and_closed() {
    let f = File::new("1.txt");
    assert_eq!(f.name, "1.txt");
    assert!(f.data.is_empty());
    assert_eq!(f.state, Filestate::Closed);
}

#[test]
fn new_with_data_keeps_data_and_stays_closed() {
    let f = File::new_with_data("2.txt", vec![1, 2, 3]);
    assert_eq!(f.name, "2.txt");
    assert_eq!(f.data, vec![1, 2, 3]);
    assert_eq!(f.state, Filestate::Closed);
}

#[test]
fn read_is_rejected_while_closed() {
    let f = File::new_with_data("3.txt", vec![9, 9]);
    let mut buffer: Vec<u8> = vec![];
    let r = f.read(&mut buffer);
    assert_eq!(r, Err(String::from("File must be open for reading")));
    assert!(buffer.is_empty());
}

#[test]
fn open_read_close_round_trip() {
    let mut f5 = File::new_with_data("5.txt", vec![114, 117, 115, 116, 33]);
    let mut buffer: Vec<u8> = vec![];

    assert!(f5.read(&mut buffer).is_err());

    f5 = open(f5).unwrap();
    assert_eq!(f5.state, Filestate::Open);
    let f5_length = f5.read(&mut buffer);
    assert_eq!(f5_length, Ok(5));
    assert_eq!(buffer, vec![114, 117, 115, 116, 33]);

    f5 = close(f5).unwrap();
    assert_eq!(f5.state, Filestate::Closed);
    assert_eq!(f5.name, "5.txt");
    assert_eq!(String::from_utf8_lossy(&buffer), "rust!");
}

#[test]
fn read_appends_to_existing_buffer() {
    let f = open(File::new_with_data("6.txt", vec![4, 5])).unwrap();
    let mut buffer: Vec<u8> = vec![1, 2, 3];
    assert_eq!(f.read(&mut buffer), Ok(2));
    assert_eq!(buffer, vec![1, 2, 3, 4, 5]);
}

#[test]
fn labels_follow_the_state() {
    let f = File::new_with_data("5.txt", vec![1]);
    assert_eq!(f.state.label(), "CLOSED");
    assert_eq!(f.label(), "<5.txt (CLOSED)>");
    let f = open(f).unwrap();
    assert_eq!(f.state.label(), "OPEN");
    assert_eq!(f.label(), "<5.txt (OPEN)>");
}
