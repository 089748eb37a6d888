use fieldnode::pipe::{BytePipe, UART_PIPE_CAPACITY};

#[test]
fn bytes_beyond_capacity_arrive_in_order() {
    let data: Vec<u8> = (0..10_000u32).map(|i| (i * 7 % 251) as u8).collect();
    let mut pipe = BytePipe::new(UART_PIPE_CAPACITY);
    let mut sent = 0usize;
    let mut received: Vec<u8> = Vec::new();
    while received.len() < data.len() {
        sent += pipe.try_write(&data[sent..]);
        let chunk = pipe.try_read(1000);
        received.extend_from_slice(&chunk);
    }
    assert_eq!(sent, data.len());
    assert_eq!(received, data);
    assert!(pipe.is_empty());
}

#[test]
fn write_into_full_pipe_takes_nothing() {
    let mut pipe = BytePipe::new(4);
    assert_eq!(pipe.try_write(&[1, 2, 3, 4, 5, 6]), 4);
    assert_eq!(pipe.free_capacity(), 0);
    assert_eq!(pipe.try_write(&[7]), 0);
    assert_eq!(pipe.try_read(10), vec![1, 2, 3, 4]);
}

#[test]
fn read_of_empty_pipe_yields_nothing() {
    let mut pipe = BytePipe::new(8);
    assert!(pipe.try_read(5).is_empty());
    assert_eq!(pipe.len(), 0);
}

#[test]
fn ring_wraps_around() {
    let mut pipe = BytePipe::new(5);
    assert_eq!(pipe.try_write(&[1, 2, 3, 4]), 4);
    assert_eq!(pipe.try_read(3), vec![1, 2, 3]);
    assert_eq!(pipe.try_write(&[5, 6, 7, 8, 9]), 4);
    assert_eq!(pipe.len(), 5);
    assert_eq!(pipe.try_read(2), vec![4, 5]);
    assert_eq!(pipe.try_read(9), vec![6, 7, 8]);
}
