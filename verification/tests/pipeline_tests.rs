use air_relay::acquisition::{on_frame, CycleOutcome, LoopAction, LoopState};
use air_relay::config::DeviceConfig;
use air_relay::line::{set_custom_baudrate, ControlMasks, Termios2};
use air_relay::queue::{Dequeued, ReadingQueue};
use air_relay::relay::{build_request, RelayCounters, RelayLog, SinkConfig};

#[test]
fn one_frame_from_device_to_store() {
    let device = DeviceConfig::new("/dev/ttyUSB0".to_string());
    assert_eq!(device.baud_rate, 9600);
    let masks = ControlMasks::platform().unwrap();
    let mut speed = Termios2::zeroed();
    set_custom_baudrate(&mut speed, &masks, device.baud_rate);
    assert_eq!(speed.ispeed, 9600);
    assert_eq!(speed.ospeed, 9600);

    let state = LoopState::initial();
    assert_eq!(state.next_action(), LoopAction::Poll);
    let mut buffer: Vec<u8> = vec![0; 1024];
    let frame: [u8; 8] = [0x42, 0x4d, 0x01, 0x2C, 0x00, 0x64, 0x00, 0x96];
    buffer[..8].copy_from_slice(&frame);
    let outcome = on_frame(8, &buffer, 1_700_000_000_000);

    let mut queue = ReadingQueue::new();
    match outcome {
        CycleOutcome::Enqueue(reading) => {
            assert_eq!(reading.tvoc.to_text(), "0.300");
            assert_eq!(reading.formaldehyde.to_text(), "0.100");
            assert_eq!(reading.co2.to_text(), "150");
            assert_eq!(queue.try_enqueue(reading), Ok(()));
        }
        CycleOutcome::Skip(fault) => panic!("skipped: {:?}", fault),
    }
    assert_eq!(queue.len(), 1);

    let conn = SinkConfig {
        host: "store.example.org".to_string(),
        database: "sensors".to_string(),
        username: "u".to_string(),
        password: "p".to_string(),
    };
    let mut counters = RelayCounters::new();
    let reading = match queue.dequeue() {
        Dequeued::Item(reading) => reading,
        other => panic!("nothing in the queue: {:?}", other),
    };
    let request = build_request(&conn, &reading).unwrap();
    assert_eq!(request.url, "https://store.example.org/v1/sql?db=sensors");
    assert_eq!(
        request.statement,
        "insert into air_quality (ts,tvoc,cho2,co2) values (1700000000000,0.300,0.100,150)"
    );
    assert_eq!(counters.record(Ok(200)), RelayLog::Quiet);
    assert_eq!(counters.sent, 1);
    assert!(queue.is_empty());
}
