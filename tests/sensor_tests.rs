use feather_boards::prop_maker::Board;
use feather_boards::sensor::{
    i16_from_le, normalize, reading_from_sample, Accelerometer, FullScale, Resolution, SensorBus, SensorError,
};

const DEVICE_ADDRESS: u8 = 0x18;
const WHO_AM_I: usize = 0x0F;
const OUT_X_L: usize = 0x28;

/// A bus with one register-file device on it: writes store, reads fetch,
/// and a read with the top bit of the register set walks forward. The
/// sample registers never change.
struct RegisterBus {
    regs: [u8; 128],
    transactions: usize,
    fail_after: Option<usize>,
}

impl RegisterBus {
    fn with_sample(x: i16, chip_id: u8) -> Self {
        let mut regs = [0u8; 128];
        regs[WHO_AM_I] = chip_id;
        let bytes = x.to_le_bytes();
        regs[OUT_X_L] = bytes[0];
        regs[OUT_X_L + 1] = bytes[1];
        regs[OUT_X_L + 2] = 0x10;
        regs[OUT_X_L + 3] = 0x00;
        regs[OUT_X_L + 4] = 0x00;
        regs[OUT_X_L + 5] = 0xC0;
        RegisterBus { regs, transactions: 0, fail_after: None }
    }

    fn tick(&mut self) -> Result<(), ()> {
        self.transactions += 1;
        match self.fail_after {
            Some(n) if self.transactions > n => Err(()),
            _ => Ok(()),
        }
    }
}

impl SensorBus for RegisterBus {
    type Error = ();

    fn write_read(&mut self, address: u8, bytes: &[u8], buffer: &mut [u8]) -> Result<(), ()> {
        self.tick()?;
        assert_eq!(address, DEVICE_ADDRESS);
        let start = (bytes[0] & 0x7F) as usize;
        for (i, b) in buffer.iter_mut().enumerate() {
            *b = self.regs[start + i];
        }
        Ok(())
    }

    fn write(&mut self, address: u8, bytes: &[u8]) -> Result<(), ()> {
        self.tick()?;
        assert_eq!(address, DEVICE_ADDRESS);
        self.regs[bytes[0] as usize] = bytes[1];
        Ok(())
    }
}

/// A bus on which every transaction fails.
struct DeadBus;

impl SensorBus for DeadBus {
    type Error = u8;

    fn write_read(&mut self, _address: u8, _bytes: &[u8], _buffer: &mut [u8]) -> Result<(), u8> {
        Err(7)
    }

    fn write(&mut self, _address: u8, _bytes: &[u8]) -> Result<(), u8> {
        Err(7)
    }
}

#[test]
fn unattached_board_reports_not_present() {
    let mut board: Board<RegisterBus> = Board::new();
    assert!(!board.accelerometer_attached());
    for _ in 0..3 {
        assert!(matches!(board.read_accelerometer(), Err(SensorError::NotPresent)));
    }
    assert!(!board.accelerometer_attached());
}

#[test]
fn attach_on_dead_bus_is_an_init_error() {
    let mut board: Board<DeadBus> = Board::new();
    let r = board.init_accelerometer(DeadBus);
    assert!(matches!(r, Err(SensorError::Init(lis3dh::Error::Bus(7)))));
    assert!(!board.accelerometer_attached());
    assert!(matches!(board.read_accelerometer(), Err(SensorError::NotPresent)));
    assert!(matches!(Accelerometer::attach(DeadBus), Err(SensorError::Init(_))));
}

#[test]
fn attach_with_wrong_chip_id_is_an_init_error() {
    let mut board = Board::new();
    let r = board.init_accelerometer(RegisterBus::with_sample(100, 0x00));
    assert!(matches!(r, Err(SensorError::Init(lis3dh::Error::WrongAddress))));
    assert!(!board.accelerometer_attached());
}

#[test]
fn fixed_bus_gives_the_same_reading_every_time() {
    let mut board = Board::new();
    assert!(board.init_accelerometer(RegisterBus::with_sample(16384, 0x33)).is_ok());
    assert!(board.accelerometer_attached());
    let mut values = Vec::new();
    for _ in 0..5 {
        match board.read_accelerometer() {
            Ok(v) => values.push(v),
            Err(_) => panic!("reading failed"),
        }
    }
    for v in &values {
        assert_eq!(*v, values[0]);
    }
    assert_eq!(values[0].raw_x, 16384);
    assert_eq!(values[0].resolution, Resolution::HighResolution);
    assert_eq!(values[0].range, FullScale::G2);
    assert_eq!(values[0].milli_g, 1024);
}

#[test]
fn negative_sample_is_normalized() {
    let mut board = Board::new();
    assert!(board.init_accelerometer(RegisterBus::with_sample(-16400, 0x33)).is_ok());
    match board.read_accelerometer() {
        Ok(v) => {
            assert_eq!(v.raw_x, -16400);
            assert_eq!(v.milli_g, -1025);
        }
        Err(_) => panic!("reading failed"),
    }
}

#[test]
fn failed_transaction_during_read_is_a_bus_error() {
    let mut bus = RegisterBus::with_sample(16384, 0x33);
    bus.fail_after = Some(40);
    let mut board = Board::new();
    assert!(board.init_accelerometer(bus).is_ok());
    let mut saw_bus_error = false;
    for _ in 0..20 {
        match board.read_accelerometer() {
            Ok(v) => assert_eq!(v.milli_g, 1024),
            Err(SensorError::Bus(lis3dh::Error::Bus(()))) => saw_bus_error = true,
            Err(_) => panic!("unexpected error"),
        }
    }
    assert!(saw_bus_error);
    assert!(board.accelerometer_attached());
}

#[test]
fn normalize_follows_mode_and_range() {
    assert_eq!(normalize(16384, Resolution::HighResolution, FullScale::G2), 1024);
    assert_eq!(normalize(16384, Resolution::HighResolution, FullScale::G16), 12288);
    assert_eq!(normalize(16384, Resolution::Normal, FullScale::G4), 2048);
    assert_eq!(normalize(16384, Resolution::LowPower, FullScale::G8), 4096);
    assert_eq!(normalize(-1, Resolution::HighResolution, FullScale::G2), -1);
    assert_eq!(normalize(-16, Resolution::HighResolution, FullScale::G2), -1);
    assert_eq!(normalize(-17, Resolution::HighResolution, FullScale::G2), -2);
    assert_eq!(normalize(i16::MIN, Resolution::LowPower, FullScale::G16), -128 * 192);
    assert_eq!(normalize(i16::MAX, Resolution::HighResolution, FullScale::G16), 2047 * 12);
    assert_eq!(normalize(0, Resolution::Normal, FullScale::G16), 0);
}

#[test]
fn little_endian_pairs_decode_signed() {
    assert_eq!(i16_from_le(0x34, 0x12), 0x1234);
    assert_eq!(i16_from_le(0x00, 0x80), i16::MIN);
    assert_eq!(i16_from_le(0xFF, 0xFF), -1);
    assert_eq!(i16_from_le(0xFF, 0x7F), i16::MAX);
}

#[test]
fn sample_reading_takes_the_x_bytes() {
    let bytes = [0x00, 0x40, 0x10, 0x00, 0x00, 0xC0];
    let r = reading_from_sample(&bytes, Resolution::HighResolution, FullScale::G2);
    assert_eq!(r.raw_x, 16384);
    assert_eq!(r.milli_g, 1024);
    assert_eq!(r.resolution, Resolution::HighResolution);
    assert_eq!(r.range, FullScale::G2);
    let r = reading_from_sample(&[0xF0, 0xBF, 0, 0, 0, 0], Resolution::Normal, FullScale::G8);
    assert_eq!(r.raw_x, -16400);
    assert_eq!(r.milli_g, -257 * 16);
}
