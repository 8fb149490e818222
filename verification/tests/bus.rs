//! Records over a bus: which registers are touched, in which order, and what
//! a failure does.

use icm20608g::memory::{Fault, RegisterFile};
use icm20608g::structs::{
    AccelMeasurements, AccelOffset, Config, FifoCountRegisters, FifoReadWrite, GyroOffset,
    GyroscopeMeasurements, InterruptEnable, PowerManagement1, ReadRegister, SampleRateDivider,
    TemperatureMeasurements, WhoAmI, WriteRegister,
};
use icm20608g::transport::{Bus, Transport, DEVICE_ADDRESS};

/// A transport that records every transaction and fails the one whose number
/// is `fail_at`, counted from 1.
struct Recorder {
    cells: [u8; 256],
    log: Vec<(char, u8, u8, Option<u8>)>,
    fail_at: Option<usize>,
}

impl Recorder {
    fn new() -> Self {
        Recorder { cells: [0; 256], log: Vec::new(), fail_at: None }
    }

    fn failing_at(transaction: usize) -> Self {
        Recorder { cells: [0; 256], log: Vec::new(), fail_at: Some(transaction) }
    }

    fn fails_now(&self) -> bool {
        self.fail_at == Some(self.log.len())
    }
}

impl Transport for Recorder {
    type Error = String;

    fn write(&mut self, device: u8, register: u8, value: u8) -> Result<(), String> {
        self.log.push(('w', device, register, Some(value)));
        if self.fails_now() {
            return Err(format!("write {} failed", self.log.len()));
        }
        self.cells[register as usize] = value;
        Ok(())
    }

    fn write_read(&mut self, device: u8, register: u8) -> Result<u8, String> {
        self.log.push(('r', device, register, None));
        if self.fails_now() {
            return Err(format!("read {} failed", self.log.len()));
        }
        Ok(self.cells[register as usize])
    }
}

#[test]
fn device_address_is_fixed() {
    assert_eq!(DEVICE_ADDRESS, 0x68);
}

#[test]
fn power_management_1_is_one_write_to_its_register() {
    let record = PowerManagement1 {
        device_reset: false,
        sleep: true,
        accel_cycle: false,
        gyro_standby: false,
        temperature_disabled: true,
        clock_select: 0b101,
    };
    let mut bus = Bus::new(Recorder::new());
    assert_eq!(record.write(&mut bus), Ok(()));
    let device = bus.release();
    assert_eq!(device.log, vec![('w', 0x68, 0x6B, Some(0x4D))]);
}

#[test]
fn a_write_reads_nothing_first() {
    let mut device = Recorder::new();
    device.cells[0x1A] = 0xFF;
    let mut bus = Bus::new(device);
    let record = Config { fifo_mode: false, ext_sync_set: 1, dlpf_cfg: 2 };
    assert_eq!(record.write(&mut bus), Ok(()));
    let device = bus.release();
    assert_eq!(device.log, vec![('w', 0x68, 0x1A, Some(0b0000_1010))]);
    // Every bit comes from the record: what the register held is gone.
    assert_eq!(device.cells[0x1A], 0b0000_1010);
}

#[test]
fn gyro_offset_writes_six_registers_in_ascending_order() {
    let record = GyroOffset { xg_offs: -1, yg_offs: 0, zg_offs: 32767 };
    let mut bus = Bus::new(Recorder::new());
    assert_eq!(record.write(&mut bus), Ok(()));
    assert_eq!(GyroOffset::new(&mut bus), Ok(record));
    let device = bus.release();
    assert_eq!(
        device.log,
        vec![
            ('w', 0x68, 0x13, Some(0xFF)),
            ('w', 0x68, 0x14, Some(0xFF)),
            ('w', 0x68, 0x15, Some(0x00)),
            ('w', 0x68, 0x16, Some(0x00)),
            ('w', 0x68, 0x17, Some(0x7F)),
            ('w', 0x68, 0x18, Some(0xFF)),
            ('r', 0x68, 0x13, None),
            ('r', 0x68, 0x14, None),
            ('r', 0x68, 0x15, None),
            ('r', 0x68, 0x16, None),
            ('r', 0x68, 0x17, None),
            ('r', 0x68, 0x18, None),
        ]
    );
}

#[test]
fn accel_offset_skips_the_gaps_in_its_addresses() {
    let record = AccelOffset { x_offs: -16384, y_offs: 16383, z_offs: 5 };
    let mut bus = Bus::new(Recorder::new());
    assert_eq!(record.write(&mut bus), Ok(()));
    assert_eq!(AccelOffset::new(&mut bus), Ok(record));
    let device = bus.release();
    let registers: Vec<u8> = device.log.iter().map(|entry| entry.2).collect();
    assert_eq!(
        registers,
        vec![0x77, 0x78, 0x7A, 0x7B, 0x7D, 0x7E, 0x77, 0x78, 0x7A, 0x7B, 0x7D, 0x7E]
    );
    assert_eq!(device.cells[0x79], 0);
    assert_eq!(device.cells[0x7C], 0);
    assert_eq!(device.cells[0x77], 0x80);
    assert_eq!(device.cells[0x7B], 0xFE);
}

#[test]
fn a_failed_write_stops_the_operation() {
    for failing in 1..=6usize {
        let record = GyroOffset { xg_offs: 0x0102, yg_offs: 0x0304, zg_offs: 0x0506 };
        let mut bus = Bus::new(Recorder::failing_at(failing));
        assert_eq!(record.write(&mut bus), Err(format!("write {} failed", failing)));
        let device = bus.release();
        // The failed transaction is the last one that was asked for.
        assert_eq!(device.log.len(), failing);
        let registers: Vec<u8> = device.log.iter().map(|entry| entry.2).collect();
        assert_eq!(registers, [0x13, 0x14, 0x15, 0x16, 0x17, 0x18][..failing].to_vec());
        // The registers after the failed one were never written.
        for register in (0x13 + failing - 1)..=0x18 {
            assert_eq!(device.cells[register], 0);
        }
    }
}

#[test]
fn a_failed_read_stops_the_operation_and_gives_no_record() {
    for failing in 1..=6usize {
        let mut bus = Bus::new(Recorder::failing_at(failing));
        assert_eq!(AccelMeasurements::new(&mut bus), Err(format!("read {} failed", failing)));
        let device = bus.release();
        assert_eq!(device.log.len(), failing);
        let registers: Vec<u8> = device.log.iter().map(|entry| entry.2).collect();
        assert_eq!(registers, [0x3B, 0x3C, 0x3D, 0x3E, 0x3F, 0x40][..failing].to_vec());
    }
}

#[test]
fn a_failure_after_the_operation_does_not_touch_it() {
    let mut bus = Bus::new(Recorder::failing_at(7));
    let record = GyroOffset { xg_offs: 1, yg_offs: 2, zg_offs: 3 };
    assert_eq!(record.write(&mut bus), Ok(()));
    assert_eq!(GyroOffset::new(&mut bus), Err("read 7 failed".to_string()));
}

#[test]
fn measurements_read_their_registers_in_ascending_order() {
    let mut device = Recorder::new();
    for (offset, byte) in [0x80u8, 0x00, 0x7F, 0xFF, 0xFF, 0xFE].iter().enumerate() {
        device.cells[0x3B + offset] = *byte;
    }
    device.cells[0x41] = 0x0B;
    device.cells[0x42] = 0xB8;
    for (offset, byte) in [0x00u8, 0x01, 0x00, 0x02, 0xFF, 0xFD].iter().enumerate() {
        device.cells[0x43 + offset] = *byte;
    }
    device.cells[0x72] = 0x01;
    device.cells[0x73] = 0x02;
    let mut bus = Bus::new(device);
    assert_eq!(
        AccelMeasurements::new(&mut bus),
        Ok(AccelMeasurements { x: -32768, y: 32767, z: -2 })
    );
    assert_eq!(
        TemperatureMeasurements::new(&mut bus),
        Ok(TemperatureMeasurements { temp_out: 3000 })
    );
    assert_eq!(
        GyroscopeMeasurements::new(&mut bus),
        Ok(GyroscopeMeasurements { x: 1, y: 2, z: -3 })
    );
    assert_eq!(FifoCountRegisters::new(&mut bus), Ok(FifoCountRegisters { fifo_count: 258 }));
    let device = bus.release();
    let registers: Vec<u8> = device.log.iter().map(|entry| entry.2).collect();
    assert_eq!(
        registers,
        vec![
            0x3B, 0x3C, 0x3D, 0x3E, 0x3F, 0x40, 0x41, 0x42, 0x43, 0x44, 0x45, 0x46, 0x47, 0x48,
            0x72, 0x73
        ]
    );
    assert!(device.log.iter().all(|entry| entry.0 == 'r' && entry.1 == 0x68));
}

#[test]
fn fifo_data_over_the_bus() {
    let mut device = Recorder::new();
    device.cells[0x74] = 0xFF;
    let mut bus = Bus::new(device);
    assert_eq!(FifoReadWrite::new(&mut bus), Ok(FifoReadWrite { fifo_data: None }));
    assert_eq!(FifoReadWrite { fifo_data: None }.write(&mut bus), Ok(()));
    assert_eq!(FifoReadWrite::new(&mut bus), Ok(FifoReadWrite { fifo_data: Some(0) }));
    assert_eq!(FifoReadWrite { fifo_data: Some(0x42) }.write(&mut bus), Ok(()));
    assert_eq!(FifoReadWrite::new(&mut bus), Ok(FifoReadWrite { fifo_data: Some(0x42) }));
    let device = bus.release();
    assert_eq!(
        device.log,
        vec![
            ('r', 0x68, 0x74, None),
            ('w', 0x68, 0x74, Some(0x00)),
            ('r', 0x68, 0x74, None),
            ('w', 0x68, 0x74, Some(0x42)),
            ('r', 0x68, 0x74, None),
        ]
    );
}

#[test]
fn single_register_operations_on_the_bus() {
    let mut bus = Bus::new(Recorder::new());
    assert_eq!(bus.write_register(0x19, 7), Ok(()));
    assert_eq!(bus.read_register(0x19), Ok(7));
    assert_eq!(SampleRateDivider::new(&mut bus), Ok(SampleRateDivider { smplrt_div: 7 }));
    let device = bus.release();
    assert_eq!(
        device.log,
        vec![('w', 0x68, 0x19, Some(7)), ('r', 0x68, 0x19, None), ('r', 0x68, 0x19, None)]
    );
}

#[test]
fn write_registers_keeps_the_order_given() {
    let mut bus = Bus::new(Recorder::new());
    assert_eq!(bus.write_registers(&[(0x20, 1), (0x10, 2), (0x20, 3)]), Ok(()));
    assert_eq!(bus.read_registers(&[0x10, 0x20, 0x10]), Ok(vec![2, 3, 2]));
    assert_eq!(bus.write_registers(&[]), Ok(()));
    assert_eq!(bus.read_registers(&[]), Ok(vec![]));
    let device = bus.release();
    let registers: Vec<u8> = device.log.iter().map(|entry| entry.2).collect();
    assert_eq!(registers, vec![0x20, 0x10, 0x20, 0x10, 0x20, 0x10]);
}

#[test]
fn register_file_round_trips_records() {
    let mut bus = Bus::new(RegisterFile::new());
    let power = PowerManagement1 {
        device_reset: true,
        sleep: false,
        accel_cycle: true,
        gyro_standby: false,
        temperature_disabled: true,
        clock_select: 3,
    };
    let enable = InterruptEnable {
        wom_int_en: true,
        fifo_oflow_en: true,
        gdrive_int_en: false,
        data_rdy_int_en: true,
    };
    let offset = AccelOffset { x_offs: -100, y_offs: 200, z_offs: -16384 };
    assert_eq!(power.write(&mut bus), Ok(()));
    assert_eq!(enable.write(&mut bus), Ok(()));
    assert_eq!(offset.write(&mut bus), Ok(()));
    assert_eq!(PowerManagement1::new(&mut bus), Ok(power));
    assert_eq!(InterruptEnable::new(&mut bus), Ok(enable));
    assert_eq!(AccelOffset::new(&mut bus), Ok(offset));
    let file = bus.release();
    assert_eq!(file.peek(0x6B), 0b1010_1011);
    assert_eq!(file.peek(0x38), 0b1111_0001);
    assert_eq!(
        file.touched_registers(),
        vec![
            0x6B, 0x38, 0x77, 0x78, 0x7A, 0x7B, 0x7D, 0x7E, 0x6B, 0x38, 0x77, 0x78, 0x7A, 0x7B,
            0x7D, 0x7E
        ]
    );
}

#[test]
fn register_file_starts_at_zero_and_can_be_set() {
    let file = RegisterFile::new();
    for register in 0..=255u8 {
        assert_eq!(file.peek(register), 0);
    }
    let mut cells = [0u8; 256];
    cells[0x75] = 0xAF;
    let file = RegisterFile::holding(cells);
    assert_eq!(file.peek(0x75), 0xAF);
    assert_eq!(file.peek(0x74), 0);
    assert_eq!(file.touched_registers(), Vec::<u8>::new());
    let mut bus = Bus::new(file);
    assert_eq!(WhoAmI::new(&mut bus), Ok(WhoAmI { device_id: 0xAF }));
    assert_eq!(bus.release().touched_registers(), vec![0x75]);
}

#[test]
fn register_file_refuses_from_the_chosen_transaction_on() {
    let record = GyroOffset { xg_offs: 0x1122, yg_offs: 0x3344, zg_offs: 0x5566 };
    let mut bus = Bus::new(RegisterFile::failing_after(3));
    assert_eq!(record.write(&mut bus), Err(Fault::Refused));
    assert_eq!(GyroOffset::new(&mut bus), Err(Fault::Refused));
    let file = bus.release();
    // Three writes went through, the fourth was refused, the last two were
    // never asked for; the read stopped at its first register.
    assert_eq!(file.touched_registers(), vec![0x13, 0x14, 0x15, 0x16, 0x13]);
    assert_eq!(file.peek(0x13), 0x11);
    assert_eq!(file.peek(0x14), 0x22);
    assert_eq!(file.peek(0x15), 0x33);
    assert_eq!(file.peek(0x16), 0);
    assert_eq!(file.peek(0x17), 0);
    assert_eq!(file.peek(0x18), 0);
}

#[test]
fn register_file_that_fails_at_once() {
    let mut bus = Bus::new(RegisterFile::failing_after(0));
    assert_eq!(WhoAmI::new(&mut bus), Err(Fault::Refused));
    assert_eq!(SampleRateDivider { smplrt_div: 9 }.write(&mut bus), Err(Fault::Refused));
    let file = bus.release();
    assert_eq!(file.touched_registers(), vec![0x75, 0x19]);
    assert_eq!(file.peek(0x19), 0);
}

#[test]
fn register_file_answers_only_at_the_address_of_the_sensor() {
    let mut file = RegisterFile::new();
    assert_eq!(file.write(0x69, 0x19, 5), Err(Fault::Absent));
    assert_eq!(file.write_read(0x00, 0x19), Err(Fault::Absent));
    assert_eq!(file.peek(0x19), 0);
    assert_eq!(file.write(0x68, 0x19, 5), Ok(()));
    assert_eq!(file.write_read(0x68, 0x19), Ok(5));
    assert_eq!(file.touched_registers(), vec![0x19, 0x19, 0x19, 0x19]);
}

#[test]
fn register_file_counts_only_completed_transactions() {
    let mut file = RegisterFile::failing_after(1);
    // A transaction to another address is not completed and uses up nothing.
    assert_eq!(file.write(0x10, 0x19, 5), Err(Fault::Absent));
    assert_eq!(file.write(0x68, 0x19, 6), Ok(()));
    assert_eq!(file.write(0x68, 0x19, 7), Err(Fault::Refused));
    assert_eq!(file.write_read(0x68, 0x19), Err(Fault::Refused));
    assert_eq!(file.peek(0x19), 6);
}
