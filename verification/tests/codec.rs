//! What each record kind encodes to and decodes from.

use icm20608g::structs::{
    AccelConfig1, AccelConfig2, AccelMeasurements, AccelOffset, Config, FifoCountRegisters,
    FifoEnable, FifoReadWrite, FsyncInterrupt, GyroConfig, GyroOffset, GyroscopeMeasurements,
    IntelligenceControl, InterruptEnable, InterruptPinConfig, InterruptStatus, LowPowerModeConf,
    PowerManagement1, PowerManagement2, SampleRateDivider, SignalPathReset,
    TemperatureMeasurements, UserControl, Vec3, WakeOnMotion, WhoAmI,
};

#[test]
fn power_management_1_scenario() {
    let record = PowerManagement1 {
        device_reset: false,
        sleep: true,
        accel_cycle: false,
        gyro_standby: false,
        temperature_disabled: true,
        clock_select: 0b101,
    };
    assert_eq!(PowerManagement1::ADDRESS, 0x6B);
    assert_eq!(record.encode(), 0b0100_1101);
    assert_eq!(record.encode(), 0x4D);
    assert_eq!(PowerManagement1::decode(0x4D), record);
}

#[test]
fn power_management_1_masks_a_clock_source_that_is_too_wide() {
    let record = PowerManagement1 {
        device_reset: false,
        sleep: false,
        accel_cycle: false,
        gyro_standby: false,
        temperature_disabled: false,
        clock_select: 0b1111_1010,
    };
    assert_eq!(record.encode(), 0b0000_0010);
}

#[test]
fn power_management_1_every_flag_has_its_own_bit() {
    let clear = PowerManagement1 {
        device_reset: false,
        sleep: false,
        accel_cycle: false,
        gyro_standby: false,
        temperature_disabled: false,
        clock_select: 0,
    };
    assert_eq!(clear.encode(), 0);
    assert_eq!(PowerManagement1 { device_reset: true, ..clear }.encode(), 0x80);
    assert_eq!(PowerManagement1 { sleep: true, ..clear }.encode(), 0x40);
    assert_eq!(PowerManagement1 { accel_cycle: true, ..clear }.encode(), 0x20);
    assert_eq!(PowerManagement1 { gyro_standby: true, ..clear }.encode(), 0x10);
    assert_eq!(PowerManagement1 { temperature_disabled: true, ..clear }.encode(), 0x08);
    assert_eq!(PowerManagement1 { clock_select: 7, ..clear }.encode(), 0x07);
}

#[test]
fn power_management_1_round_trips_every_representable_record() {
    for byte in 0..=255u8 {
        let record = PowerManagement1::decode(byte);
        assert!(record.clock_select < 8);
        assert_eq!(record.encode(), byte);
        assert_eq!(PowerManagement1::decode(record.encode()), record);
    }
}

#[test]
fn power_management_2_layout() {
    let record = PowerManagement2 {
        fifo_lp: true,
        stby_xaccel: true,
        stby_yaccel: false,
        stby_zaccel: true,
        stby_xgyro: false,
        stby_ygyro: true,
        stby_zgyro: true,
    };
    assert_eq!(PowerManagement2::ADDRESS, 0x6C);
    assert_eq!(record.encode(), 0b1010_1011);
    assert_eq!(PowerManagement2::decode(0b1010_1011), record);
    // Bit 6 is reserved: ignored when read.
    assert_eq!(PowerManagement2::decode(0b1110_1011), record);
}

#[test]
fn power_management_2_never_sets_the_reserved_bit() {
    for byte in 0..=255u8 {
        let again = PowerManagement2::decode(byte).encode();
        assert_eq!(again, byte & 0b1011_1111);
    }
}

#[test]
fn config_layout() {
    let record = Config { fifo_mode: true, ext_sync_set: 0b101, dlpf_cfg: 0b011 };
    assert_eq!(Config::ADDRESS, 0x1A);
    assert_eq!(record.encode(), 0b0110_1011);
    assert_eq!(Config::decode(0b0110_1011), record);
    assert_eq!(Config::decode(0b1110_1011), record);
}

#[test]
fn config_a_wide_value_does_not_reach_its_neighbours() {
    let record = Config { fifo_mode: false, ext_sync_set: 0xFF, dlpf_cfg: 0 };
    assert_eq!(record.encode(), 0b0011_1000);
    let record = Config { fifo_mode: false, ext_sync_set: 0, dlpf_cfg: 0xFF };
    assert_eq!(record.encode(), 0b0000_0111);
}

#[test]
fn gyro_config_layout() {
    let record =
        GyroConfig { x_st: true, y_st: false, z_st: true, full_scale_select: 0b10, fchoice_b: 0b01 };
    assert_eq!(GyroConfig::ADDRESS, 0x1B);
    assert_eq!(record.encode(), 0b1011_0001);
    assert_eq!(GyroConfig::decode(0b1011_0001), record);
    assert_eq!(GyroConfig::decode(0b1011_0101), record);
}

#[test]
fn accel_config_1_layout() {
    let record = AccelConfig1 { x_st: false, y_st: true, z_st: true, full_scale_select: 0b11 };
    assert_eq!(AccelConfig1::ADDRESS, 0x1C);
    assert_eq!(record.encode(), 0b0111_1000);
    assert_eq!(AccelConfig1::decode(0b0111_1000), record);
    assert_eq!(AccelConfig1::decode(0b0111_1111), record);
}

#[test]
fn accel_config_2_layout() {
    let record = AccelConfig2 { dec2_cfg: 0b10, accel_fchoice_b: true, dlpf_cfg: 0b110 };
    assert_eq!(AccelConfig2::ADDRESS, 0x1D);
    assert_eq!(record.encode(), 0b0010_1110);
    assert_eq!(AccelConfig2::decode(0b0010_1110), record);
    assert_eq!(AccelConfig2::decode(0b1110_1110), record);
}

#[test]
fn sample_rate_divider_is_the_byte_itself() {
    assert_eq!(SampleRateDivider::ADDRESS, 0x19);
    for byte in 0..=255u8 {
        let record = SampleRateDivider { smplrt_div: byte };
        assert_eq!(record.encode(), byte);
        assert_eq!(SampleRateDivider::decode(byte), record);
    }
}

#[test]
fn wake_on_motion_is_the_byte_itself() {
    assert_eq!(WakeOnMotion::ADDRESS, 0x1F);
    let record = WakeOnMotion { wom_thr: 0xA5 };
    assert_eq!(record.encode(), 0xA5);
    assert_eq!(WakeOnMotion::decode(0xA5), record);
}

#[test]
fn low_power_mode_layout() {
    let record = LowPowerModeConf { gyro_cycle: true, g_avgcfg: 0b101, lposc_clksel: 0b1011 };
    assert_eq!(LowPowerModeConf::ADDRESS, 0x1E);
    assert_eq!(record.encode(), 0b1101_1011);
    assert_eq!(LowPowerModeConf::decode(0b1101_1011), record);
    let wide = LowPowerModeConf { gyro_cycle: false, g_avgcfg: 0xFF, lposc_clksel: 0xF0 };
    assert_eq!(wide.encode(), 0b0111_0000);
}

#[test]
fn fifo_enable_layout() {
    let record = FifoEnable {
        temp_fifo_en: true,
        xg_fifo_en: false,
        yg_fifo_en: true,
        zg_fifo_en: false,
        accel_fifo_en: true,
    };
    assert_eq!(FifoEnable::ADDRESS, 0x23);
    assert_eq!(record.encode(), 0b1010_1000);
    assert_eq!(FifoEnable::decode(0b1010_1000), record);
    assert_eq!(FifoEnable::decode(0b1010_1111), record);
}

#[test]
fn fsync_interrupt_reads_the_top_bit() {
    assert_eq!(FsyncInterrupt::ADDRESS, 0x36);
    assert_eq!(FsyncInterrupt::decode(0x80), FsyncInterrupt { fsync_int: true });
    assert_eq!(FsyncInterrupt::decode(0x7F), FsyncInterrupt { fsync_int: false });
    assert_eq!(FsyncInterrupt::decode(0xFF), FsyncInterrupt { fsync_int: true });
}

#[test]
fn interrupt_pin_config_layout() {
    let record = InterruptPinConfig {
        int_level: true,
        int_open: false,
        latch_int_en: true,
        int_rd_clear: true,
        fsync_int_level: false,
        fsync_int_mode_en: true,
    };
    assert_eq!(InterruptPinConfig::ADDRESS, 0x37);
    assert_eq!(record.encode(), 0b1011_0100);
    assert_eq!(InterruptPinConfig::decode(0b1011_0100), record);
    assert_eq!(InterruptPinConfig::decode(0b1011_0111), record);
}

#[test]
fn interrupt_enable_writes_wake_on_motion_to_three_bits() {
    let record = InterruptEnable {
        wom_int_en: true,
        fifo_oflow_en: false,
        gdrive_int_en: true,
        data_rdy_int_en: true,
    };
    assert_eq!(InterruptEnable::ADDRESS, 0x38);
    assert_eq!(record.encode(), 0b1110_0101);
    assert_eq!(InterruptEnable::decode(0b1110_0101), record);
    let off = InterruptEnable { wom_int_en: false, ..record };
    assert_eq!(off.encode(), 0b0000_0101);
    // Only the top bit of the three is read back.
    assert!(InterruptEnable::decode(0b1000_0000).wom_int_en);
    assert!(!InterruptEnable::decode(0b0110_0000).wom_int_en);
}

#[test]
fn interrupt_status_layout() {
    assert_eq!(InterruptStatus::ADDRESS, 0x3A);
    assert_eq!(
        InterruptStatus::decode(0b1001_0101),
        InterruptStatus { wom_int: true, fifo_oflow_int: true, gdrive_int: true, data_rdy_int: true }
    );
    assert_eq!(
        InterruptStatus::decode(0b0110_1010),
        InterruptStatus {
            wom_int: false,
            fifo_oflow_int: false,
            gdrive_int: false,
            data_rdy_int: false
        }
    );
}

#[test]
fn signal_path_reset_layout() {
    let record = SignalPathReset { accel_rst: true, temp_rst: false };
    assert_eq!(SignalPathReset::ADDRESS, 0x68);
    assert_eq!(record.encode(), 0b0000_0010);
    assert_eq!(SignalPathReset::decode(0b0000_0010), record);
    assert_eq!(SignalPathReset { accel_rst: false, temp_rst: true }.encode(), 0b0000_0001);
    assert_eq!(SignalPathReset::decode(0b1111_1110), record);
}

#[test]
fn intelligence_control_layout() {
    let record = IntelligenceControl { accel_intel_en: true, accel_intel_mode: false };
    assert_eq!(IntelligenceControl::ADDRESS, 0x69);
    assert_eq!(record.encode(), 0b1000_0000);
    assert_eq!(IntelligenceControl::decode(0b1000_0000), record);
    assert_eq!(
        IntelligenceControl { accel_intel_en: false, accel_intel_mode: true }.encode(),
        0b0100_0000
    );
}

#[test]
fn user_control_layout() {
    let record =
        UserControl { fifo_en: true, i2c_if_dis: false, fifo_rst: true, sig_cond_rst: true };
    assert_eq!(UserControl::ADDRESS, 0x6A);
    assert_eq!(record.encode(), 0b0100_0101);
    assert_eq!(UserControl::decode(0b0100_0101), record);
    assert_eq!(UserControl::decode(0b1110_1111).i2c_if_dis, false);
    assert_eq!(
        UserControl { fifo_en: false, i2c_if_dis: true, fifo_rst: false, sig_cond_rst: false }
            .encode(),
        0b0001_0000
    );
}

#[test]
fn who_am_i_is_the_byte_itself() {
    assert_eq!(WhoAmI::ADDRESS, 0x75);
    assert_eq!(WhoAmI::decode(0xAF), WhoAmI { device_id: 0xAF });
}

#[test]
fn gyro_offset_scenario() {
    let record = GyroOffset { xg_offs: -1, yg_offs: 0, zg_offs: 32767 };
    assert_eq!(record.encode(), [0xFF, 0xFF, 0x00, 0x00, 0x7F, 0xFF]);
    assert_eq!(GyroOffset::decode([0xFF, 0xFF, 0x00, 0x00, 0x7F, 0xFF]), record);
    assert_eq!(
        [
            GyroOffset::ADDRESS_XH,
            GyroOffset::ADDRESS_XL,
            GyroOffset::ADDRESS_YH,
            GyroOffset::ADDRESS_YL,
            GyroOffset::ADDRESS_ZH,
            GyroOffset::ADDRESS_ZL
        ],
        [0x13, 0x14, 0x15, 0x16, 0x17, 0x18]
    );
}

#[test]
fn gyro_offset_sign_boundary() {
    let record = GyroOffset { xg_offs: i16::MIN, yg_offs: i16::MAX, zg_offs: -32767 };
    assert_eq!(record.encode(), [0x80, 0x00, 0x7F, 0xFF, 0x80, 0x01]);
    assert_eq!(GyroOffset::decode(record.encode()), record);
}

#[test]
fn gyro_offset_round_trips_every_value() {
    for value in i16::MIN..=i16::MAX {
        let record = GyroOffset { xg_offs: value, yg_offs: !value, zg_offs: value.wrapping_add(1) };
        assert_eq!(GyroOffset::decode(record.encode()), record);
    }
}

#[test]
fn gyro_offset_an_axis_owns_its_two_bytes() {
    let a = GyroOffset { xg_offs: 0x1234, yg_offs: 0x5678, zg_offs: -2 };
    let b = GyroOffset { yg_offs: -0x0102, ..a };
    let (ea, eb) = (a.encode(), b.encode());
    assert_eq!(ea[0..2], eb[0..2]);
    assert_eq!(ea[4..6], eb[4..6]);
    assert_ne!(ea[2..4], eb[2..4]);
}

#[test]
fn accel_offset_sign_boundary() {
    let least = AccelOffset { x_offs: -16384, y_offs: -16384, z_offs: -16384 };
    assert_eq!(least.encode(), [0x80, 0x00, 0x80, 0x00, 0x80, 0x00]);
    assert_eq!(AccelOffset::decode(least.encode()), least);
    let greatest = AccelOffset { x_offs: 16383, y_offs: 16383, z_offs: 16383 };
    assert_eq!(greatest.encode(), [0x7F, 0xFE, 0x7F, 0xFE, 0x7F, 0xFE]);
    assert_eq!(AccelOffset::decode(greatest.encode()), greatest);
}

#[test]
fn accel_offset_shifts_by_one_bit() {
    let record = AccelOffset { x_offs: 1, y_offs: -1, z_offs: 0x0155 };
    assert_eq!(record.encode(), [0x00, 0x02, 0xFF, 0xFE, 0x02, 0xAA]);
    assert_eq!(AccelOffset::decode([0x00, 0x02, 0xFF, 0xFE, 0x02, 0xAA]), record);
    assert_eq!(
        [
            AccelOffset::ADDRESS_XH,
            AccelOffset::ADDRESS_XL,
            AccelOffset::ADDRESS_YH,
            AccelOffset::ADDRESS_YL,
            AccelOffset::ADDRESS_ZH,
            AccelOffset::ADDRESS_ZL
        ],
        [0x77, 0x78, 0x7A, 0x7B, 0x7D, 0x7E]
    );
}

#[test]
fn accel_offset_ignores_the_reserved_bit_when_read() {
    let with = AccelOffset::decode([0x12, 0x35, 0x00, 0x01, 0xFF, 0xFF]);
    let without = AccelOffset::decode([0x12, 0x34, 0x00, 0x00, 0xFF, 0xFE]);
    assert_eq!(with, without);
    assert_eq!(with, AccelOffset { x_offs: 0x091A, y_offs: 0, z_offs: -1 });
}

#[test]
fn accel_offset_round_trips_every_value_of_fifteen_bits() {
    for value in -16384..=16383i16 {
        let record = AccelOffset { x_offs: value, y_offs: -1 - value, z_offs: value };
        let bytes = record.encode();
        assert_eq!(bytes[1] & 1, 0);
        assert_eq!(bytes[3] & 1, 0);
        assert_eq!(bytes[5] & 1, 0);
        assert_eq!(AccelOffset::decode(bytes), record);
    }
}

#[test]
fn accel_offset_drops_the_sixteenth_bit() {
    let record = AccelOffset { x_offs: 16384, y_offs: -16385, z_offs: 0 };
    assert_eq!(record.encode(), [0x80, 0x00, 0x7F, 0xFE, 0x00, 0x00]);
    assert_eq!(
        AccelOffset::decode(record.encode()),
        AccelOffset { x_offs: -16384, y_offs: 16383, z_offs: 0 }
    );
}

#[test]
fn accel_measurements_layout() {
    assert_eq!(
        AccelMeasurements::decode([0x80, 0x00, 0x7F, 0xFF, 0xFF, 0xFE]),
        AccelMeasurements { x: -32768, y: 32767, z: -2 }
    );
    assert_eq!(
        [
            AccelMeasurements::ADDRESS_XH,
            AccelMeasurements::ADDRESS_XL,
            AccelMeasurements::ADDRESS_YH,
            AccelMeasurements::ADDRESS_YL,
            AccelMeasurements::ADDRESS_ZH,
            AccelMeasurements::ADDRESS_ZL
        ],
        [0x3B, 0x3C, 0x3D, 0x3E, 0x3F, 0x40]
    );
}

#[test]
fn gyroscope_measurements_layout() {
    assert_eq!(
        GyroscopeMeasurements::decode([0x01, 0x02, 0xFE, 0xFD, 0x00, 0x80]),
        GyroscopeMeasurements { x: 0x0102, y: -259, z: 128 }
    );
    assert_eq!(
        [
            GyroscopeMeasurements::ADDRESS_XH,
            GyroscopeMeasurements::ADDRESS_XL,
            GyroscopeMeasurements::ADDRESS_YH,
            GyroscopeMeasurements::ADDRESS_YL,
            GyroscopeMeasurements::ADDRESS_ZH,
            GyroscopeMeasurements::ADDRESS_ZL
        ],
        [0x43, 0x44, 0x45, 0x46, 0x47, 0x48]
    );
}

#[test]
fn temperature_layout() {
    assert_eq!(TemperatureMeasurements::ADDRESS_H, 0x41);
    assert_eq!(TemperatureMeasurements::ADDRESS_L, 0x42);
    assert_eq!(
        TemperatureMeasurements::decode([0x0B, 0xB8]),
        TemperatureMeasurements { temp_out: 3000 }
    );
    assert_eq!(
        TemperatureMeasurements::decode([0xF4, 0x48]),
        TemperatureMeasurements { temp_out: -3000 }
    );
    assert_eq!(
        TemperatureMeasurements::decode([0x80, 0x00]),
        TemperatureMeasurements { temp_out: i16::MIN }
    );
    assert_eq!(
        TemperatureMeasurements::decode([0x7F, 0xFF]),
        TemperatureMeasurements { temp_out: i16::MAX }
    );
}

#[test]
fn fifo_count_is_unsigned() {
    assert_eq!(FifoCountRegisters::ADDRESS_H, 0x72);
    assert_eq!(FifoCountRegisters::ADDRESS_L, 0x73);
    assert_eq!(FifoCountRegisters::decode([0x02, 0x00]), FifoCountRegisters { fifo_count: 512 });
    assert_eq!(FifoCountRegisters::decode([0xFF, 0xFF]), FifoCountRegisters { fifo_count: 65535 });
    assert_eq!(FifoCountRegisters::decode([0x80, 0x01]), FifoCountRegisters { fifo_count: 32769 });
}

#[test]
fn fifo_data_sentinel() {
    assert_eq!(FifoReadWrite::ADDRESS, 0x74);
    assert_eq!(FifoReadWrite::NO_DATA, 0xFF);
    assert_eq!(FifoReadWrite::decode(0xFF), FifoReadWrite { fifo_data: None });
    for byte in 0..=254u8 {
        assert_eq!(FifoReadWrite::decode(byte), FifoReadWrite { fifo_data: Some(byte) });
    }
    assert_eq!(FifoReadWrite { fifo_data: None }.encode(), 0x00);
    assert_eq!(FifoReadWrite { fifo_data: Some(0x5A) }.encode(), 0x5A);
    assert_eq!(FifoReadWrite { fifo_data: Some(0xFF) }.encode(), 0xFF);
}

#[test]
fn fifo_data_without_a_byte_reads_back_as_zero() {
    let written = FifoReadWrite { fifo_data: None }.encode();
    assert_eq!(FifoReadWrite::decode(written), FifoReadWrite { fifo_data: Some(0) });
}

#[test]
fn bit_isolation_on_concrete_records() {
    let a = GyroConfig { x_st: true, y_st: true, z_st: false, full_scale_select: 1, fchoice_b: 2 };
    let b = GyroConfig { full_scale_select: 2, ..a };
    // Only bits 4 and 3 belong to the full-scale range.
    assert_eq!((a.encode() ^ b.encode()) & !0b0001_1000, 0);
    assert_ne!(a.encode(), b.encode());
    let c = GyroConfig { y_st: false, ..a };
    assert_eq!(a.encode() ^ c.encode(), 0b0100_0000);
    let d = InterruptEnable {
        wom_int_en: false,
        fifo_oflow_en: true,
        gdrive_int_en: false,
        data_rdy_int_en: true,
    };
    let e = InterruptEnable { wom_int_en: true, ..d };
    assert_eq!(d.encode() ^ e.encode(), 0b1110_0000);
}

#[test]
fn vec3_holds_one_value_for_each_axis() {
    let v = Vec3 { x: 1i16, y: -2i16, z: 3i16 };
    assert_eq!(v, Vec3 { x: 1, y: -2, z: 3 });
    assert_eq!(v.x + v.y + v.z, 2);
}
