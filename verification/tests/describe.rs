//! Records as tables.

use icm20608g::describe::{Describe, Row, Value};
use icm20608g::structs::{
    AccelConfig1, AccelConfig2, Config, GyroConfig, GyroOffset, PowerManagement1, PowerManagement2,
};

fn names(rows: &[Row]) -> Vec<&'static str> {
    rows.iter().map(|row| row.name).collect()
}

#[test]
fn power_management_1_table() {
    let record = PowerManagement1 {
        device_reset: false,
        sleep: true,
        accel_cycle: false,
        gyro_standby: false,
        temperature_disabled: true,
        clock_select: 5,
    };
    assert_eq!(PowerManagement1::title(), "PowerManagement1");
    assert_eq!(
        record.rows(),
        vec![
            Row { name: "device_reset", value: Value::Flag(false) },
            Row { name: "sleep", value: Value::Flag(true) },
            Row { name: "accel_cycle", value: Value::Flag(false) },
            Row { name: "gyro_standby", value: Value::Flag(false) },
            Row { name: "temperature_disabled", value: Value::Flag(true) },
            Row { name: "clock_select", value: Value::Unsigned(5) },
        ]
    );
}

#[test]
fn power_management_2_table() {
    let record = PowerManagement2 {
        fifo_lp: true,
        stby_xaccel: false,
        stby_yaccel: true,
        stby_zaccel: false,
        stby_xgyro: true,
        stby_ygyro: false,
        stby_zgyro: true,
    };
    assert_eq!(PowerManagement2::title(), "PowerManagement2");
    let rows = record.rows();
    assert_eq!(
        names(&rows),
        vec![
            "fifo_lp",
            "stby_xaccel",
            "stby_yaccel",
            "stby_zaccel",
            "stby_xgyro",
            "stby_ygyro",
            "stby_zgyro"
        ]
    );
    let values: Vec<Value> = rows.iter().map(|row| row.value).collect();
    assert_eq!(
        values,
        vec![
            Value::Flag(true),
            Value::Flag(false),
            Value::Flag(true),
            Value::Flag(false),
            Value::Flag(true),
            Value::Flag(false),
            Value::Flag(true)
        ]
    );
}

#[test]
fn config_table() {
    let record = Config { fifo_mode: true, ext_sync_set: 4, dlpf_cfg: 6 };
    assert_eq!(Config::title(), "Config");
    assert_eq!(
        record.rows(),
        vec![
            Row { name: "fifo_mode", value: Value::Flag(true) },
            Row { name: "ext_sync_set", value: Value::Unsigned(4) },
            Row { name: "dlpf_cfg", value: Value::Unsigned(6) },
        ]
    );
}

#[test]
fn gyro_config_table() {
    let record =
        GyroConfig { x_st: true, y_st: false, z_st: true, full_scale_select: 2, fchoice_b: 1 };
    assert_eq!(GyroConfig::title(), "GyroConfig");
    assert_eq!(
        record.rows(),
        vec![
            Row { name: "x_st", value: Value::Flag(true) },
            Row { name: "y_st", value: Value::Flag(false) },
            Row { name: "z_st", value: Value::Flag(true) },
            Row { name: "full_scale_select", value: Value::Unsigned(2) },
            Row { name: "fchoice_b", value: Value::Unsigned(1) },
        ]
    );
}

#[test]
fn accel_config_tables() {
    let one = AccelConfig1 { x_st: false, y_st: true, z_st: false, full_scale_select: 3 };
    assert_eq!(AccelConfig1::title(), "AccelConfig1");
    assert_eq!(
        one.rows(),
        vec![
            Row { name: "x_st", value: Value::Flag(false) },
            Row { name: "y_st", value: Value::Flag(true) },
            Row { name: "z_st", value: Value::Flag(false) },
            Row { name: "full_scale_select", value: Value::Unsigned(3) },
        ]
    );
    let two = AccelConfig2 { dec2_cfg: 1, accel_fchoice_b: true, dlpf_cfg: 7 };
    assert_eq!(AccelConfig2::title(), "AccelConfig2");
    assert_eq!(
        two.rows(),
        vec![
            Row { name: "dec2_cfg", value: Value::Unsigned(1) },
            Row { name: "accel_fchoice_b", value: Value::Flag(true) },
            Row { name: "dlpf_cfg", value: Value::Unsigned(7) },
        ]
    );
}

#[test]
fn gyro_offset_table() {
    let record = GyroOffset { xg_offs: -1, yg_offs: 0, zg_offs: 32767 };
    assert_eq!(GyroOffset::title(), "GyroOffset");
    assert_eq!(
        record.rows(),
        vec![
            Row { name: "xg_offs", value: Value::Signed(-1) },
            Row { name: "yg_offs", value: Value::Signed(0) },
            Row { name: "zg_offs", value: Value::Signed(32767) },
        ]
    );
}
