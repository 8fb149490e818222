//! Records as tables: the name of a record kind, and its fields by name with
//! their values. How a table is shown is left to the caller.

use crate::structs::{
    AccelConfig1, AccelConfig2, Config, GyroConfig, GyroOffset, PowerManagement1, PowerManagement2,
};
use vstd::prelude::*;

verus! {

/// The value of one field.
#[derive(Clone, Copy, Debug, PartialEq, Eq)]
pub enum Value {
    /// A flag of one bit.
    Flag(bool),
    /// An unsigned magnitude or an enumerated code.
    Unsigned(u8),
    /// A signed magnitude.
    Signed(i16),
}

/// One row of a table: a field and its value.
#[derive(Clone, Copy, Debug, PartialEq, Eq)]
pub struct Row {
    pub name: &'static str,
    pub value: Value,
}

impl Row {
    /// The row as a pair of the field's name and its value.
    pub open spec fn view(&self) -> (Seq<char>, Value) {
        (self.name@, self.value)
    }
}

/// A record that can be laid out as a table.
pub trait Describe {
    /// The name of the record kind.
    spec fn heading() -> Seq<char>;

    /// The fields of the record in the order of their declaration, each with
    /// its name and its value.
    spec fn table(&self) -> Seq<(Seq<char>, Value)>;

    /// The name of the record kind.
    fn title() -> (title: &'static str)
        ensures
            title@ == Self::heading(),
    ;

    /// The rows of the table: one for each field, in the order of their
    /// declaration.
    fn rows(&self) -> (rows: Vec<Row>)
        ensures
            rows@.map_values(|row: Row| row@) == self.table(),
    ;
}

impl Describe for PowerManagement1 {
    open spec fn heading() -> Seq<char> {
        "PowerManagement1"@
    }

    open spec fn table(&self) -> Seq<(Seq<char>, Value)> {
        seq![
            ("device_reset"@, Value::Flag(self.device_reset)),
            ("sleep"@, Value::Flag(self.sleep)),
            ("accel_cycle"@, Value::Flag(self.accel_cycle)),
            ("gyro_standby"@, Value::Flag(self.gyro_standby)),
            ("temperature_disabled"@, Value::Flag(self.temperature_disabled)),
            ("clock_select"@, Value::Unsigned(self.clock_select)),
        ]
    }

    fn title() -> (title: &'static str) {
        "PowerManagement1"
    }

    fn rows(&self) -> (rows: Vec<Row>) {
        let rows = vec![
            Row { name: "device_reset", value: Value::Flag(self.device_reset) },
            Row { name: "sleep", value: Value::Flag(self.sleep) },
            Row { name: "accel_cycle", value: Value::Flag(self.accel_cycle) },
            Row { name: "gyro_standby", value: Value::Flag(self.gyro_standby) },
            Row { name: "temperature_disabled", value: Value::Flag(self.temperature_disabled) },
            Row { name: "clock_select", value: Value::Unsigned(self.clock_select) },
        ];
        assert(rows@.map_values(|row: Row| row@) == self.table());
        rows
    }
}

impl Describe for PowerManagement2 {
    open spec fn heading() -> Seq<char> {
        "PowerManagement2"@
    }

    open spec fn table(&self) -> Seq<(Seq<char>, Value)> {
        seq![
            ("fifo_lp"@, Value::Flag(self.fifo_lp)),
            ("stby_xaccel"@, Value::Flag(self.stby_xaccel)),
            ("stby_yaccel"@, Value::Flag(self.stby_yaccel)),
            ("stby_zaccel"@, Value::Flag(self.stby_zaccel)),
            ("stby_xgyro"@, Value::Flag(self.stby_xgyro)),
            ("stby_ygyro"@, Value::Flag(self.stby_ygyro)),
            ("stby_zgyro"@, Value::Flag(self.stby_zgyro)),
        ]
    }

    fn title() -> (title: &'static str) {
        "PowerManagement2"
    }

    fn rows(&self) -> (rows: Vec<Row>) {
        let rows = vec![
            Row { name: "fifo_lp", value: Value::Flag(self.fifo_lp) },
            Row { name: "stby_xaccel", value: Value::Flag(self.stby_xaccel) },
            Row { name: "stby_yaccel", value: Value::Flag(self.stby_yaccel) },
            Row { name: "stby_zaccel", value: Value::Flag(self.stby_zaccel) },
            Row { name: "stby_xgyro", value: Value::Flag(self.stby_xgyro) },
            Row { name: "stby_ygyro", value: Value::Flag(self.stby_ygyro) },
            Row { name: "stby_zgyro", value: Value::Flag(self.stby_zgyro) },
        ];
        assert(rows@.map_values(|row: Row| row@) == self.table());
        rows
    }
}

impl Describe for Config {
    open spec fn heading() -> Seq<char> {
        "Config"@
    }

    open spec fn table(&self) -> Seq<(Seq<char>, Value)> {
        seq![
            ("fifo_mode"@, Value::Flag(self.fifo_mode)),
            ("ext_sync_set"@, Value::Unsigned(self.ext_sync_set)),
            ("dlpf_cfg"@, Value::Unsigned(self.dlpf_cfg)),
        ]
    }

    fn title() -> (title: &'static str) {
        "Config"
    }

    fn rows(&self) -> (rows: Vec<Row>) {
        let rows = vec![
            Row { name: "fifo_mode", value: Value::Flag(self.fifo_mode) },
            Row { name: "ext_sync_set", value: Value::Unsigned(self.ext_sync_set) },
            Row { name: "dlpf_cfg", value: Value::Unsigned(self.dlpf_cfg) },
        ];
        assert(rows@.map_values(|row: Row| row@) == self.table());
        rows
    }
}

impl Describe for GyroConfig {
    open spec fn heading() -> Seq<char> {
        "GyroConfig"@
    }

    open spec fn table(&self) -> Seq<(Seq<char>, Value)> {
        seq![
            ("x_st"@, Value::Flag(self.x_st)),
            ("y_st"@, Value::Flag(self.y_st)),
            ("z_st"@, Value::Flag(self.z_st)),
            ("full_scale_select"@, Value::Unsigned(self.full_scale_select)),
            ("fchoice_b"@, Value::Unsigned(self.fchoice_b)),
        ]
    }

    fn title() -> (title: &'static str) {
        "GyroConfig"
    }

    fn rows(&self) -> (rows: Vec<Row>) {
        let rows = vec![
            Row { name: "x_st", value: Value::Flag(self.x_st) },
            Row { name: "y_st", value: Value::Flag(self.y_st) },
            Row { name: "z_st", value: Value::Flag(self.z_st) },
            Row { name: "full_scale_select", value: Value::Unsigned(self.full_scale_select) },
            Row { name: "fchoice_b", value: Value::Unsigned(self.fchoice_b) },
        ];
        assert(rows@.map_values(|row: Row| row@) == self.table());
        rows
    }
}

impl Describe for AccelConfig1 {
    open spec fn heading() -> Seq<char> {
        "AccelConfig1"@
    }

    open spec fn table(&self) -> Seq<(Seq<char>, Value)> {
        seq![
            ("x_st"@, Value::Flag(self.x_st)),
            ("y_st"@, Value::Flag(self.y_st)),
            ("z_st"@, Value::Flag(self.z_st)),
            ("full_scale_select"@, Value::Unsigned(self.full_scale_select)),
        ]
    }

    fn title() -> (title: &'static str) {
        "AccelConfig1"
    }

    fn rows(&self) -> (rows: Vec<Row>) {
        let rows = vec![
            Row { name: "x_st", value: Value::Flag(self.x_st) },
            Row { name: "y_st", value: Value::Flag(self.y_st) },
            Row { name: "z_st", value: Value::Flag(self.z_st) },
            Row { name: "full_scale_select", value: Value::Unsigned(self.full_scale_select) },
        ];
        assert(rows@.map_values(|row: Row| row@) == self.table());
        rows
    }
}

impl Describe for AccelConfig2 {
    open spec fn heading() -> Seq<char> {
        "AccelConfig2"@
    }

    open spec fn table(&self) -> Seq<(Seq<char>, Value)> {
        seq![
            ("dec2_cfg"@, Value::Unsigned(self.dec2_cfg)),
            ("accel_fchoice_b"@, Value::Flag(self.accel_fchoice_b)),
            ("dlpf_cfg"@, Value::Unsigned(self.dlpf_cfg)),
        ]
    }

    fn title() -> (title: &'static str) {
        "AccelConfig2"
    }

    fn rows(&self) -> (rows: Vec<Row>) {
        let rows = vec![
            Row { name: "dec2_cfg", value: Value::Unsigned(self.dec2_cfg) },
            Row { name: "accel_fchoice_b", value: Value::Flag(self.accel_fchoice_b) },
            Row { name: "dlpf_cfg", value: Value::Unsigned(self.dlpf_cfg) },
        ];
        assert(rows@.map_values(|row: Row| row@) == self.table());
        rows
    }
}

impl Describe for GyroOffset {
    open spec fn heading() -> Seq<char> {
        "GyroOffset"@
    }

    open spec fn table(&self) -> Seq<(Seq<char>, Value)> {
        seq![
            ("xg_offs"@, Value::Signed(self.xg_offs)),
            ("yg_offs"@, Value::Signed(self.yg_offs)),
            ("zg_offs"@, Value::Signed(self.zg_offs)),
        ]
    }

    fn title() -> (title: &'static str) {
        "GyroOffset"
    }

    fn rows(&self) -> (rows: Vec<Row>) {
        let rows = vec![
            Row { name: "xg_offs", value: Value::Signed(self.xg_offs) },
            Row { name: "yg_offs", value: Value::Signed(self.yg_offs) },
            Row { name: "zg_offs", value: Value::Signed(self.zg_offs) },
        ];
        assert(rows@.map_values(|row: Row| row@) == self.table());
        rows
    }
}

} // verus!
