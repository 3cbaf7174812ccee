use std::collections::HashMap;

use cpu_speed::cpu::{
    int_result, parse_reading, temperature_reading, text_result, write_result, Accessor, Error, WritableValue, CPU,
    NO_SENSOR,
};

/// Pseudo-files held in memory; a path can be made to refuse writes.
struct Fake {
    files: HashMap<String, String>,
    read_only: Vec<String>,
}

impl Fake {
    fn new() -> Fake {
        Fake { files: HashMap::new(), read_only: Vec::new() }
    }

    fn with(mut self, path: &str, data: &str) -> Fake {
        self.files.insert(path.to_string(), data.to_string());
        self
    }
}

impl Accessor for Fake {
    fn read_file(&mut self, path: &str) -> Result<String, String> {
        self.files.get(path).cloned().ok_or_else(|| format!("no such file: {}", path))
    }

    fn write_file(&mut self, path: &str, data: &str) -> Result<(), String> {
        if self.read_only.iter().any(|p| p == path) {
            return Err("permission denied".to_string());
        }
        self.files.insert(path.to_string(), data.to_string());
        Ok(())
    }

    fn path_exists(&mut self, path: &str) -> bool {
        self.files.contains_key(path)
    }
}

/// Always answers the same integer and the same text, whatever the path.
struct Constant {
    int: i32,
    text: String,
}

impl Accessor for Constant {
    fn read_file(&mut self, path: &str) -> Result<String, String> {
        if path.ends_with("scaling_governor") || path.ends_with("zflat") {
            Ok(format!("{}\n", self.text))
        } else {
            Ok(format!("{}\n", self.int))
        }
    }

    fn write_file(&mut self, _path: &str, _data: &str) -> Result<(), String> {
        Ok(())
    }

    fn path_exists(&mut self, _path: &str) -> bool {
        true
    }
}

const MAX: &str = "/sys/devices/system/cpu/cpu0/cpufreq/scaling_max_freq";
const MIN: &str = "/sys/devices/system/cpu/cpu0/cpufreq/scaling_min_freq";
const CUR: &str = "/sys/devices/system/cpu/cpu0/cpufreq/scaling_cur_freq";
const GOV: &str = "/sys/devices/system/cpu/cpu0/cpufreq/scaling_governor";
const TEMP: &str = "/sys/class/thermal/thermal_zone0/temp";

fn full_device() -> Fake {
    Fake::new()
        .with(MAX, "3600000\n")
        .with(MIN, "800000\n")
        .with(CUR, "2400000\n")
        .with(GOV, "powersave\n")
        .with(TEMP, "45000\n")
}

#[test]
fn render_unit_test() {
    let mut dev = Constant { int: 42, text: "yflat".to_string() };
    let cpu = CPU::new("cpu0".to_string(), 0);
    assert_eq!(cpu.read_str(&mut dev, "zflat"), Ok("yflat".to_string()));
    assert_eq!(cpu.read_int(&mut dev, "abc"), Ok(42));
}

#[test]
fn paths_follow_core_name() {
    let cpu = CPU::new("cpu3".to_string(), 3);
    assert_eq!(cpu.path("cpufreq/scaling_max_freq"), "/sys/devices/system/cpu/cpu3/cpufreq/scaling_max_freq");
    assert_eq!(cpu.temp_path("temp"), "/sys/class/thermal/thermal_zone3/temp");
}

#[test]
fn update_reads_every_field() {
    let mut dev = full_device();
    let mut cpu = CPU::new("cpu0".to_string(), 0);
    assert_eq!(cpu.init_cpu(&mut dev), Ok(()));
    assert_eq!(cpu.max_freq, 3600000);
    assert_eq!(cpu.min_freq, 800000);
    assert_eq!(cpu.cur_freq, 2400000);
    assert_eq!(cpu.cur_temp, 45000);
    assert_eq!(cpu.gov, "powersave");
    assert_eq!(cpu.name, "cpu0");
}

#[test]
fn missing_thermal_zone_gives_sentinel() {
    let mut dev = full_device();
    dev.files.remove(TEMP);
    let mut cpu = CPU::new("cpu0".to_string(), 0);
    assert_eq!(cpu.read_temp(&mut dev, "temp"), Ok(-1));
    assert_eq!(cpu.update(&mut dev), Ok(()));
    assert_eq!(cpu.cur_temp, NO_SENSOR);
    assert_eq!(temperature_reading(None, "temp"), Ok(-1));
}

#[test]
fn non_numeric_payload_is_parse_error() {
    let mut dev = full_device().with(CUR, "fast\n");
    let mut cpu = CPU::new("cpu0".to_string(), 0);
    let r = cpu.update(&mut dev);
    assert_eq!(r, Err(Error::Parse("cpufreq/scaling_cur_freq".to_string())));
    // The bounds read before the failure stay.
    assert_eq!(cpu.max_freq, 3600000);
    assert_eq!(cpu.min_freq, 800000);
    assert_eq!(cpu.cur_freq, 0);
    assert_eq!(parse_reading("12a\n", "x"), Err(Error::Parse("x".to_string())));
    assert_eq!(parse_reading("", "x"), Err(Error::Parse("x".to_string())));
    assert_eq!(parse_reading("-\n", "x"), Err(Error::Parse("x".to_string())));
}

#[test]
fn parse_reading_values() {
    assert_eq!(parse_reading("2400000\n", "x"), Ok(2400000));
    assert_eq!(parse_reading("-5\n", "x"), Ok(-5));
    assert_eq!(parse_reading("+7", "x"), Ok(7));
    assert_eq!(parse_reading("2147483647\n", "x"), Ok(i32::MAX));
    assert_eq!(parse_reading("-2147483648\n", "x"), Ok(i32::MIN));
    assert_eq!(parse_reading("2147483648\n", "x"), Err(Error::Parse("x".to_string())));
    assert_eq!(parse_reading("99999999999999999999\n", "x"), Err(Error::Parse("x".to_string())));
    assert_eq!(parse_reading("12\n\n", "x"), Err(Error::Parse("x".to_string())));
}

#[test]
fn missing_file_is_io_error() {
    let mut dev = Fake::new();
    let mut cpu = CPU::new("cpu0".to_string(), 0);
    assert!(matches!(cpu.update(&mut dev), Err(Error::Io(_))));
    assert_eq!(cpu.max_freq, 0);
}

#[test]
fn max_round_trip() {
    let mut dev = full_device();
    let mut cpu = CPU::new("cpu0".to_string(), 0);
    assert_eq!(cpu.set_max(&mut dev, 2900000), Ok(()));
    assert_eq!(dev.files.get(MAX).unwrap(), "2900000");
    assert_eq!(cpu.max_freq, 2900000);
    cpu.max_freq = 0;
    assert_eq!(cpu.get_max(&mut dev), Ok(()));
    assert_eq!(cpu.max_freq, 2900000);
}

#[test]
fn min_and_negative_round_trip() {
    let mut dev = full_device();
    let mut cpu = CPU::new("cpu0".to_string(), 0);
    assert_eq!(cpu.set_min(&mut dev, -12), Ok(()));
    assert_eq!(dev.files.get(MIN).unwrap(), "-12");
    assert_eq!(cpu.get_min(&mut dev), Ok(()));
    assert_eq!(cpu.min_freq, -12);
}

#[test]
fn governor_write() {
    let mut dev = full_device();
    let mut cpu = CPU::new("cpu0".to_string(), 0);
    assert_eq!(cpu.set_gov(&mut dev, "performance".to_string()), Ok(()));
    assert_eq!(cpu.gov, "performance");
    assert_eq!(dev.files.get(GOV).unwrap(), "performance");
    assert_eq!(cpu.get_gov(&mut dev), Ok(()));
    assert_eq!(cpu.gov, "performance");
}

#[test]
fn failed_write_keeps_state() {
    let mut dev = full_device();
    dev.read_only.push(MAX.to_string());
    dev.read_only.push(GOV.to_string());
    let mut cpu = CPU::new("cpu0".to_string(), 0);
    cpu.update(&mut dev).unwrap();
    assert!(matches!(cpu.set_max(&mut dev, 1000), Err(Error::Io(_))));
    assert_eq!(cpu.max_freq, 3600000);
    assert!(matches!(cpu.set_gov(&mut dev, "performance".to_string()), Err(Error::Io(_))));
    assert_eq!(cpu.gov, "powersave");
}

#[test]
fn write_request_texts() {
    let mut cpu = CPU::new("cpu1".to_string(), 1);
    cpu.max_freq = 4200000;
    cpu.min_freq = 400000;
    cpu.gov = "schedutil".to_string();
    let (p, d) = cpu.write_request(WritableValue::Max);
    assert_eq!(p, "/sys/devices/system/cpu/cpu1/cpufreq/scaling_max_freq");
    assert_eq!(d, "4200000");
    let (p, d) = cpu.write_request(WritableValue::Min);
    assert_eq!(p, "/sys/devices/system/cpu/cpu1/cpufreq/scaling_min_freq");
    assert_eq!(d, "400000");
    let (p, d) = cpu.write_request(WritableValue::Gov);
    assert_eq!(p, "/sys/devices/system/cpu/cpu1/cpufreq/scaling_governor");
    assert_eq!(d, "schedutil");
}

#[test]
fn take_readings() {
    let mut cpu = CPU::new("cpu0".to_string(), 0);
    assert_eq!(cpu.take_max(Ok("3000\n".to_string())), Ok(()));
    assert_eq!(cpu.max_freq, 3000);
    assert_eq!(cpu.take_min(Ok("1000\n".to_string())), Ok(()));
    assert_eq!(cpu.min_freq, 1000);
    assert_eq!(cpu.take_cur(Ok("2000".to_string())), Ok(()));
    assert_eq!(cpu.cur_freq, 2000);
    assert_eq!(cpu.take_temp(Some(Ok("51000\n".to_string()))), Ok(()));
    assert_eq!(cpu.cur_temp, 51000);
    assert_eq!(cpu.take_temp(None), Ok(()));
    assert_eq!(cpu.cur_temp, -1);
    assert_eq!(cpu.take_gov(Ok("ondemand\n".to_string())), Ok(()));
    assert_eq!(cpu.gov, "ondemand");
}

#[test]
fn take_failures_leave_core() {
    let mut cpu = CPU::new("cpu0".to_string(), 0);
    cpu.max_freq = 7;
    assert_eq!(cpu.take_max(Err("denied".to_string())), Err(Error::Io("denied".to_string())));
    assert_eq!(cpu.take_max(Ok("abc".to_string())), Err(Error::Parse("cpufreq/scaling_max_freq".to_string())));
    assert_eq!(cpu.max_freq, 7);
    assert_eq!(cpu.take_cur(Ok("".to_string())), Err(Error::Parse("cpufreq/scaling_cur_freq".to_string())));
    assert_eq!(cpu.take_temp(Some(Err("busy".to_string()))), Err(Error::Io("busy".to_string())));
    assert_eq!(cpu.take_temp(Some(Ok("hot".to_string()))), Err(Error::Parse("temp".to_string())));
    assert_eq!(cpu.cur_temp, 0);
    assert_eq!(cpu.take_gov(Err("gone".to_string())), Err(Error::Io("gone".to_string())));
    assert_eq!(cpu.gov, "");
}

#[test]
fn accessor_answers() {
    assert_eq!(int_result(Ok("12\n".to_string()), "x"), Ok(12));
    assert_eq!(int_result(Err("m".to_string()), "x"), Err(Error::Io("m".to_string())));
    assert_eq!(text_result(Ok("a b\n".to_string())), Ok("a b".to_string()));
    assert_eq!(text_result(Err("m".to_string())), Err(Error::Io("m".to_string())));
    assert_eq!(write_result(Ok(())), Ok(()));
    assert_eq!(write_result(Err("EINVAL".to_string())), Err(Error::Io("EINVAL".to_string())));
}

#[test]
fn unreadable_thermal_zone_is_io_error() {
    struct Denied;
    impl Accessor for Denied {
        fn read_file(&mut self, _path: &str) -> Result<String, String> {
            Err("permission denied".to_string())
        }
        fn write_file(&mut self, _path: &str, _data: &str) -> Result<(), String> {
            Err("permission denied".to_string())
        }
        fn path_exists(&mut self, _path: &str) -> bool {
            true
        }
    }
    let mut cpu = CPU::new("cpu0".to_string(), 0);
    assert_eq!(cpu.read_temp(&mut Denied, "temp"), Err(Error::Io("permission denied".to_string())));
    assert_eq!(cpu.get_temp(&mut Denied), Err(Error::Io("permission denied".to_string())));
    assert_eq!(cpu.cur_temp, 0);
    assert_eq!(cpu.write_value(&mut Denied, WritableValue::Max), Err(Error::Io("permission denied".to_string())));
}
