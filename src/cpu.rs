//! The state of one logical core, read from and written to its pseudo-files
//! through an [`Accessor`].
use vstd::prelude::*;

use crate::display::{cpu_line, render_cpu};
use crate::decimal::{decimal_of, i32_value, int_text, parse_i32};
use crate::system::{calculate_cpu_percent, usage_of, ProcStat};
use crate::text::{reading_text, replace, replace_all, trim_newline};

verus! {

/// Why a read or write of a pseudo-file failed.
#[derive(Debug, Clone, PartialEq, Eq)]
pub enum Error {
    /// The path could not be opened, read or written; holds the system's message.
    Io(String),
    /// A numeric pseudo-file held something other than a base-10 integer;
    /// holds the sub-path that was read.
    Parse(String),
}

/// The settable attributes of a core.
#[derive(Clone, Copy, Debug, PartialEq, Eq)]
pub enum WritableValue {
    Min,
    Max,
    Gov,
}

/// Byte-level access to pseudo-files: the kernel's in production, an
/// in-memory table in tests. What it answers is handed to the verified
/// `take_*` and `*_result` functions, which fix what the core becomes.
pub trait Accessor {
    /// The whole text of the file at `path`, or the system's message on failure.
    fn read_file(&mut self, path: &str) -> Result<String, String>;

    /// Replaces the contents of the file at `path` with `data`, creating it if
    /// needed; the system's message on failure.
    fn write_file(&mut self, path: &str, data: &str) -> Result<(), String>;

    /// Whether anything exists at `path`.
    fn path_exists(&mut self, path: &str) -> bool;
}

/// The integer in the accessor's answer to a read, if it holds one.
pub open spec fn int_value_of(res: Result<String, String>) -> Option<i32> {
    match res {
        Ok(c) => i32_value(reading_text(c@)),
        Err(_) => None,
    }
}

/// The failure that an answer holding no integer gives: an I/O error
/// carrying the accessor's message, or a parse error naming `sub_path`.
pub open spec fn int_failure<T>(res: Result<String, String>, sub_path: Seq<char>, r: Result<T, Error>) -> bool {
    match res {
        Ok(_) => r matches Err(Error::Parse(p)) && p@ == sub_path,
        Err(m) => r matches Err(Error::Io(n)) && n@ == m@,
    }
}

/// The accessor's answer to a read, as the library's result: the text, or
/// an I/O error carrying the system's message.
pub fn text_result(res: Result<String, String>) -> (r: Result<String, Error>)
    ensures
        res matches Ok(c) ==> r matches Ok(t) && t@ == reading_text(c@),
        res matches Err(m) ==> r matches Err(Error::Io(n)) && n@ == m@,
{
    match res {
        Ok(c) => Ok(trim_newline(c.as_str())),
        Err(m) => Err(Error::Io(m)),
    }
}

/// The accessor's answer to a numeric read, as the library's result.
pub fn int_result(res: Result<String, String>, sub_path: &str) -> (r: Result<i32, Error>)
    ensures
        int_value_of(res) matches Some(v) ==> r == Ok::<i32, Error>(v),
        int_value_of(res) is None ==> int_failure(res, sub_path@, r),
{
    match res {
        Ok(c) => parse_reading(c.as_str(), sub_path),
        Err(m) => Err(Error::Io(m)),
    }
}

/// The accessor's answer to a write, as the library's result.
pub fn write_result(res: Result<(), String>) -> (r: Result<(), Error>)
    ensures
        res is Ok ==> r is Ok,
        res matches Err(m) ==> r matches Err(Error::Io(n)) && n@ == m@,
{
    match res {
        Ok(()) => Ok(()),
        Err(m) => Err(Error::Io(m)),
    }
}

/// Temperature of a core that has no thermal zone.
pub const NO_SENSOR: i32 = -1;

pub open spec fn cpu_root() -> Seq<char> {
    "/sys/devices/system/cpu/"@
}

pub open spec fn thermal_root() -> Seq<char> {
    "/sys/class/thermal/"@
}

/// The path of `sub_path` under the cpufreq hierarchy of the core `name`.
pub open spec fn cpu_path(name: Seq<char>, sub_path: Seq<char>) -> Seq<char> {
    cpu_root() + name + "/"@ + sub_path
}

/// The path of `sub_path` under the thermal zone that matches the core `name`.
pub open spec fn thermal_path(name: Seq<char>, sub_path: Seq<char>) -> Seq<char> {
    thermal_root() + replace_all(name, "cpu"@, "thermal_zone"@) + "/"@ + sub_path
}

pub open spec fn max_path() -> Seq<char> {
    "cpufreq/scaling_max_freq"@
}

pub open spec fn min_path() -> Seq<char> {
    "cpufreq/scaling_min_freq"@
}

pub open spec fn gov_path() -> Seq<char> {
    "cpufreq/scaling_governor"@
}

/// The sub-path that holds a settable attribute.
pub open spec fn writable_path(value: WritableValue) -> Seq<char> {
    match value {
        WritableValue::Max => max_path(),
        WritableValue::Min => min_path(),
        WritableValue::Gov => gov_path(),
    }
}

/// What a numeric read of a pseudo-file holding `content` gives: the integer
/// once the trailing newline is dropped, or a parse error naming `sub_path`.
pub open spec fn int_reading_ok(content: Seq<char>, sub_path: Seq<char>, r: Result<i32, Error>) -> bool {
    match i32_value(reading_text(content)) {
        Some(v) => r == Ok::<i32, Error>(v),
        None => r matches Err(Error::Parse(p)) && p@ == sub_path,
    }
}

/// The integer held by the text of a numeric pseudo-file.
pub fn parse_reading(content: &str, sub_path: &str) -> (r: Result<i32, Error>)
    ensures
        int_reading_ok(content@, sub_path@, r),
{
    let t = trim_newline(content);
    match parse_i32(t.as_str()) {
        Some(v) => Ok(v),
        None => Err(Error::Parse(String::from_str(sub_path))),
    }
}

/// The temperature reading given what was found at the thermal path: `None`
/// when nothing exists there, which gives [`NO_SENSOR`] and no error.
pub fn temperature_reading(content: Option<&str>, sub_path: &str) -> (r: Result<i32, Error>)
    ensures
        content is None ==> r == Ok::<i32, Error>(NO_SENSOR),
        content matches Some(c) ==> int_reading_ok(c@, sub_path@, r),
{
    match content {
        None => Ok(NO_SENSOR),
        Some(c) => parse_reading(c, sub_path),
    }
}

fn join_path(root: &str, name: &str, sub_path: &str) -> (r: String)
    ensures
        r@ == root@ + name@ + "/"@ + sub_path@,
{
    let mut p = String::from_str(root);
    p.append(name);
    p.append("/");
    p.append(sub_path);
    p
}

fn writable_sub_path(value: WritableValue) -> (r: &'static str)
    ensures
        r@ == writable_path(value),
{
    match value {
        WritableValue::Max => "cpufreq/scaling_max_freq",
        WritableValue::Min => "cpufreq/scaling_min_freq",
        WritableValue::Gov => "cpufreq/scaling_governor",
    }
}

pub open spec fn temp_path() -> Seq<char> {
    "temp"@
}

pub open spec fn cur_path() -> Seq<char> {
    "cpufreq/scaling_cur_freq"@
}

/// One logical core as last read from, or written to, its pseudo-files.
#[derive(Debug, Clone)]
pub struct CPU {
    pub name: String,
    pub number: i8,
    pub max_freq: i32,
    pub min_freq: i32,
    pub cur_freq: i32,
    /// In thousandths of a degree, or [`NO_SENSOR`].
    pub cur_temp: i32,
    /// In hundredths of a percent, from 0 to 10000.
    pub cur_usage: u32,
    pub gov: String,
}

/// The text written for a settable attribute of `cpu`.
pub open spec fn writable_data(cpu: CPU, value: WritableValue) -> Seq<char> {
    match value {
        WritableValue::Max => decimal_of(cpu.max_freq as int),
        WritableValue::Min => decimal_of(cpu.min_freq as int),
        WritableValue::Gov => cpu.gov@,
    }
}

/// `a` and `b` agree on every field but possibly the readings.
pub open spec fn same_core(a: CPU, b: CPU) -> bool {
    a.name == b.name && a.number == b.number && a.cur_usage == b.cur_usage
}

impl CPU {
    /// A core known only by name and index; the readings start at zero.
    pub fn new(name: String, number: i8) -> (r: CPU)
        ensures
            r.name == name,
            r.number == number,
            r.max_freq == 0 && r.min_freq == 0 && r.cur_freq == 0 && r.cur_temp == 0,
            r.cur_usage == 0,
            r.gov@ == Seq::<char>::empty(),
    {
        CPU {
            name,
            number,
            max_freq: 0,
            min_freq: 0,
            cur_freq: 0,
            cur_temp: 0,
            cur_usage: 0,
            gov: String::new(),
        }
    }

    /// The full path of `sub_path` for this core.
    pub fn path(&self, sub_path: &str) -> (r: String)
        ensures
            r@ == cpu_path(self.name@, sub_path@),
    {
        join_path("/sys/devices/system/cpu/", self.name.as_str(), sub_path)
    }

    /// The full path of `sub_path` in this core's thermal zone.
    pub fn temp_path(&self, sub_path: &str) -> (r: String)
        ensures
            r@ == thermal_path(self.name@, sub_path@),
    {
        proof { reveal_strlit("cpu"); }
        let zone = replace(self.name.as_str(), "cpu", "thermal_zone");
        join_path("/sys/class/thermal/", zone.as_str(), sub_path)
    }

    /// The path and text that persist a settable attribute.
    pub fn write_request(&self, value: WritableValue) -> (r: (String, String))
        ensures
            r.0@ == cpu_path(self.name@, writable_path(value)),
            r.1@ == writable_data(*self, value),
    {
        let path = self.path(writable_sub_path(value));
        let data = match value {
            WritableValue::Max => int_text(self.max_freq),
            WritableValue::Min => int_text(self.min_freq),
            WritableValue::Gov => self.gov.clone(),
        };
        (path, data)
    }

    /// Stores the accessor's answer to a read of the upper bound.
    pub fn take_max(&mut self, res: Result<String, String>) -> (r: Result<(), Error>)
        ensures
            int_value_of(res) matches Some(v) ==> r is Ok && *final(self) == (CPU {
                max_freq: v,
                ..*old(self)
            }),
            int_value_of(res) is None ==> int_failure(res, max_path(), r) && *final(self) == *old(self),
    {
        match int_result(res, writable_sub_path(WritableValue::Max)) {
            Ok(v) => {
                self.max_freq = v;
                Ok(())
            },
            Err(e) => Err(e),
        }
    }

    /// Stores the accessor's answer to a read of the lower bound.
    pub fn take_min(&mut self, res: Result<String, String>) -> (r: Result<(), Error>)
        ensures
            int_value_of(res) matches Some(v) ==> r is Ok && *final(self) == (CPU {
                min_freq: v,
                ..*old(self)
            }),
            int_value_of(res) is None ==> int_failure(res, min_path(), r) && *final(self) == *old(self),
    {
        match int_result(res, writable_sub_path(WritableValue::Min)) {
            Ok(v) => {
                self.min_freq = v;
                Ok(())
            },
            Err(e) => Err(e),
        }
    }

    /// Stores the accessor's answer to a read of the current frequency.
    pub fn take_cur(&mut self, res: Result<String, String>) -> (r: Result<(), Error>)
        ensures
            int_value_of(res) matches Some(v) ==> r is Ok && *final(self) == (CPU {
                cur_freq: v,
                ..*old(self)
            }),
            int_value_of(res) is None ==> int_failure(res, cur_path(), r) && *final(self) == *old(self),
    {
        match int_result(res, "cpufreq/scaling_cur_freq") {
            Ok(v) => {
                self.cur_freq = v;
                Ok(())
            },
            Err(e) => Err(e),
        }
    }

    /// Stores what was found at the thermal zone: `None` where nothing
    /// exists there, which gives [`NO_SENSOR`] and no error.
    pub fn take_temp(&mut self, found: Option<Result<String, String>>) -> (r: Result<(), Error>)
        ensures
            found is None ==> r is Ok && *final(self) == (CPU { cur_temp: NO_SENSOR, ..*old(self) }),
            found is Some ==> (int_value_of(found->Some_0) matches Some(v) ==> r is Ok && *final(self)
                == (CPU { cur_temp: v, ..*old(self) })),
            found is Some && int_value_of(found->Some_0) is None ==> int_failure(
                found->Some_0,
                temp_path(),
                r,
            ) && *final(self) == *old(self),
    {
        match found {
            None => {
                self.cur_temp = NO_SENSOR;
                Ok(())
            },
            Some(res) => match int_result(res, "temp") {
                Ok(v) => {
                    self.cur_temp = v;
                    Ok(())
                },
                Err(e) => Err(e),
            },
        }
    }

    /// Stores the accessor's answer to a read of the governor.
    pub fn take_gov(&mut self, res: Result<String, String>) -> (r: Result<(), Error>)
        ensures
            res matches Ok(c) ==> r is Ok && final(self).gov@ == reading_text(c@) && *final(self) == (
            CPU { gov: final(self).gov, ..*old(self) }),
            res matches Err(m) ==> r matches Err(Error::Io(n)) && n@ == m@ && *final(self) == *old(
                self,
            ),
    {
        match text_result(res) {
            Ok(t) => {
                self.gov = t;
                Ok(())
            },
            Err(e) => Err(e),
        }
    }

    /// Reads the integer held at `sub_path`, through [`int_result`].
    pub fn read_int<A: Accessor>(&self, dev: &mut A, sub_path: &str) -> (r: Result<i32, Error>)
        ensures
            r matches Err(Error::Parse(p)) ==> p@ == sub_path@,
    {
        let path = self.path(sub_path);
        int_result(dev.read_file(path.as_str()), sub_path)
    }

    /// Reads the text held at `sub_path`, without its trailing newline,
    /// through [`text_result`].
    pub fn read_str<A: Accessor>(&self, dev: &mut A, sub_path: &str) -> (r: Result<String, Error>)
        ensures
            r matches Err(e) ==> e is Io,
    {
        let path = self.path(sub_path);
        text_result(dev.read_file(path.as_str()))
    }

    /// Reads the temperature at `sub_path` of the thermal zone, or
    /// [`NO_SENSOR`] when the zone has no such file.
    pub fn read_temp<A: Accessor>(&self, dev: &mut A, sub_path: &str) -> (r: Result<i32, Error>)
        ensures
            r matches Err(Error::Parse(p)) ==> p@ == sub_path@,
    {
        let path = self.temp_path(sub_path);
        if !dev.path_exists(path.as_str()) {
            return temperature_reading(None, sub_path);
        }
        int_result(dev.read_file(path.as_str()), sub_path)
    }

    /// Persists the in-memory value of a settable attribute: one write of
    /// [`CPU::write_request`], answered through [`write_result`].
    pub fn write_value<A: Accessor>(&self, dev: &mut A, value: WritableValue) -> (r: Result<(), Error>)
        ensures
            r matches Err(e) ==> e is Io,
    {
        let (path, data) = self.write_request(value);
        write_result(dev.write_file(path.as_str(), data.as_str()))
    }

    /// The coloured one-line summary of this core.
    pub fn render(&self) -> (r: String)
        ensures
            r@ == cpu_line(*self),
    {
        render_cpu(self)
    }

    /// Reads the upper frequency bound into `max_freq`, through [`CPU::take_max`].
    pub fn get_max<A: Accessor>(&mut self, dev: &mut A) -> (r: Result<(), Error>)
        ensures
            r is Ok ==> *final(self) == (CPU { max_freq: final(self).max_freq, ..*old(self) }),
            r is Err ==> *final(self) == *old(self),
            r matches Err(Error::Parse(p)) ==> p@ == max_path(),
    {
        let path = self.path(writable_sub_path(WritableValue::Max));
        let res = dev.read_file(path.as_str());
        self.take_max(res)
    }

    /// Reads the lower frequency bound into `min_freq`, through [`CPU::take_min`].
    pub fn get_min<A: Accessor>(&mut self, dev: &mut A) -> (r: Result<(), Error>)
        ensures
            r is Ok ==> *final(self) == (CPU { min_freq: final(self).min_freq, ..*old(self) }),
            r is Err ==> *final(self) == *old(self),
            r matches Err(Error::Parse(p)) ==> p@ == min_path(),
    {
        let path = self.path(writable_sub_path(WritableValue::Min));
        let res = dev.read_file(path.as_str());
        self.take_min(res)
    }

    /// Reads the current frequency into `cur_freq`, through [`CPU::take_cur`].
    pub fn get_cur<A: Accessor>(&mut self, dev: &mut A) -> (r: Result<(), Error>)
        ensures
            r is Ok ==> *final(self) == (CPU { cur_freq: final(self).cur_freq, ..*old(self) }),
            r is Err ==> *final(self) == *old(self),
            r matches Err(Error::Parse(p)) ==> p@ == cur_path(),
    {
        let path = self.path("cpufreq/scaling_cur_freq");
        let res = dev.read_file(path.as_str());
        self.take_cur(res)
    }

    /// Reads the temperature into `cur_temp`, through [`CPU::take_temp`]:
    /// [`NO_SENSOR`] without a thermal zone.
    pub fn get_temp<A: Accessor>(&mut self, dev: &mut A) -> (r: Result<(), Error>)
        ensures
            r is Ok ==> *final(self) == (CPU { cur_temp: final(self).cur_temp, ..*old(self) }),
            r is Err ==> *final(self) == *old(self),
            r matches Err(Error::Parse(p)) ==> p@ == temp_path(),
    {
        let path = self.temp_path("temp");
        let found = if dev.path_exists(path.as_str()) {
            Some(dev.read_file(path.as_str()))
        } else {
            None
        };
        self.take_temp(found)
    }

    /// Reads the governor into `gov`, through [`CPU::take_gov`].
    pub fn get_gov<A: Accessor>(&mut self, dev: &mut A) -> (r: Result<(), Error>)
        ensures
            r is Ok ==> *final(self) == (CPU { gov: final(self).gov, ..*old(self) }),
            r is Err ==> *final(self) == *old(self) && r->Err_0 is Io,
    {
        let path = self.path(writable_sub_path(WritableValue::Gov));
        let res = dev.read_file(path.as_str());
        self.take_gov(res)
    }

    /// Refreshes every reading, in the order maximum, minimum, current
    /// frequency, temperature, governor; stops at the first failure and keeps
    /// the readings taken before it. Writes nothing.
    pub fn update<A: Accessor>(&mut self, dev: &mut A) -> (r: Result<(), Error>)
        ensures
            same_core(*final(self), *old(self)),
            r is Err ==> final(self).gov == old(self).gov,
            r matches Err(Error::Parse(p)) ==> p@ == max_path() || p@ == min_path() || p@ == cur_path()
                || p@ == temp_path(),
    {
        self.get_max(dev)?;
        self.get_min(dev)?;
        self.get_cur(dev)?;
        self.get_temp(dev)?;
        self.get_gov(dev)?;
        Ok(())
    }

    /// Takes the first readings of a newly made core: exactly a refresh.
    pub fn init_cpu<A: Accessor>(&mut self, dev: &mut A) -> (r: Result<(), Error>)
        ensures
            same_core(*final(self), *old(self)),
            r is Err ==> final(self).gov == old(self).gov,
            r matches Err(Error::Parse(p)) ==> p@ == max_path() || p@ == min_path() || p@ == cur_path()
                || p@ == temp_path(),
    {
        self.update(dev)
    }

    /// Sets `cur_usage` from two snapshots, the earlier one first.
    pub fn update_usage(&mut self, last_proc: &ProcStat, current_proc: &ProcStat) -> (r: Result<(), Error>)
        ensures
            r is Ok,
            *final(self) == (CPU { cur_usage: usage_of(*last_proc, *current_proc) as u32, ..*old(self) }),
    {
        self.cur_usage = calculate_cpu_percent(last_proc, current_proc);
        Ok(())
    }

    /// Writes `max` as the upper frequency bound; `max_freq` takes it only
    /// once the write succeeded.
    pub fn set_max<A: Accessor>(&mut self, dev: &mut A, max: i32) -> (r: Result<(), Error>)
        ensures
            r is Ok ==> *final(self) == (CPU { max_freq: max, ..*old(self) }),
            r is Err ==> *final(self) == *old(self) && r->Err_0 is Io,
    {
        let prev = self.max_freq;
        self.max_freq = max;
        match self.write_value(dev, WritableValue::Max) {
            Ok(()) => Ok(()),
            Err(e) => {
                self.max_freq = prev;
                Err(e)
            },
        }
    }

    /// Writes `min` as the lower frequency bound; `min_freq` takes it only
    /// once the write succeeded.
    pub fn set_min<A: Accessor>(&mut self, dev: &mut A, min: i32) -> (r: Result<(), Error>)
        ensures
            r is Ok ==> *final(self) == (CPU { min_freq: min, ..*old(self) }),
            r is Err ==> *final(self) == *old(self) && r->Err_0 is Io,
    {
        let prev = self.min_freq;
        self.min_freq = min;
        match self.write_value(dev, WritableValue::Min) {
            Ok(()) => Ok(()),
            Err(e) => {
                self.min_freq = prev;
                Err(e)
            },
        }
    }

    /// Writes `gov` as the governor; `gov` is kept only once the write
    /// succeeded.
    pub fn set_gov<A: Accessor>(&mut self, dev: &mut A, gov: String) -> (r: Result<(), Error>)
        ensures
            r is Ok ==> *final(self) == (CPU { gov: gov, ..*old(self) }),
            r is Err ==> *final(self) == *old(self) && r->Err_0 is Io,
    {
        let mut other = gov;
        std::mem::swap(&mut self.gov, &mut other);
        match self.write_value(dev, WritableValue::Gov) {
            Ok(()) => Ok(()),
            Err(e) => {
                std::mem::swap(&mut self.gov, &mut other);
                Err(e)
            },
        }
    }
}

/// A frequency bound written for a core, read back unchanged through the
/// path that the getter uses, is stored as the value that was set.
pub proof fn lemma_max_round_trip(cpu: CPU, max: i32)
    ensures
        writable_path(WritableValue::Max) == max_path(),
        i32_value(reading_text(writable_data((CPU { max_freq: max, ..cpu }), WritableValue::Max)))
            == Some(max),
{
    crate::decimal::lemma_decimal_round_trip(max as int);
    let d = decimal_of(max as int);
    assert(reading_text(d) == d) by {
        assert(d.last() != '\n');
    }
}

/// Likewise for the lower bound.
pub proof fn lemma_min_round_trip(cpu: CPU, min: i32)
    ensures
        writable_path(WritableValue::Min) == min_path(),
        i32_value(reading_text(writable_data((CPU { min_freq: min, ..cpu }), WritableValue::Min)))
            == Some(min),
{
    crate::decimal::lemma_decimal_round_trip(min as int);
    let d = decimal_of(min as int);
    assert(reading_text(d) == d) by {
        assert(d.last() != '\n');
    }
}

} // verus!
