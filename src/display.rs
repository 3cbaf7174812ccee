//! The text of the plain listings: one value per line in raw mode, else all
//! values on one line, each followed by a space.
use vstd::prelude::*;

use crate::cpu::CPU;
use crate::decimal::{decimal_of, int_text};

verus! {

/// Each item followed by `sep`, in order.
pub open spec fn terminated(items: Seq<Seq<char>>, sep: Seq<char>) -> Seq<char>
    decreases items.len(),
{
    if items.len() == 0 {
        Seq::empty()
    } else {
        terminated(items.drop_last(), sep) + items.last() + sep
    }
}

/// A listing of `items`: raw, one per line; else on one line, space
/// separated, ending with a newline.
pub open spec fn list_text(items: Seq<Seq<char>>, raw: bool) -> Seq<char> {
    if raw {
        terminated(items, "\n"@)
    } else {
        terminated(items, " "@) + "\n"@
    }
}

pub open spec fn int_items(v: Seq<i32>) -> Seq<Seq<char>> {
    v.map_values(|x: i32| decimal_of(x as int))
}

pub open spec fn str_items(v: Seq<String>) -> Seq<Seq<char>> {
    v.map_values(|s: String| s@)
}

fn int_list(v: &Vec<i32>, raw: bool) -> (r: String)
    ensures
        r@ == list_text(int_items(v@), raw),
{
    let sep = if raw { "\n" } else { " " };
    let mut out = String::new();
    let mut i: usize = 0;
    while i < v.len()
        invariant
            i <= v@.len(),
            out@ == terminated(int_items(v@).take(i as int), sep@),
        decreases v@.len() - i,
    {
        let t = int_text(v[i]);
        out.append(t.as_str());
        out.append(sep);
        assert(int_items(v@).take(i + 1).drop_last() =~= int_items(v@).take(i as int));
        i = i + 1;
    }
    assert(int_items(v@).take(i as int) =~= int_items(v@));
    if !raw {
        out.append("\n");
    }
    out
}

fn str_list(v: &Vec<String>, raw: bool) -> (r: String)
    ensures
        r@ == list_text(str_items(v@), raw),
{
    let sep = if raw { "\n" } else { " " };
    let mut out = String::new();
    let mut i: usize = 0;
    while i < v.len()
        invariant
            i <= v@.len(),
            out@ == terminated(str_items(v@).take(i as int), sep@),
        decreases v@.len() - i,
    {
        out.append(v[i].as_str());
        out.append(sep);
        assert(str_items(v@).take(i + 1).drop_last() =~= str_items(v@).take(i as int));
        i = i + 1;
    }
    assert(str_items(v@).take(i as int) =~= str_items(v@));
    if !raw {
        out.append("\n");
    }
    out
}

/// The listing of the governors that the kernel offers.
pub fn print_available_governors(available_governors: Vec<String>, raw: bool) -> (r: String)
    ensures
        r@ == list_text(str_items(available_governors@), raw),
{
    str_list(&available_governors, raw)
}

/// The listing of the current frequency of each core.
pub fn print_cpu_speeds(cpu_speeds: Vec<i32>, raw: bool) -> (r: String)
    ensures
        r@ == list_text(int_items(cpu_speeds@), raw),
{
    int_list(&cpu_speeds, raw)
}

/// The listing of the temperature of each core.
pub fn print_cpu_temp(cpu_temp: Vec<i32>, raw: bool) -> (r: String)
    ensures
        r@ == list_text(int_items(cpu_temp@), raw),
{
    int_list(&cpu_temp, raw)
}

/// The listing of the governor of each core.
pub fn print_cpu_governors(cpu_governors: Vec<String>, raw: bool) -> (r: String)
    ensures
        r@ == list_text(str_items(cpu_governors@), raw),
{
    str_list(&cpu_governors, raw)
}

/// `n / 1000` rounded toward zero, as Rust's integer division does.
pub open spec fn thousandths(n: int) -> int {
    if n >= 0 {
        n / 1000
    } else {
        -((-n) / 1000)
    }
}

fn div_thousand(n: i32) -> (r: i32)
    ensures
        r == thousandths(n as int),
{
    if n >= 0 {
        n / 1000
    } else {
        let m: i64 = -(n as i64);
        (-(m / 1000)) as i32
    }
}

/// The frequency report: raw, the value in kHz; else in MHz, in a sentence.
pub open spec fn freq_line(f: i32, raw: bool) -> Seq<char> {
    if raw {
        decimal_of(f as int) + "\n"@
    } else {
        "CPU freq is "@ + decimal_of(thousandths(f as int)) + " MHz\n"@
    }
}

/// The line that reports a frequency given in kHz.
pub fn freq_text(f: i32, raw: bool) -> (r: String)
    ensures
        r@ == freq_line(f, raw),
{
    if raw {
        let mut s = int_text(f);
        s.append("\n");
        s
    } else {
        let mut s = String::from_str("CPU freq is ");
        let m = int_text(div_thousand(f));
        s.append(m.as_str());
        s.append(" MHz\n");
        s
    }
}

pub open spec fn turbo_line(t: bool, raw: bool) -> Seq<char> {
    if raw {
        if t {
            "true\n"@
        } else {
            "false\n"@
        }
    } else if t {
        "Turbo is enabled\n"@
    } else {
        "Turbo is not enabled\n"@
    }
}

/// The line that reports whether turbo boost is on.
pub fn turbo_text(t: bool, raw: bool) -> (r: String)
    ensures
        r@ == turbo_line(t, raw),
{
    let line = if raw {
        if t {
            "true\n"
        } else {
            "false\n"
        }
    } else if t {
        "Turbo is enabled\n"
    } else {
        "Turbo is not enabled\n"
    };
    String::from_str(line)
}

/// One line per core: raw, its name and frequency in kHz; else its frequency
/// in MHz in a sentence.
pub open spec fn cpu_lines(cpus: Seq<CPU>, raw: bool) -> Seq<char>
    decreases cpus.len(),
{
    if cpus.len() == 0 {
        Seq::empty()
    } else {
        let c = cpus.last();
        cpu_lines(cpus.drop_last(), raw) + if raw {
            c.name@ + " "@ + decimal_of(c.cur_freq as int) + "\n"@
        } else {
            c.name@ + " is currently @ "@ + decimal_of(thousandths(c.cur_freq as int))
                + " MHz\n"@
        }
    }
}

/// The frequency report of all cores; outside raw mode it opens with `name`.
pub open spec fn cpus_report(cpus: Seq<CPU>, name: Seq<char>, raw: bool) -> Seq<char> {
    if raw {
        cpu_lines(cpus, raw)
    } else {
        "Name: "@ + name + "\n"@ + cpu_lines(cpus, raw)
    }
}

/// The text that reports the current frequency of every core.
pub fn cpus_text(cpus: &Vec<CPU>, name: &str, raw: bool) -> (r: String)
    ensures
        r@ == cpus_report(cpus@, name@, raw),
{
    let mut out = String::new();
    if !raw {
        out.append("Name: ");
        out.append(name);
        out.append("\n");
    }
    let ghost head = out@;
    let mut i: usize = 0;
    while i < cpus.len()
        invariant
            i <= cpus@.len(),
            out@ == head + cpu_lines(cpus@.take(i as int), raw),
        decreases cpus@.len() - i,
    {
        let c = &cpus[i];
        out.append(c.name.as_str());
        if raw {
            out.append(" ");
            let t = int_text(c.cur_freq);
            out.append(t.as_str());
            out.append("\n");
        } else {
            out.append(" is currently @ ");
            let t = int_text(div_thousand(c.cur_freq));
            out.append(t.as_str());
            out.append(" MHz\n");
        }
        assert(cpus@.take(i + 1).drop_last() =~= cpus@.take(i as int));
        assert(cpus@.take(i + 1).last() == cpus@[i as int]);
        assert(out@ =~= head + cpu_lines(cpus@.take(i + 1), raw));
        i = i + 1;
    }
    assert(cpus@.take(i as int) =~= cpus@);
    assert(head + cpu_lines(cpus@, raw) =~= cpus_report(cpus@, name@, raw));
    out
}

/// The colour that a temperature is shown in.
#[derive(Clone, Copy, Debug, PartialEq, Eq)]
pub enum TempColor {
    Green,
    Yellow,
    Red,
}

/// Red above 60 degrees, yellow above 40, else green.
pub open spec fn temp_color_of(temp: i32) -> TempColor {
    let deg = thousandths(temp as int);
    if deg > 60 {
        TempColor::Red
    } else if deg > 40 {
        TempColor::Yellow
    } else {
        TempColor::Green
    }
}

/// The colour of a temperature in thousandths of a degree.
pub fn temp_color(temp: i32) -> (r: TempColor)
    ensures
        r == temp_color_of(temp),
{
    let deg = div_thousand(temp);
    if deg > 60 {
        TempColor::Red
    } else if deg > 40 {
        TempColor::Yellow
    } else {
        TempColor::Green
    }
}

/// Relies on termion's `Green::fg_str`: the escape sequence of a green foreground.
#[verifier::external_body]
fn fg_green() -> (r: &'static str)
    ensures
        r@ == "\x1B[38;5;2m"@,
{
    termion::color::Green.fg_str()
}

/// Relies on termion's `Yellow::fg_str`: the escape sequence of a yellow foreground.
#[verifier::external_body]
fn fg_yellow() -> (r: &'static str)
    ensures
        r@ == "\x1B[38;5;3m"@,
{
    termion::color::Yellow.fg_str()
}

/// Relies on termion's `Red::fg_str`: the escape sequence of a red foreground.
#[verifier::external_body]
fn fg_red() -> (r: &'static str)
    ensures
        r@ == "\x1B[38;5;1m"@,
{
    termion::color::Red.fg_str()
}

/// Relies on termion's `AsRef<str>` for `style::Bold`: the escape sequence
/// that starts bold text.
#[verifier::external_body]
fn bold() -> (r: &'static str)
    ensures
        r@ == "\x1B[1m"@,
{
    termion::style::Bold.as_ref()
}

/// Relies on termion's `AsRef<str>` for `style::Reset`: the escape sequence
/// that ends all styling.
#[verifier::external_body]
fn reset() -> (r: &'static str)
    ensures
        r@ == "\x1B[m"@,
{
    termion::style::Reset.as_ref()
}

pub open spec fn color_code(c: TempColor) -> Seq<char> {
    match c {
        TempColor::Green => "\x1B[38;5;2m"@,
        TempColor::Yellow => "\x1B[38;5;3m"@,
        TempColor::Red => "\x1B[38;5;1m"@,
    }
}

fn color_text(c: TempColor) -> (r: &'static str)
    ensures
        r@ == color_code(c),
{
    match c {
        TempColor::Green => fg_green(),
        TempColor::Yellow => fg_yellow(),
        TempColor::Red => fg_red(),
    }
}

/// The coloured one-line summary of a core: name, bounds, current
/// frequency, temperature and governor.
pub open spec fn cpu_line(cpu: CPU) -> Seq<char> {
    "\x1B[1m"@ + cpu.name@ + ":"@ + "\x1B[m"@ + " "@ + decimal_of(thousandths(cpu.max_freq as int))
        + "Hz\t"@ + decimal_of(thousandths(cpu.min_freq as int)) + "Hz\t"@ + "\x1B[38;5;2m"@
        + decimal_of(thousandths(cpu.cur_freq as int)) + "Hz"@ + color_code(
        temp_color_of(cpu.cur_temp),
    ) + "\t"@ + decimal_of(thousandths(cpu.cur_temp as int)) + "C"@ + "\x1B[m"@ + "\t"@ + cpu.gov@
        + "\n"@
}

/// The coloured summary line of one core, as shown in the core listing.
pub fn render_cpu(cpu: &CPU) -> (r: String)
    ensures
        r@ == cpu_line(*cpu),
{
    let mut s = String::from_str(bold());
    s.append(cpu.name.as_str());
    s.append(":");
    s.append(reset());
    s.append(" ");
    s.append(int_text(div_thousand(cpu.max_freq)).as_str());
    s.append("Hz\t");
    s.append(int_text(div_thousand(cpu.min_freq)).as_str());
    s.append("Hz\t");
    s.append(fg_green());
    s.append(int_text(div_thousand(cpu.cur_freq)).as_str());
    s.append("Hz");
    s.append(color_text(temp_color(cpu.cur_temp)));
    s.append("\t");
    s.append(int_text(div_thousand(cpu.cur_temp)).as_str());
    s.append("C");
    s.append(reset());
    s.append("\t");
    s.append(cpu.gov.as_str());
    s.append("\n");
    s
}

} // verus!
