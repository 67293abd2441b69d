use vstd::prelude::*;
use vstd::string::StringExecFns;
use ansi_term::Colour;
use chrono::{Local, TimeZone};
use prettytable::{Cell, Row, Table};
use crate::text::push_char;
use crate::flow::{FlowEntry, FlowMap, FlowTable};
use crate::sniffer::{is_user_error, is_user_warning, RunStatus, Sniffer, SnifferError};
use crate::packet::{address_to_string, render_address, Device};
use crate::pkt_parser::protocol_name;
use crate::text::{decimal, push_radix};

verus! {

/// The text that the table formatter makes of rows of cells, the first row being the
/// column titles.
pub uninterp spec fn table_text(rows: Seq<Seq<Seq<char>>>) -> Seq<char>;

/// Relies on prettytable's `Table::init`, `Row::new`, `Cell::new` and `Table`'s `Display`:
/// the text is made from the cells alone, in the default format.
#[verifier::external_body]
fn render_table(rows: &Vec<Vec<String>>) -> (r: String)
    ensures
        r@ == table_text(rows@.map_values(|row: Vec<String>| row@.map_values(|c: String| c@))),
{
    let rows: Vec<Row> = rows.iter().map(|row| Row::new(row.iter().map(|c| Cell::new(c)).collect()))
        .collect();
    Table::init(rows).to_string()
}

/// Relies on chrono's `Local::now` and its `Display`: the local date and time, now.
#[verifier::external_body]
fn local_now() -> (r: String) {
    Local::now().to_string()
}

/// Relies on chrono's `TimeZone::timestamp_opt` for `Local` and `DateTime::format`: the
/// time of day of a timestamp in the local time zone, as hours, minutes, seconds and
/// nanoseconds; none where chrono cannot place the timestamp.
#[verifier::external_body]
fn local_time_of_day(sec: i64, nsec: u32) -> (r: Option<String>) {
    match Local.timestamp_opt(sec, nsec).single() {
        Some(t) => Some(t.format("%H:%M:%S %f ns").to_string()),
        None => None,
    }
}

/// The text painted blue for a terminal.
pub uninterp spec fn blue_of(s: Seq<char>) -> Seq<char>;

/// The text painted green for a terminal.
pub uninterp spec fn green_of(s: Seq<char>) -> Seq<char>;

/// Relies on ansi_term's `Colour::Blue.paint` and its `Display`: the text between the
/// escape codes of the colour, from the text alone.
#[verifier::external_body]
fn paint_blue(s: &str) -> (r: String)
    ensures
        r@ == blue_of(s@),
{
    Colour::Blue.paint(s).to_string()
}

/// Relies on ansi_term's `Colour::Green.paint` and its `Display`: the text between the
/// escape codes of the colour, from the text alone.
#[verifier::external_body]
fn paint_green(s: &str) -> (r: String)
    ensures
        r@ == green_of(s@),
{
    Colour::Green.paint(s).to_string()
}

/// The lines that list the addresses of a device for the terminal, each address green.
pub open spec fn painted_address_lines(addresses: Seq<Seq<u8>>) -> Seq<char>
    decreases addresses.len(),
{
    if addresses.len() == 0 {
        Seq::empty()
    } else {
        painted_address_lines(addresses.drop_last()) + "\t- "@ + green_of(
            render_address(addresses.last()),
        ) + seq!['\n']
    }
}

/// A device as the terminal shows it: its name in blue, its description, its addresses.
pub open spec fn device_text(device: Device) -> Seq<char> {
    blue_of(device.name@) + match device.desc {
        Some(d) => "("@ + d@ + ")"@,
        None => " ..."@,
    } + "\nAddresses:\n"@ + painted_address_lines(device.addresses@.map_values(|a: Vec<u8>| a@))
}

/// A device as the terminal shows it: its name in blue, its description, its addresses.
pub fn display_device(device: &Device) -> (r: String)
    ensures
        r@ == device_text(*device),
{
    let ghost addrs = device.addresses@.map_values(|a: Vec<u8>| a@);
    let mut s = paint_blue(device.name.as_str());
    match &device.desc {
        Some(d) => {
            s.append("(");
            s.append(d.as_str());
            s.append(")");
        },
        None => s.append(" ..."),
    }
    s.append("\nAddresses:\n");
    let ghost start = s@;
    let mut i: usize = 0;
    while i < device.addresses.len()
        invariant
            i <= device.addresses@.len(),
            addrs == device.addresses@.map_values(|a: Vec<u8>| a@),
            s@ == start + painted_address_lines(addrs.subrange(0, i as int)),
        decreases device.addresses@.len() - i,
    {
        assert(addrs.subrange(0, i + 1).drop_last() =~= addrs.subrange(0, i as int));
        s.append("\t- ");
        let a = address_to_string(device.addresses[i].as_slice());
        let g = paint_green(a.as_str());
        s.append(g.as_str());
        push_char(&mut s, '\n');
        i = i + 1;
    }
    assert(addrs.subrange(0, i as int) =~= addrs);
    s
}

/// The lines that list the addresses of a device.
pub open spec fn address_lines(addresses: Seq<Seq<u8>>) -> Seq<char>
    decreases addresses.len(),
{
    if addresses.len() == 0 {
        Seq::empty()
    } else {
        address_lines(addresses.drop_last()) + "\n\t- "@ + render_address(addresses.last())
    }
}

/// The heading of a report: the interface and its addresses.
pub open spec fn heading_text(device: Device) -> Seq<char> {
    "Scanning on: \n\t- Interface "@ + device.name@ + "\nAddresses: "@ + address_lines(
        device.addresses@.map_values(|a: Vec<u8>| a@),
    )
}

/// The heading of a report: the interface and its addresses.
pub fn heading(device: &Device) -> (r: String)
    ensures
        r@ == heading_text(*device),
{
    let ghost addrs = device.addresses@.map_values(|a: Vec<u8>| a@);
    let mut s = "Scanning on: \n\t- Interface ".to_string();
    s.append(device.name.as_str());
    s.append("\nAddresses: ");
    let ghost start = s@;
    let mut i: usize = 0;
    while i < device.addresses.len()
        invariant
            i <= device.addresses@.len(),
            addrs == device.addresses@.map_values(|a: Vec<u8>| a@),
            s@ == start + address_lines(addrs.subrange(0, i as int)),
        decreases device.addresses@.len() - i,
    {
        assert(addrs.subrange(0, i + 1).drop_last() =~= addrs.subrange(0, i as int));
        s.append("\n\t- ");
        let a = address_to_string(device.addresses[i].as_slice());
        s.append(a.as_str());
        i = i + 1;
    }
    assert(addrs.subrange(0, i as int) =~= addrs);
    s
}

/// The column titles of the table of flows.
pub open spec fn title_row() -> Seq<Seq<char>> {
    seq![
        "IP Address"@,
        "Port"@,
        "Protocol"@,
        "Bytes Transmitted"@,
        "First Timestamp"@,
        "Last Timestamp"@,
    ]
}

/// The row of one flow, with its two timestamps as given.
pub open spec fn flow_row(e: FlowEntry, first: Seq<char>, last: Seq<char>) -> Seq<Seq<char>> {
    seq![
        e.address@,
        decimal(e.port as nat),
        protocol_name(e.aggregate.protocol),
        decimal(e.aggregate.bytes as nat),
        first,
        last,
    ]
}

/// The rows of the table: the titles, then each flow in the order of the map.
pub open spec fn table_rows(entries: Seq<FlowEntry>, times: Seq<(Seq<char>, Seq<char>)>) -> Seq<
    Seq<Seq<char>>,
> {
    seq![title_row()] + Seq::new(entries.len(), |i: int| flow_row(entries[i], times[i].0, times[i].1))
}

/// The part of a report that shows the table: the time of the update, then the table.
pub open spec fn center_spec(entries: Seq<FlowEntry>, now: Seq<char>, times: Seq<(Seq<char>, Seq<char>)>) -> Seq<char> {
    "\n\nScanning: \n\t- Update Time: "@ + now + "\n"@ + table_text(table_rows(entries, times))
}

fn text_of(n: u64) -> (r: String)
    ensures
        r@ == decimal(n as nat),
{
    let mut s = String::new();
    push_radix(&mut s, n, 10);
    s
}

fn str_cell(s: &str) -> (r: String)
    ensures
        r@ == s@,
{
    s.to_string()
}

/// The table part of a report, from a snapshot of the flows, the time of the update and
/// the rendered first and last timestamp of each flow.
pub fn center_text(map: &FlowMap, now: &String, times: &Vec<(String, String)>) -> (r: String)
    requires
        map.wf(),
        times@.len() == map.entries_view().len(),
    ensures
        r@ == center_spec(
            map.entries_view(),
            now@,
            times@.map_values(|t: (String, String)| (t.0@, t.1@)),
        ),
{
    let ghost tv = times@.map_values(|t: (String, String)| (t.0@, t.1@));
    let ghost entries = map.entries_view();
    let mut rows: Vec<Vec<String>> = Vec::new();
    let titles = vec![
        str_cell("IP Address"),
        str_cell("Port"),
        str_cell("Protocol"),
        str_cell("Bytes Transmitted"),
        str_cell("First Timestamp"),
        str_cell("Last Timestamp"),
    ];
    assert(titles@.map_values(|c: String| c@) =~= title_row());
    rows.push(titles);
    assert(rows@.map_values(|row: Vec<String>| row@.map_values(|c: String| c@)) =~= table_rows(
        entries,
        tv,
    ).subrange(0, 1));
    let n = map.len();
    let mut i: usize = 0;
    while i < n
        invariant
            map.wf(),
            n == entries.len(),
            entries == map.entries_view(),
            times@.len() == n,
            tv == times@.map_values(|t: (String, String)| (t.0@, t.1@)),
            i <= n,
            rows@.len() == i + 1,
            rows@.map_values(|row: Vec<String>| row@.map_values(|c: String| c@)) =~= table_rows(
                entries,
                tv,
            ).subrange(0, i + 1),
        decreases n - i,
    {
        let e = map.entry(i);
        let (first, last) = (times[i].0.clone(), times[i].1.clone());
        let row = vec![e.address, text_of(e.port as u64), e.aggregate.protocol.name(), text_of(e.aggregate.bytes), first, last];
        assert(row@.map_values(|c: String| c@) =~= flow_row(entries[i as int], tv[i as int].0, tv[i as int].1));
        rows.push(row);
        i = i + 1;
    }
    assert(table_rows(entries, tv).subrange(0, n + 1) =~= table_rows(entries, tv));
    let table = render_table(&rows);
    let mut s = "\n\nScanning: \n\t- Update Time: ".to_string();
    s.append(now.as_str());
    s.append("\n");
    s.append(table.as_str());
    s
}

/// The time of day of a timestamp in microseconds, in the local time zone.
fn time_of_day(ts: u64) -> (r: String) {
    let sec = (ts / 1_000_000) as i64;
    let nsec = ((ts % 1_000_000) * 1000) as u32;
    match local_time_of_day(sec, nsec) {
        Some(t) => t,
        None => "-".to_string(),
    }
}

/// The table part of a report, stamped with the local time now; the timestamps of each
/// flow are rendered in the local time zone.
pub fn center(map: &FlowMap) -> (r: String)
    requires
        map.wf(),
    ensures
        exists|now: Seq<char>, times: Seq<(Seq<char>, Seq<char>)>|
            times.len() == map.entries_view().len() && r@ == center_spec(
                map.entries_view(),
                now,
                times,
            ),
{
    let n = map.len();
    let mut times: Vec<(String, String)> = Vec::new();
    let mut i: usize = 0;
    while i < n
        invariant
            map.wf(),
            n == map.entries_view().len(),
            i <= n,
            times@.len() == i,
        decreases n - i,
    {
        let e = map.entry(i);
        times.push((time_of_day(e.aggregate.first), time_of_day(e.aggregate.last)));
        i = i + 1;
    }
    let now = local_now();
    center_text(map, &now, &times)
}

/// Some table part of a report on `entries`, whatever the clock and the time zone said.
pub open spec fn is_center_of(text: Seq<char>, entries: Seq<FlowEntry>) -> bool {
    exists|now: Seq<char>, times: Seq<(Seq<char>, Seq<char>)>|
        times.len() == entries.len() && text == center_spec(entries, now, times)
}

/// The start of a report: the heading of the device where `first` holds, else nothing.
pub open spec fn report_head(first: bool, device: Device) -> Seq<char> {
    if first {
        heading_text(device)
    } else {
        Seq::empty()
    }
}

/// A report: its start, then some table part on some snapshot of the flows.
pub open spec fn is_report(text: Seq<char>, first: bool, device: Device) -> bool {
    exists|c: Seq<char>, entries: Seq<FlowEntry>|
        #[trigger] is_center_of(c, entries) && text == report_head(first, device) + c
}

/// One report of the periodic reporter on a snapshot of the table: the heading first
/// where `first` holds, then the table.
pub fn periodic_report(device: &Device, table: &FlowTable, first: bool) -> (r: String)
    ensures
        is_report(r@, first, *device),
{
    let snapshot = table.snapshot();
    let c = center(&snapshot);
    let mut s = if first {
        heading(device)
    } else {
        String::new()
    };
    s.append(c.as_str());
    assert(is_center_of(c@, snapshot.entries_view()));
    assert(s@ == report_head(first, *device) + c@);
    s
}

impl Sniffer {
    /// The report that `save_report` writes: with no interval set, the heading and the
    /// table, over the whole file; with one, the table alone, after what the reporter has
    /// written. The flag tells whether the file is rewritten from its start.
    pub fn report(&self) -> (r: Result<(bool, String), SnifferError>)
        ensures
            match self.status_view() {
                RunStatus::Error(e) => is_user_error(r, e@),
                RunStatus::Stop => is_user_warning(r, "The scanning is already stopped ..."@),
                _ => if self.file_view() is None {
                    is_user_error(r, "The file doesn't exist ..."@)
                } else if self.device_view() is None {
                    is_user_error(r, "You have to specify a device ..."@)
                } else {
                    r matches Ok((rewind, text)) && rewind == (self.interval_view() == 0)
                        && is_report(text@, rewind, self.device_view()->Some_0)
                },
            },
    {
        match self.get_status() {
            RunStatus::Error(e) => Err(SnifferError::UserError(e)),
            RunStatus::Stop => Err(SnifferError::UserWarning("The scanning is already stopped ...".to_string())),
            _ => {
                if self.get_file().is_none() {
                    return Err(SnifferError::UserError("The file doesn't exist ...".to_string()));
                }
                match self.get_device() {
                    None => Err(SnifferError::UserError("You have to specify a device ...".to_string())),
                    Some(device) => {
                        let rewind = self.get_time_interval() == 0;
                        Ok((rewind, periodic_report(device, self.get_hashmap(), rewind)))
                    },
                }
            },
        }
    }
}

} // verus!
