//! The decisions of the built-in collectors: which source they read, and how
//! what came back becomes a table. Reading the sources is the caller's part.

use vstd::prelude::*;
use vstd::string::*;
use crate::dto::{row_insert, ColumnModel, CommandDTO, CommandData, ErrorKind, Row};
use crate::value::{format_timestamp_micros, timestamp_text, CellValue};

verus! {

/// A collector that returns one empty table; it shows how collectors are made.
pub struct ExampleCommand {
    pub data: CommandData,
}

/// Antivirus products, as the security center reports them.
pub struct AntivirusCommand {
    pub data: CommandData,
}

/// Providers registered for the antimalware scan interface.
pub struct AmsiProvidersCommand {
    pub data: CommandData,
}

/// The time the machine was last shut down.
pub struct LastShutdownCommand {
    pub data: CommandData,
}

/// Basic facts about the operating system and machine.
pub struct OSInfoCommand {
    pub data: CommandData,
}

impl Default for ExampleCommand {
    fn default() -> (r: ExampleCommand)
        ensures
            !r.data.support_remote,
    {
        ExampleCommand { data: CommandData { support_remote: false } }
    }
}

impl Default for AntivirusCommand {
    fn default() -> (r: AntivirusCommand)
        ensures
            !r.data.support_remote,
    {
        AntivirusCommand { data: CommandData { support_remote: false } }
    }
}

impl Default for AmsiProvidersCommand {
    fn default() -> (r: AmsiProvidersCommand)
        ensures
            !r.data.support_remote,
    {
        AmsiProvidersCommand { data: CommandData { support_remote: false } }
    }
}

impl Default for LastShutdownCommand {
    fn default() -> (r: LastShutdownCommand)
        ensures
            r.data.support_remote,
    {
        LastShutdownCommand { data: CommandData { support_remote: true } }
    }
}

impl Default for OSInfoCommand {
    fn default() -> (r: OSInfoCommand)
        ensures
            r.data.support_remote,
    {
        OSInfoCommand { data: CommandData { support_remote: true } }
    }
}

/// The table of the example collector: named `Example`, with no rows.
pub fn example_table() -> (r: CommandDTO)
    ensures
        r.source@ == "Example"@,
        r.data@.len() == 0,
{
    CommandDTO { source: String::from_str("Example"), data: Vec::new() }
}

/// The rows of the items that were read without error, in order.
pub open spec fn ok_rows(items: Seq<Result<Row, ErrorKind>>) -> Seq<Row>
    decreases items.len(),
{
    if items.len() == 0 {
        Seq::empty()
    } else {
        let rest = ok_rows(items.drop_last());
        match items.last() {
            Ok(r) => rest.push(r),
            Err(_) => rest,
        }
    }
}

/// The query namespace and statement of the antivirus collector.
pub fn antivirus_query() -> (r: (String, String))
    ensures
        r.0@ == "root\\SecurityCenter2"@,
        r.1@ == "SELECT * FROM AntiVirusProduct"@,
{
    (String::from_str("root\\SecurityCenter2"), String::from_str("SELECT * FROM AntiVirusProduct"))
}

/// The fields the antivirus collector reads from each product record.
pub fn antivirus_fields() -> (r: Vec<String>)
    ensures
        r@.map_values(|s: String| s@) == seq![
            "displayName"@,
            "pathToSignedProductExe"@,
            "pathToSignedReportingExe"@,
        ],
{
    let r = vec![
        String::from_str("displayName"),
        String::from_str("pathToSignedProductExe"),
        String::from_str("pathToSignedReportingExe"),
    ];
    assert(r@.map_values(|s: String| s@) =~= seq![
        "displayName"@,
        "pathToSignedProductExe"@,
        "pathToSignedReportingExe"@,
    ]);
    r
}

/// The antivirus table: the products that were read in full, in the order the
/// source gave them; products that failed to read are left out.
pub fn antivirus_table(items: Vec<Result<Row, ErrorKind>>) -> (r: CommandDTO)
    ensures
        r.source@ == "Antivirus"@,
        r.data@ == ok_rows(items@),
{
    let ghost all = items@;
    let n: usize = items.len();
    let mut items = items;
    let mut rows: Vec<Row> = Vec::new();
    let mut k: usize = 0;
    while items.len() > 0
        invariant
            k <= all.len() == n,
            items@ == all.skip(k as int),
            rows@ == ok_rows(all.take(k as int)),
        decreases items.len(),
    {
        let item = items.remove(0);
        proof {
            let p = all.take(k + 1);
            assert(p.drop_last() =~= all.take(k as int));
            assert(p.last() == all[k as int]);
            assert(items@ =~= all.skip(k + 1));
        }
        match item {
            Ok(row) => {
                rows.push(row);
            },
            Err(_) => {},
        }
        k = k + 1;
    }
    assert(all.take(k as int) =~= all);
    CommandDTO { source: String::from_str("Antivirus"), data: rows }
}

/// The registry path under which AMSI providers are listed.
pub fn amsi_providers_path() -> (r: String)
    ensures
        r@ == "SOFTWARE\\Microsoft\\AMSI\\Providers"@,
{
    String::from_str("SOFTWARE\\Microsoft\\AMSI\\Providers")
}

/// The registry path that holds the server of the COM class `provider`.
pub fn amsi_provider_server_path(provider: &String) -> (r: String)
    ensures
        r@ == "SOFTWARE\\Classes\\CLSID\\"@ + provider@ + "\\InprocServer32"@,
{
    let mut r = String::from_str("SOFTWARE\\Classes\\CLSID\\");
    r.append(provider.as_str());
    r.append("\\InprocServer32");
    r
}

/// The rows of the AMSI table: one column per provider server that was found.
pub open spec fn amsi_rows(servers: Seq<Result<String, ErrorKind>>) -> Seq<Seq<ColumnModel>>
    decreases servers.len(),
{
    if servers.len() == 0 {
        Seq::empty()
    } else {
        let rest = amsi_rows(servers.drop_last());
        match servers.last() {
            Ok(s) => rest.push(seq![("AMSI Provider"@, CellValue::Text(s))]),
            Err(_) => rest,
        }
    }
}

/// The AMSI providers table: one row per provider whose server path was read,
/// in order; providers whose lookup failed are left out.
pub fn amsi_providers_table(servers: Vec<Result<String, ErrorKind>>) -> (r: CommandDTO)
    ensures
        r.source@ == "Amsi Providers"@,
        r.data@.map_values(|row: Row| row@) == amsi_rows(servers@),
{
    let ghost all = servers@;
    let n: usize = servers.len();
    let mut servers = servers;
    let mut rows: Vec<Row> = Vec::new();
    let mut k: usize = 0;
    while servers.len() > 0
        invariant
            k <= all.len() == n,
            servers@ == all.skip(k as int),
            rows@.map_values(|row: Row| row@) == amsi_rows(all.take(k as int)),
        decreases servers.len(),
    {
        let item = servers.remove(0);
        proof {
            let p = all.take(k + 1);
            assert(p.drop_last() =~= all.take(k as int));
            assert(p.last() == all[k as int]);
            assert(servers@ =~= all.skip(k + 1));
        }
        match item {
            Ok(server) => {
                let ghost before = rows@;
                let mut row = Row::new();
                let ghost cell = CellValue::Text(server);
                row.insert(String::from_str("AMSI Provider"), CellValue::Text(server));
                proof {
                    assert(!crate::dto::has_column(Seq::<ColumnModel>::empty(), "AMSI Provider"@));
                    assert(row@ =~= seq![("AMSI Provider"@, cell)]);
                }
                rows.push(row);
                assert(rows@.map_values(|row: Row| row@) =~= before.map_values(|row: Row| row@).push(
                    seq![("AMSI Provider"@, cell)],
                ));
            },
            Err(_) => {},
        }
        k = k + 1;
    }
    assert(all.take(k as int) =~= all);
    CommandDTO { source: String::from_str("Amsi Providers"), data: rows }
}

/// The unsigned number whose little-endian bytes are the first eight of `b`.
pub open spec fn le_u64_value(b: Seq<u8>) -> int {
    b[0] + 256 * (b[1] + 256 * (b[2] + 256 * (b[3] + 256 * (b[4] + 256 * (b[5] + 256 * (b[6]
        + 256 * b[7]))))))
}

/// The two's complement reading of the first eight bytes of `b`, least
/// significant first.
pub open spec fn le_i64_value(b: Seq<u8>) -> int {
    let u = le_u64_value(b);
    if u >= 0x8000_0000_0000_0000 {
        u - 0x1_0000_0000_0000_0000
    } else {
        u
    }
}

/// Relies on byteorder's `LittleEndian::read_i64`: reads the first eight
/// bytes as a little-endian two's complement integer, and panics on fewer.
#[verifier::external_body]
fn read_i64_le(b: &[u8]) -> (r: i64)
    requires
        b@.len() >= 8,
    ensures
        r as int == le_i64_value(b@),
{
    <byteorder::LittleEndian as byteorder::ByteOrder>::read_i64(b)
}

/// 100-nanosecond intervals from 1601-01-01 to 1970-01-01, both UTC.
pub const FILETIME_UNIX_EPOCH_DIFFERENCE: i64 = 116444736000000000;

/// Integer division rounding toward zero.
pub open spec fn div_toward_zero(a: int, d: int) -> int {
    if a >= 0 {
        a / d
    } else {
        -((-a) / d)
    }
}

/// Microseconds since the Unix epoch of a file time (100-nanosecond
/// intervals since 1601), where the difference of epochs fits in 64 bits.
pub open spec fn filetime_micros(ft: int) -> Option<int> {
    let d = ft - FILETIME_UNIX_EPOCH_DIFFERENCE;
    if d < i64::MIN {
        None
    } else {
        Some(div_toward_zero(d, 10))
    }
}

/// Decodes a stored file time: eight little-endian bytes, converted to
/// microseconds since the Unix epoch. Fewer bytes, or a time too far before
/// the Unix epoch to convert, is a decode failure.
pub fn filetime_to_unix_micros(bytes: &Vec<u8>) -> (r: Result<i64, ErrorKind>)
    ensures
        bytes@.len() < 8 ==> r == Err::<i64, ErrorKind>(ErrorKind::Decode),
        bytes@.len() >= 8 ==> match filetime_micros(le_i64_value(bytes@)) {
            Some(m) => r == Ok::<i64, ErrorKind>(m as i64) && i64::MIN <= m <= i64::MAX,
            None => r == Err::<i64, ErrorKind>(ErrorKind::Decode),
        },
{
    if bytes.len() < 8 {
        return Err(ErrorKind::Decode);
    }
    let ft = read_i64_le(bytes.as_slice());
    let d: i128 = ft as i128 - FILETIME_UNIX_EPOCH_DIFFERENCE as i128;
    if d < i64::MIN as i128 {
        return Err(ErrorKind::Decode);
    }
    let q: i128 = if d >= 0 {
        d / 10
    } else {
        -((-d) / 10)
    };
    Ok(q as i64)
}

/// The last shutdown table for an already rendered shutdown time: named
/// `Last Shutdown`, with one row whose `Last Shutdown` column holds `time`.
pub fn last_shutdown_table(time: String) -> (r: CommandDTO)
    ensures
        r.source@ == "Last Shutdown"@,
        r.data@.len() == 1,
        r.data@[0]@ == seq![("Last Shutdown"@, CellValue::Text(time))],
{
    let mut row = Row::new();
    let ghost cell = CellValue::Text(time);
    row.insert(String::from_str("Last Shutdown"), CellValue::Text(time));
    proof {
        assert(!crate::dto::has_column(Seq::<ColumnModel>::empty(), "Last Shutdown"@));
        assert(row@ =~= seq![("Last Shutdown"@, cell)]);
    }
    let mut data: Vec<Row> = Vec::new();
    data.push(row);
    CommandDTO { source: String::from_str("Last Shutdown"), data }
}

/// The last shutdown table from the stored shutdown time. Fails with
/// `Decode` where the bytes do not decode, or where the instant cannot be
/// rendered as a date.
pub fn last_shutdown(bytes: &Vec<u8>) -> (r: Result<CommandDTO, ErrorKind>)
    ensures
        bytes@.len() < 8 ==> r == Err::<CommandDTO, ErrorKind>(ErrorKind::Decode),
        bytes@.len() >= 8 ==> match filetime_micros(le_i64_value(bytes@)) {
            None => r == Err::<CommandDTO, ErrorKind>(ErrorKind::Decode),
            Some(m) => match timestamp_text(m) {
                None => r == Err::<CommandDTO, ErrorKind>(ErrorKind::Decode),
                Some(t) => r matches Ok(table) && {
                    &&& table.source@ == "Last Shutdown"@
                    &&& table.data@.len() == 1
                    &&& table.data@[0]@.len() == 1
                    &&& table.data@[0]@[0].0 == "Last Shutdown"@
                    &&& crate::value::text_of(table.data@[0]@[0].1) == Some(t)
                },
            },
        },
{
    let micros = match filetime_to_unix_micros(bytes) {
        Ok(m) => m,
        Err(e) => {
            return Err(e);
        },
    };
    match format_timestamp_micros(micros) {
        Some(time) => Ok(last_shutdown_table(time)),
        None => Err(ErrorKind::Decode),
    }
}

/// The registry values under the current version key that the OS table shows.
pub fn osinfo_value_names() -> (r: Vec<String>)
    ensures
        r@.map_values(|s: String| s@) == seq![
            "ProductName"@,
            "EditionID"@,
            "ReleaseId"@,
            "BuildBranch"@,
            "CurrentMajorVersionNumber"@,
            "CurrentVersion"@,
            "CurrentBuildNumber"@,
            "UBR"@,
        ],
{
    let r = vec![
        String::from_str("ProductName"),
        String::from_str("EditionID"),
        String::from_str("ReleaseId"),
        String::from_str("BuildBranch"),
        String::from_str("CurrentMajorVersionNumber"),
        String::from_str("CurrentVersion"),
        String::from_str("CurrentBuildNumber"),
        String::from_str("UBR"),
    ];
    assert(r@.map_values(|s: String| s@) =~= seq![
        "ProductName"@,
        "EditionID"@,
        "ReleaseId"@,
        "BuildBranch"@,
        "CurrentMajorVersionNumber"@,
        "CurrentVersion"@,
        "CurrentBuildNumber"@,
        "UBR"@,
    ]);
    r
}

/// The environment variables the OS table shows.
pub fn osinfo_env_names() -> (r: Vec<String>)
    ensures
        r@.map_values(|s: String| s@) == seq![
            "PROCESSOR_ARCHITECTURE"@,
            "NUMBER_OF_PROCESSORS"@,
            "COMPUTERNAME"@,
        ],
{
    let r = vec![
        String::from_str("PROCESSOR_ARCHITECTURE"),
        String::from_str("NUMBER_OF_PROCESSORS"),
        String::from_str("COMPUTERNAME"),
    ];
    assert(r@.map_values(|s: String| s@) =~= seq![
        "PROCESSOR_ARCHITECTURE"@,
        "NUMBER_OF_PROCESSORS"@,
        "COMPUTERNAME"@,
    ]);
    r
}

/// `cols` after setting, in order, each named text that was found.
pub open spec fn insert_found(cols: Seq<ColumnModel>, entries: Seq<(String, Option<String>)>) -> Seq<ColumnModel>
    decreases entries.len(),
{
    if entries.len() == 0 {
        cols
    } else {
        let before = insert_found(cols, entries.drop_last());
        match entries.last().1 {
            Some(v) => row_insert(before, entries.last().0@, CellValue::Text(v)),
            None => before,
        }
    }
}

/// Sets a text column for each entry that holds a value, in order; entries
/// without one are skipped.
pub fn insert_found_values(row: &mut Row, entries: Vec<(String, Option<String>)>)
    ensures
        final(row)@ == insert_found(old(row)@, entries@),
{
    let ghost all = entries@;
    let ghost start = row@;
    let n: usize = entries.len();
    let mut entries = entries;
    let mut k: usize = 0;
    while entries.len() > 0
        invariant
            k <= all.len() == n,
            entries@ == all.skip(k as int),
            row@ == insert_found(start, all.take(k as int)),
        decreases entries.len(),
    {
        let (name, value) = entries.remove(0);
        proof {
            let p = all.take(k + 1);
            assert(p.drop_last() =~= all.take(k as int));
            assert(p.last() == all[k as int]);
            assert(entries@ =~= all.skip(k + 1));
        }
        match value {
            Some(v) => {
                row.insert(name, CellValue::Text(v));
            },
            None => {},
        }
        k = k + 1;
    }
    assert(all.take(k as int) =~= all);
}

/// Keeps the values that were read and drops the failed reads, keeping the
/// names.
pub fn found_values(entries: Vec<(String, Result<String, ErrorKind>)>) -> (r: Vec<(String, Option<String>)>)
    ensures
        r@.len() == entries@.len(),
        forall|i: int| 0 <= i < r@.len() ==> r@[i].0 == entries@[i].0 && r@[i].1 == match entries@[i].1 {
            Ok(v) => Some(v),
            Err(_) => None::<String>,
        },
{
    let ghost all = entries@;
    let n: usize = entries.len();
    let mut entries = entries;
    let mut r: Vec<(String, Option<String>)> = Vec::new();
    let mut k: usize = 0;
    while entries.len() > 0
        invariant
            k <= all.len() == n,
            entries@ == all.skip(k as int),
            r@.len() == k,
            forall|i: int| 0 <= i < k ==> r@[i].0 == all[i].0 && r@[i].1 == match all[i].1 {
                Ok(v) => Some(v),
                Err(_) => None::<String>,
            },
        decreases entries.len(),
    {
        let (name, value) = entries.remove(0);
        proof {
            assert(all[k as int] == all.skip(k as int)[0]);
            assert(entries@ =~= all.skip(k + 1));
        }
        let found = match value {
            Ok(v) => Some(v),
            Err(_) => None,
        };
        r.push((name, found));
        k = k + 1;
    }
    r
}

/// The boot instant in microseconds since the Unix epoch, from the current
/// time in milliseconds and the time since boot in milliseconds; `Decode`
/// where it does not fit in 64 bits.
pub fn boot_time_micros(now_millis: i64, uptime_millis: u64) -> (r: Result<i64, ErrorKind>)
    ensures
        ({
            let m = (now_millis - uptime_millis) * 1000;
            if i64::MIN <= m <= i64::MAX {
                r == Ok::<i64, ErrorKind>(m as i64)
            } else {
                r == Err::<i64, ErrorKind>(ErrorKind::Decode)
            }
        }),
{
    let m: i128 = (now_millis as i128 - uptime_millis as i128) * 1000;
    if m < i64::MIN as i128 || m > i64::MAX as i128 {
        Err(ErrorKind::Decode)
    } else {
        Ok(m as i64)
    }
}

/// The columns of the OS table, from what was read.
pub open spec fn osinfo_columns(
    versions: Seq<(String, Option<String>)>,
    env: Seq<(String, Option<String>)>,
    boot_time: String,
    time_zone: String,
    machine_guid: String,
) -> Seq<ColumnModel> {
    let c = insert_found(insert_found(Seq::empty(), versions), env);
    let c = row_insert(c, "BootTime"@, CellValue::Text(boot_time));
    let c = row_insert(c, "TimeZone"@, CellValue::Text(time_zone));
    row_insert(c, "MachineGuid"@, CellValue::Text(machine_guid))
}

/// `r` is the OS table built from these readings.
pub open spec fn is_osinfo_table(
    r: Result<CommandDTO, ErrorKind>,
    versions: Seq<(String, Result<String, ErrorKind>)>,
    env: Seq<(String, Option<String>)>,
    boot_time: String,
    time_zone: String,
    machine_guid: Result<String, ErrorKind>,
) -> bool {
    match machine_guid {
        Err(e) => r == Err::<CommandDTO, ErrorKind>(e),
        Ok(g) => r matches Ok(table) && {
            &&& table.source@ == "OSInfo"@
            &&& table.data@.len() == 1
            &&& exists|vs: Seq<(String, Option<String>)>| {
                &&& vs.len() == versions.len()
                &&& forall|i: int| 0 <= i < vs.len() ==> vs[i].0 == versions[i].0 && vs[i].1 == match versions[i].1 {
                    Ok(v) => Some(v),
                    Err(_) => None::<String>,
                }
                &&& table.data@[0]@ == osinfo_columns(vs, env, boot_time, time_zone, g)
            }
        },
    }
}

/// The OS table: one row of the version values and environment variables
/// that were found, the boot time, the time zone and the machine id. A
/// failure to read the machine id is the table's failure.
pub fn osinfo_table(
    versions: Vec<(String, Result<String, ErrorKind>)>,
    env: Vec<(String, Option<String>)>,
    boot_time: String,
    time_zone: String,
    machine_guid: Result<String, ErrorKind>,
) -> (r: Result<CommandDTO, ErrorKind>)
    ensures
        is_osinfo_table(r, versions@, env@, boot_time, time_zone, machine_guid),
{
    let guid = match machine_guid {
        Ok(g) => g,
        Err(e) => {
            return Err(e);
        },
    };
    let found = found_values(versions);
    let ghost vs = found@;
    let mut row = Row::new();
    insert_found_values(&mut row, found);
    insert_found_values(&mut row, env);
    row.insert(String::from_str("BootTime"), CellValue::Text(boot_time));
    row.insert(String::from_str("TimeZone"), CellValue::Text(time_zone));
    row.insert(String::from_str("MachineGuid"), CellValue::Text(guid));
    let mut data: Vec<Row> = Vec::new();
    data.push(row);
    let r = CommandDTO { source: String::from_str("OSInfo"), data };
    assert(r.data@[0]@ == osinfo_columns(vs, env@, boot_time, time_zone, guid));
    Ok(r)
}

/// The OS table with the boot time rendered from the current time and the
/// time since boot (both in milliseconds); `Decode` where the boot instant
/// cannot be rendered.
pub fn osinfo(
    versions: Vec<(String, Result<String, ErrorKind>)>,
    env: Vec<(String, Option<String>)>,
    now_millis: i64,
    uptime_millis: u64,
    time_zone: String,
    machine_guid: Result<String, ErrorKind>,
) -> (r: Result<CommandDTO, ErrorKind>)
    ensures
        ({
            let m = (now_millis - uptime_millis) * 1000;
            if !(i64::MIN <= m <= i64::MAX) || timestamp_text(m) is None {
                r == Err::<CommandDTO, ErrorKind>(ErrorKind::Decode)
            } else {
                exists|bt: String| Some(bt@) == timestamp_text(m)
                    && is_osinfo_table(r, versions@, env@, bt, time_zone, machine_guid)
            }
        }),
{
    let micros = match boot_time_micros(now_millis, uptime_millis) {
        Ok(m) => m,
        Err(e) => {
            return Err(e);
        },
    };
    match format_timestamp_micros(micros) {
        Some(boot_time) => osinfo_table(versions, env, boot_time, time_zone, machine_guid),
        None => Err(ErrorKind::Decode),
    }
}

} // verus!
