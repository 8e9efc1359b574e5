//! The hosts that the service knows: what is recorded of one, and how it keeps its id.
//!
//! A host is recorded by [`crate::dbctx::DbCtx::record_host`] and then found by
//! [`crate::dbctx::DbCtx::id_for_host`]. The table is seen here as a list of rows; [`recorded`] and
//! [`is_id_of`] are what the two statements mean for it.

use crate::dbctx::Bound;
use crate::protocol::HostInfo;
use crate::sql::CREATE_HOSTS_TABLE;
use crate::text::join;
use vstd::prelude::*;

verus! {

/// The statement that records a host, unless it is recorded already.
pub const RECORD_HOST: &'static str = "insert or ignore into hosts (hostname, cpu_vendor_id, cpu_model_name, cpu_family, cpu_model, cpu_microcode, cpu_max_freq_khz, cpu_cores, mem_total, arch, family, os) values (?1, ?2, ?3, ?4, ?5, ?6, ?7, ?8, ?9, ?10, ?11, ?12 );";

/// What is recorded of a host, column by column.
pub open spec fn host_values(host: HostInfo) -> Seq<Bound> {
    seq![
        Bound::Text(host.hostname@),
        Bound::Text(host.cpu_info.vendor_id@),
        Bound::Text(host.cpu_info.model_name@),
        Bound::Text(host.cpu_info.family@),
        Bound::Text(host.cpu_info.model@),
        Bound::Text(host.cpu_info.microcode@),
        Bound::Unsigned(host.cpu_info.max_freq),
        Bound::Unsigned(host.cpu_info.cores as u64),
        Bound::Text(host.memory_info.total@),
        Bound::Text(host.env_info.arch@),
        Bound::Text(host.env_info.family@),
        Bound::Text(host.env_info.os@),
    ]
}

/// The columns that hold what is recorded of a host.
pub open spec fn host_columns() -> Seq<char> {
    "hostname, cpu_vendor_id, cpu_model_name, cpu_family, cpu_model, cpu_microcode, cpu_max_freq_khz, cpu_cores, mem_total, arch, family, os"@
}

/// What must differ from row to row of the table of hosts are the columns in which a host is
/// recorded, all of them taken together.
pub proof fn hosts_are_unique_in_what_is_recorded()
    ensures
        ("UNIQUE("@ + host_columns() + "));"@).is_suffix_of(CREATE_HOSTS_TABLE@),
        ("insert or ignore into hosts ("@ + host_columns() + ") values ("@).is_prefix_of(
            RECORD_HOST@,
        ),
{
    reveal_strlit(
        "hostname, cpu_vendor_id, cpu_model_name, cpu_family, cpu_model, cpu_microcode, cpu_max_freq_khz, cpu_cores, mem_total, arch, family, os",
    );
    reveal_strlit("UNIQUE(");
    reveal_strlit("));");
    reveal_strlit(
        "\
    CREATE TABLE IF NOT EXISTS hosts (id INTEGER PRIMARY KEY AUTOINCREMENT,
        hostname TEXT,
        cpu_vendor_id TEXT,
        cpu_model_name TEXT,
        cpu_family TEXT,
        cpu_model TEXT,
        cpu_microcode TEXT,
        cpu_max_freq_khz INTEGER,
        cpu_cores INTEGER,
        mem_total TEXT,
        arch TEXT,
        family TEXT,
        os TEXT,
        UNIQUE(hostname, cpu_vendor_id, cpu_model_name, cpu_family, cpu_model, cpu_microcode, cpu_max_freq_khz, cpu_cores, mem_total, arch, family, os));",
    );
    let unique = "UNIQUE("@ + host_columns() + "));"@;
    let table = CREATE_HOSTS_TABLE@;
    assert(unique =~= table.subrange(table.len() - unique.len(), table.len() as int));
    reveal_strlit("insert or ignore into hosts (");
    reveal_strlit(") values (");
    reveal_strlit(
        "insert or ignore into hosts (hostname, cpu_vendor_id, cpu_model_name, cpu_family, cpu_model, cpu_microcode, cpu_max_freq_khz, cpu_cores, mem_total, arch, family, os) values (?1, ?2, ?3, ?4, ?5, ?6, ?7, ?8, ?9, ?10, ?11, ?12 );",
    );
    let named = "insert or ignore into hosts ("@ + host_columns() + ") values ("@;
    assert(named =~= RECORD_HOST@.take(named.len() as int));
}

/// The two are the same host, for all that is recorded.
pub open spec fn same_host(a: HostInfo, b: HostInfo) -> bool {
    &&& a.hostname@ == b.hostname@
    &&& a.cpu_info.vendor_id@ == b.cpu_info.vendor_id@
    &&& a.cpu_info.model_name@ == b.cpu_info.model_name@
    &&& a.cpu_info.family@ == b.cpu_info.family@
    &&& a.cpu_info.model@ == b.cpu_info.model@
    &&& a.cpu_info.microcode@ == b.cpu_info.microcode@
    &&& a.cpu_info.max_freq == b.cpu_info.max_freq
    &&& a.cpu_info.cores == b.cpu_info.cores
    &&& a.memory_info.total@ == b.memory_info.total@
    &&& a.env_info.arch@ == b.env_info.arch@
    &&& a.env_info.family@ == b.env_info.family@
    &&& a.env_info.os@ == b.env_info.os@
}

/// A row of the table of hosts.
pub struct HostRow {
    pub id: u64,
    pub values: Seq<Bound>,
}

/// No two rows of the table have the same id, and no two hold the same host.
pub open spec fn keeps_hosts(table: Seq<HostRow>) -> bool {
    forall|i: int, j: int|
        0 <= i < j < table.len() ==> {
            &&& (#[trigger] table[i]).id != (#[trigger] table[j]).id
            &&& table[i].values != table[j].values
        }
}

/// One of the rows has the id.
pub open spec fn has_id(table: Seq<HostRow>, id: u64) -> bool {
    exists|i: int| 0 <= i < table.len() && (#[trigger] table[i]).id == id
}

/// One of the rows holds the host.
pub open spec fn has_host(table: Seq<HostRow>, host: HostInfo) -> bool {
    exists|i: int| 0 <= i < table.len() && (#[trigger] table[i]).values == host_values(host)
}

/// The row with the id holds the host.
pub open spec fn is_id_of(table: Seq<HostRow>, id: u64, host: HostInfo) -> bool {
    exists|i: int|
        0 <= i < table.len() && (#[trigger] table[i]).id == id && table[i].values == host_values(
            host,
        )
}

/// The table after a host was recorded: with a new row, which gets the id given, unless a row holds
/// the host already.
pub open spec fn recorded(table: Seq<HostRow>, host: HostInfo, id: u64) -> Seq<HostRow> {
    if has_host(table, host) {
        table
    } else {
        table.push(HostRow { id, values: host_values(host) })
    }
}

/// What is recorded of two hosts is the same only if they are the same host.
pub proof fn recorded_values_tell_hosts_apart(a: HostInfo, b: HostInfo)
    ensures
        host_values(a) == host_values(b) <==> same_host(a, b),
{
    let x = host_values(a);
    let y = host_values(b);
    if x == y {
        assert(x[0] == y[0] && x[1] == y[1] && x[2] == y[2] && x[3] == y[3]);
        assert(x[4] == y[4] && x[5] == y[5] && x[6] == y[6] && x[7] == y[7]);
        assert(x[8] == y[8] && x[9] == y[9] && x[10] == y[10] && x[11] == y[11]);
    }
}

/// A host that was recorded has exactly one id: a new one where the host was not known, so also where
/// one is known that differs from it in a single column. The rows that were there stay as they were.
pub proof fn recorded_hosts_have_an_id(table: Seq<HostRow>, host: HostInfo, fresh: u64)
    requires
        keeps_hosts(table),
        !has_id(table, fresh),
    ensures
        keeps_hosts(recorded(table, host, fresh)),
        table.is_prefix_of(recorded(table, host, fresh)),
        has_host(recorded(table, host, fresh), host),
        exists|id: u64| is_id_of(recorded(table, host, fresh), id, host),
        forall|a: u64, b: u64|
            is_id_of(recorded(table, host, fresh), a, host) && is_id_of(
                recorded(table, host, fresh),
                b,
                host,
            ) ==> a == b,
        !has_host(table, host) ==> is_id_of(recorded(table, host, fresh), fresh, host),
{
    let after = recorded(table, host, fresh);
    assert(table =~= after.take(table.len() as int));
    if has_host(table, host) {
        let k = choose|k: int| 0 <= k < table.len() && (#[trigger] table[k]).values == host_values(
            host,
        );
        assert(is_id_of(after, table[k].id, host));
    } else {
        assert(after[table.len() as int] == HostRow { id: fresh, values: host_values(host) });
        assert(is_id_of(after, fresh, host));
    }
}

/// Recording a host once more changes nothing, so asking again for its id gives the same id.
pub proof fn hosts_keep_their_ids(table: Seq<HostRow>, host: HostInfo, fresh: u64, other: u64)
    requires
        keeps_hosts(table),
        !has_id(table, fresh),
    ensures
        recorded(recorded(table, host, fresh), host, other) == recorded(table, host, fresh),
{
    recorded_hosts_have_an_id(table, host, fresh);
}

/// Recording another host leaves a host its id.
pub proof fn other_hosts_keep_their_ids(
    table: Seq<HostRow>,
    host: HostInfo,
    id: u64,
    other: HostInfo,
    fresh: u64,
)
    requires
        is_id_of(table, id, host),
    ensures
        is_id_of(recorded(table, other, fresh), id, host),
{
    let k = choose|k: int|
        0 <= k < table.len() && (#[trigger] table[k]).id == id && table[k].values == host_values(
            host,
        );
    assert(recorded(table, other, fresh)[k] == table[k]);
}

/// Hosts that differ in anything that is recorded have different ids.
pub proof fn different_hosts_have_different_ids(
    table: Seq<HostRow>,
    a: HostInfo,
    b: HostInfo,
    id: u64,
)
    requires
        keeps_hosts(table),
        is_id_of(table, id, a),
        !same_host(a, b),
    ensures
        !is_id_of(table, id, b),
{
    recorded_values_tell_hosts_apart(a, b);
}

/// The columns that hold what is recorded of a host, one by one.
pub open spec fn host_column_list() -> Seq<Seq<char>> {
    seq![
        "hostname"@,
        "cpu_vendor_id"@,
        "cpu_model_name"@,
        "cpu_family"@,
        "cpu_model"@,
        "cpu_microcode"@,
        "cpu_max_freq_khz"@,
        "cpu_cores"@,
        "mem_total"@,
        "arch"@,
        "family"@,
        "os"@,
    ]
}

/// The value that is recorded of a host in a column.
pub open spec fn recorded_in(host: HostInfo, column: Seq<char>, value: Bound) -> bool {
    exists|k: int|
        {
            &&& 0 <= k < host_column_list().len()
            &&& #[trigger] host_column_list()[k] == column
            &&& host_values(host)[k] == value
        }
}

/// Everything that is recorded of a host is in the column of its name.
pub proof fn hosts_are_recorded_by_column(host: HostInfo)
    ensures
        host_values(host).len() == host_column_list().len(),
        recorded_in(host, "hostname"@, Bound::Text(host.hostname@)),
        recorded_in(host, "cpu_vendor_id"@, Bound::Text(host.cpu_info.vendor_id@)),
        recorded_in(host, "cpu_model_name"@, Bound::Text(host.cpu_info.model_name@)),
        recorded_in(host, "cpu_family"@, Bound::Text(host.cpu_info.family@)),
        recorded_in(host, "cpu_model"@, Bound::Text(host.cpu_info.model@)),
        recorded_in(host, "cpu_microcode"@, Bound::Text(host.cpu_info.microcode@)),
        recorded_in(host, "cpu_max_freq_khz"@, Bound::Unsigned(host.cpu_info.max_freq)),
        recorded_in(host, "cpu_cores"@, Bound::Unsigned(host.cpu_info.cores as u64)),
        recorded_in(host, "mem_total"@, Bound::Text(host.memory_info.total@)),
        recorded_in(host, "arch"@, Bound::Text(host.env_info.arch@)),
        recorded_in(host, "family"@, Bound::Text(host.env_info.family@)),
        recorded_in(host, "os"@, Bound::Text(host.env_info.os@)),
        host_columns() == join(host_column_list(), ", "@),
{
    let names = host_column_list();
    assert(names[0] == "hostname"@ && names[1] == "cpu_vendor_id"@);
    assert(names[2] == "cpu_model_name"@ && names[3] == "cpu_family"@);
    assert(names[4] == "cpu_model"@ && names[5] == "cpu_microcode"@);
    assert(names[6] == "cpu_max_freq_khz"@ && names[7] == "cpu_cores"@);
    assert(names[8] == "mem_total"@ && names[9] == "arch"@);
    assert(names[10] == "family"@ && names[11] == "os"@);
    host_columns_are_joined();
}

proof fn host_columns_are_joined()
    ensures
        host_columns() == join(host_column_list(), ", "@),
{
    reveal_strlit(
        "hostname, cpu_vendor_id, cpu_model_name, cpu_family, cpu_model, cpu_microcode, cpu_max_freq_khz, cpu_cores, mem_total, arch, family, os",
    );
    reveal_strlit(", ");
    reveal_strlit("hostname");
    reveal_strlit("cpu_vendor_id");
    reveal_strlit("cpu_model_name");
    reveal_strlit("cpu_family");
    reveal_strlit("cpu_model");
    reveal_strlit("cpu_microcode");
    reveal_strlit("cpu_max_freq_khz");
    reveal_strlit("cpu_cores");
    reveal_strlit("mem_total");
    reveal_strlit("arch");
    reveal_strlit("family");
    reveal_strlit("os");
    let list = host_column_list();
    let text = host_columns();
    assert(join(list.take(1), ", "@) =~= text.take(8));
    joined_up_to(list, 2);
    assert(join(list.take(2), ", "@) =~= text.take(23));
    joined_up_to(list, 3);
    assert(join(list.take(3), ", "@) =~= text.take(39));
    joined_up_to(list, 4);
    assert(join(list.take(4), ", "@) =~= text.take(51));
    joined_up_to(list, 5);
    assert(join(list.take(5), ", "@) =~= text.take(62));
    joined_up_to(list, 6);
    assert(join(list.take(6), ", "@) =~= text.take(77));
    joined_up_to(list, 7);
    assert(join(list.take(7), ", "@) =~= text.take(95));
    joined_up_to(list, 8);
    assert(join(list.take(8), ", "@) =~= text.take(106));
    joined_up_to(list, 9);
    assert(join(list.take(9), ", "@) =~= text.take(117));
    joined_up_to(list, 10);
    assert(join(list.take(10), ", "@) =~= text.take(123));
    joined_up_to(list, 11);
    assert(join(list.take(11), ", "@) =~= text.take(131));
    joined_up_to(list, 12);
    assert(list.take(12) =~= list);
    assert(join(list, ", "@) =~= text);
}

proof fn joined_up_to(list: Seq<Seq<char>>, n: int)
    requires
        2 <= n <= list.len(),
    ensures
        join(list.take(n), ", "@) == join(list.take(n - 1), ", "@) + ", "@ + list[n - 1],
{
    assert(list.take(n).drop_last() =~= list.take(n - 1));
}

} // verus!
