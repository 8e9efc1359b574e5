//! The table of what the runs of a job measured.

use crate::sql::MetricRecord;
use crate::text::beginnings_occur;
use crate::text::occurs;
use crate::text::parts_occur;
use crate::text::parts_of_parts_occur;
use crate::text::same;
use crate::text::three_last_parts_occur;
use crate::text::views;
use vstd::prelude::*;

verus! {

/// A host, as the table shows it.
pub struct HostDesc {
    pub hostname: String,
    pub cpu_desc: String,
    pub cpu_max_freq_khz: u64,
}

/// What a cpu is called.
pub open spec fn cpu_name(vendor: Seq<char>, family: Seq<char>, model: Seq<char>) -> Seq<char> {
    if vendor == "Arm Limited"@ && family == "8"@ && model == "0xd03"@ {
        "aarch64 A53"@
    } else if vendor == "GenuineIntel"@ && family == "6"@ && model == "85"@ {
        "x86_64 Skylake"@
    } else if vendor == "AuthenticAMD"@ && family == "23"@ && model == "113"@ {
        "x86_64 Matisse"@
    } else {
        "unknown "@ + vendor + ":"@ + family + ":"@ + model
    }
}

impl HostDesc {
    pub fn from_parts(
        hostname: String,
        vendor_id: String,
        cpu_family: String,
        model: String,
        cpu_max_freq_khz: u64,
    ) -> (r: Self)
        ensures
            r.hostname == hostname,
            r.cpu_desc@ == cpu_name(vendor_id@, cpu_family@, model@),
            r.cpu_max_freq_khz == cpu_max_freq_khz,
    {
        let vendor: &str = vendor_id.as_str();
        let family: &str = cpu_family.as_str();
        let model: &str = model.as_str();
        let cpu_desc: String = if same(vendor, "Arm Limited") && same(family, "8") && same(
            model,
            "0xd03",
        ) {
            "aarch64 A53".to_owned()
        } else if same(vendor, "GenuineIntel") && same(family, "6") && same(model, "85") {
            "x86_64 Skylake".to_owned()
        } else if same(vendor, "AuthenticAMD") && same(family, "23") && same(model, "113") {
            "x86_64 Matisse".to_owned()
        } else {
            "unknown ".to_owned().concat(vendor).concat(":").concat(family).concat(":").concat(
                model,
            )
        };
        HostDesc { hostname, cpu_desc, cpu_max_freq_khz }
    }

    /// A host of which nothing is known.
    pub fn unknown() -> (r: Self)
        ensures
            r.hostname@ == "unknown"@,
            r.cpu_desc@ == cpu_name("unknown"@, "0"@, "0"@),
            r.cpu_max_freq_khz == 0,
    {
        HostDesc::from_parts(
            "unknown".to_owned(),
            "unknown".to_owned(),
            "0".to_owned(),
            "0".to_owned(),
            0,
        )
    }
}

/// What a run measured and on which host, with the text of the host's highest frequency in GHz.
pub struct HostMetrics {
    pub metrics: Vec<MetricRecord>,
    pub host: HostDesc,
    pub ghz: String,
}

/// The names that are known already, and after them those of the first `n` metrics that are new.
pub open spec fn names_with(
    seen: Seq<Seq<char>>,
    metrics: Seq<MetricRecord>,
    n: nat,
) -> Seq<Seq<char>>
    decreases n,
{
    if n == 0 {
        seen
    } else {
        let before = names_with(seen, metrics, (n - 1) as nat);
        let name = metrics[n - 1].name@;
        if before.contains(name) {
            before
        } else {
            before.push(name)
        }
    }
}

/// The names of all that the first `n` runs measured, in the order in which they first occur.
pub open spec fn all_names(runs: Seq<HostMetrics>, n: nat) -> Seq<Seq<char>>
    decreases n,
{
    if n == 0 {
        Seq::empty()
    } else {
        names_with(
            all_names(runs, (n - 1) as nat),
            runs[n - 1].metrics@,
            runs[n - 1].metrics@.len(),
        )
    }
}

proof fn names_with_keeps(seen: Seq<Seq<char>>, metrics: Seq<MetricRecord>, n: nat)
    requires
        n <= metrics.len(),
        seen.no_duplicates(),
    ensures
        names_with(seen, metrics, n).no_duplicates(),
        forall|name: Seq<char>|
            seen.contains(name) ==> #[trigger] names_with(seen, metrics, n).contains(name),
        forall|i: int|
            0 <= i < n ==> names_with(seen, metrics, n).contains((#[trigger] metrics[i]).name@),
    decreases n,
{
    if n > 0 {
        names_with_keeps(seen, metrics, (n - 1) as nat);
        let before = names_with(seen, metrics, (n - 1) as nat);
        let name = metrics[n - 1].name@;
        if !before.contains(name) {
            let after = before.push(name);
            assert(after.last() == name);
            assert forall|other: Seq<char>| before.contains(other) implies #[trigger] after.contains(
                other,
            ) by {
                let k = choose|k: int| 0 <= k < before.len() && before[k] == other;
                assert(after[k] == other);
            }
        }
    }
}

/// Every metric has a row, and no two rows have the same name.
pub proof fn metrics_have_one_row_each(runs: Seq<HostMetrics>, n: nat)
    requires
        n <= runs.len(),
    ensures
        all_names(runs, n).no_duplicates(),
        forall|r: int, i: int|
            0 <= r < n && 0 <= i < runs[r].metrics@.len() ==> all_names(runs, n).contains(
                (#[trigger] runs[r].metrics@[i]).name@,
            ),
    decreases n,
{
    if n > 0 {
        metrics_have_one_row_each(runs, (n - 1) as nat);
        names_with_keeps(
            all_names(runs, (n - 1) as nat),
            runs[n - 1].metrics@,
            runs[n - 1].metrics@.len(),
        );
    }
}

/// What the first `n` metrics say under a name: the last of them counts, and nothing is said where
/// there is none.
pub open spec fn value_under(metrics: Seq<MetricRecord>, n: nat, name: Seq<char>) -> Seq<char>
    decreases n,
{
    if n == 0 {
        Seq::empty()
    } else if metrics[n - 1].name@ == name {
        metrics[n - 1].value@
    } else {
        value_under(metrics, (n - 1) as nat, name)
    }
}

/// The rows of the first `n` metrics of one run.
pub open spec fn single_rows_html(metrics: Seq<MetricRecord>, n: nat) -> Seq<char>
    decreases n,
{
    if n == 0 {
        "<tr><th>name</th><th>value</th></tr>"@
    } else {
        single_rows_html(metrics, (n - 1) as nat) + "<tr><td>"@ + metrics[n - 1].name@
            + "</td><td>"@ + metrics[n - 1].value@ + "</td></tr>"@
    }
}

pub fn single_rows(metrics: &Vec<MetricRecord>) -> (r: String)
    ensures
        r@ == single_rows_html(metrics@, metrics@.len()),
{
    let mut out = "<tr><th>name</th><th>value</th></tr>".to_owned();
    let mut i: usize = 0;
    while i < metrics.len()
        invariant
            i <= metrics@.len(),
            out@ == single_rows_html(metrics@, i as nat),
        decreases metrics@.len() - i,
    {
        out.append("<tr><td>");
        out.append(metrics[i].name.as_str());
        out.append("</td><td>");
        out.append(metrics[i].value.as_str());
        out.append("</td></tr>");
        i = i + 1;
    }
    out
}

/// The first row of the table of several runs.
pub open spec fn hosts_html(runs: Seq<HostMetrics>, n: nat) -> Seq<char>
    decreases n,
{
    if n == 0 {
        "<tr><th>name</th>"@
    } else {
        hosts_html(runs, (n - 1) as nat) + "<th>"@ + runs[n - 1].host.hostname@ + "</br>"@
            + runs[n - 1].host.cpu_desc@ + " @ "@ + runs[n - 1].ghz@ + "GHz</th>"@
    }
}

fn host_cells(runs: &Vec<HostMetrics>) -> (r: String)
    ensures
        r@ == hosts_html(runs@, runs@.len()),
{
    let mut out = "<tr><th>name</th>".to_owned();
    let mut i: usize = 0;
    while i < runs.len()
        invariant
            i <= runs@.len(),
            out@ == hosts_html(runs@, i as nat),
        decreases runs@.len() - i,
    {
        out.append("<th>");
        out.append(runs[i].host.hostname.as_str());
        out.append("</br>");
        out.append(runs[i].host.cpu_desc.as_str());
        out.append(" @ ");
        out.append(runs[i].ghz.as_str());
        out.append("GHz</th>");
        i = i + 1;
    }
    out
}

/// What the first `n` runs say under a name.
pub open spec fn values_html(runs: Seq<HostMetrics>, n: nat, name: Seq<char>) -> Seq<char>
    decreases n,
{
    if n == 0 {
        "<tr><td>"@ + name + "</td>"@
    } else {
        values_html(runs, (n - 1) as nat, name) + "<td>"@ + value_under(
            runs[n - 1].metrics@,
            runs[n - 1].metrics@.len(),
            name,
        ) + "</td>"@
    }
}

fn metric_value(metrics: &Vec<MetricRecord>, name: &str) -> (r: String)
    ensures
        r@ == value_under(metrics@, metrics@.len(), name@),
{
    let mut n: usize = metrics.len();
    while n > 0
        invariant
            n <= metrics@.len(),
            value_under(metrics@, metrics@.len(), name@) == value_under(
                metrics@,
                n as nat,
                name@,
            ),
        decreases n,
    {
        if same(metrics[n - 1].name.as_str(), name) {
            return metrics[n - 1].value.clone();
        }
        n = n - 1;
    }
    String::new()
}

fn value_cells(runs: &Vec<HostMetrics>, name: &str) -> (r: String)
    ensures
        r@ == values_html(runs@, runs@.len(), name@),
{
    let mut out = "<tr><td>".to_owned().concat(name).concat("</td>");
    let mut i: usize = 0;
    while i < runs.len()
        invariant
            i <= runs@.len(),
            out@ == values_html(runs@, i as nat, name@),
        decreases runs@.len() - i,
    {
        let value = metric_value(&runs[i].metrics, name);
        out.append("<td>");
        out.append(value.as_str());
        out.append("</td>");
        i = i + 1;
    }
    out
}

/// The rows of the first `n` names.
pub open spec fn rows_html(runs: Seq<HostMetrics>, names: Seq<Seq<char>>, n: nat) -> Seq<char>
    decreases n,
{
    if n == 0 {
        Seq::empty()
    } else {
        rows_html(runs, names, (n - 1) as nat) + values_html(runs, runs.len(), names[n - 1])
            + "</tr>\n"@
    }
}

fn rows(runs: &Vec<HostMetrics>, names: &Vec<String>) -> (r: String)
    ensures
        r@ == rows_html(runs@, views(names@), names@.len()),
{
    let mut out = String::new();
    let mut i: usize = 0;
    while i < names.len()
        invariant
            i <= names@.len(),
            out@ == rows_html(runs@, views(names@), i as nat),
        decreases names@.len() - i,
    {
        assert(views(names@)[i as int] == names@[i as int]@);
        let row = value_cells(runs, names[i].as_str());
        out.append(row.as_str());
        out.append("</tr>\n");
        i = i + 1;
    }
    out
}

fn holds_name(names: &Vec<String>, name: &str) -> (r: bool)
    ensures
        r == views(names@).contains(name@),
{
    let mut i: usize = 0;
    while i < names.len()
        invariant
            i <= names@.len(),
            forall|j: int| 0 <= j < i ==> #[trigger] views(names@)[j] != name@,
        decreases names@.len() - i,
    {
        if same(names[i].as_str(), name) {
            assert(views(names@)[i as int] == name@);
            return true;
        }
        i = i + 1;
    }
    false
}

fn name_list(runs: &Vec<HostMetrics>) -> (r: Vec<String>)
    ensures
        views(r@) == all_names(runs@, runs@.len()),
{
    let mut names: Vec<String> = Vec::new();
    let mut r: usize = 0;
    assert(views(names@) =~= Seq::<Seq<char>>::empty());
    while r < runs.len()
        invariant
            r <= runs@.len(),
            views(names@) == all_names(runs@, r as nat),
        decreases runs@.len() - r,
    {
        let metrics: &Vec<MetricRecord> = &runs[r].metrics;
        let mut i: usize = 0;
        while i < metrics.len()
            invariant
                i <= metrics@.len(),
                views(names@) == names_with(all_names(runs@, r as nat), metrics@, i as nat),
            decreases metrics@.len() - i,
        {
            let ghost before = names@;
            if !holds_name(&names, metrics[i].name.as_str()) {
                names.push(metrics[i].name.clone());
                assert(views(names@) =~= views(before).push(metrics@[i as int].name@));
            }
            i = i + 1;
        }
        r = r + 1;
    }
    names
}

/// What is between the opening and the closing of the table, where there is something to show.
pub open spec fn table_html(shown: Seq<MetricRecord>, runs: Seq<HostMetrics>) -> Option<Seq<char>> {
    if runs.len() == 1 {
        if shown.len() == 0 {
            None
        } else {
            Some(single_rows_html(shown, shown.len()))
        }
    } else if runs.len() == 0 {
        None
    } else {
        let names = all_names(runs, runs.len());
        Some(hosts_html(runs, runs.len()) + "</tr>\n"@ + rows_html(runs, names, names.len()))
    }
}

/// The table of what was measured.
pub open spec fn section_html(table: Seq<char>) -> Seq<char> {
    "<div>\n"@ + "<h3>metrics</h3>\n"@ + "<table style='font-family: monospace;'>\n"@ + table
        + "</table>\n"@ + "</div>\n"@
}

/// The table of what the runs of a job measured, where there is something to show: of one run only
/// its own metrics, which are `shown`, and of several a column for each host.
pub fn summarize_job_metrics(
    shown: &Vec<MetricRecord>,
    runs: &Vec<HostMetrics>,
) -> (r: Option<String>)
    ensures
        match r {
            Some(section) => table_html(shown@, runs@) is Some && section@ == section_html(
                table_html(shown@, runs@)->0,
            ),
            None => table_html(shown@, runs@) is None,
        },
{
    let table: String = if runs.len() == 1 {
        if shown.len() == 0 {
            return None;
        }
        single_rows(shown)
    } else {
        if runs.len() == 0 {
            return None;
        }
        let names = name_list(runs);
        let body = rows(runs, &names);
        host_cells(runs).concat("</tr>\n").concat(body.as_str())
    };
    Some(
        "<div>\n".to_owned().concat("<h3>metrics</h3>\n").concat(
            "<table style='font-family: monospace;'>\n",
        ).concat(table.as_str()).concat("</table>\n").concat("</div>\n"),
    )
}

/// What a run is said to have measured under a name is the last value that it gave under it, and
/// nothing where it gave none.
pub proof fn the_last_value_counts(metrics: Seq<MetricRecord>, n: nat, name: Seq<char>, i: int)
    requires
        n <= metrics.len(),
    ensures
        0 <= i < n && metrics[i].name@ == name && (forall|j: int|
            i < j < n ==> (#[trigger] metrics[j]).name@ != name) ==> value_under(metrics, n, name)
            == metrics[i].value@,
        (forall|j: int| 0 <= j < n ==> (#[trigger] metrics[j]).name@ != name) ==> value_under(
            metrics,
            n,
            name,
        ) == Seq::<char>::empty(),
    decreases n,
{
    if n > 0 {
        the_last_value_counts(metrics, (n - 1) as nat, name, i);
    }
}

proof fn names_with_come_from(
    seen: Seq<Seq<char>>,
    metrics: Seq<MetricRecord>,
    n: nat,
    name: Seq<char>,
)
    requires
        n <= metrics.len(),
        names_with(seen, metrics, n).contains(name),
    ensures
        seen.contains(name) || exists|i: int|
            0 <= i < n && (#[trigger] metrics[i]).name@ == name,
    decreases n,
{
    if n > 0 {
        let before = names_with(seen, metrics, (n - 1) as nat);
        if before.contains(name) {
            names_with_come_from(seen, metrics, (n - 1) as nat, name);
        } else {
            assert(metrics[n - 1].name@ == name);
        }
    }
}

/// Every row of the table is of something that one of the runs measured.
pub proof fn rows_are_of_metrics(runs: Seq<HostMetrics>, n: nat, name: Seq<char>)
    requires
        n <= runs.len(),
        all_names(runs, n).contains(name),
    ensures
        exists|r: int, i: int|
            0 <= r < n && 0 <= i < runs[r].metrics@.len() && (#[trigger] runs[r].metrics@[i]).name@
                == name,
    decreases n,
{
    if n > 0 {
        let before = all_names(runs, (n - 1) as nat);
        let metrics = runs[n - 1].metrics@;
        names_with_come_from(before, metrics, metrics.len(), name);
        if before.contains(name) {
            rows_are_of_metrics(runs, (n - 1) as nat, name);
        } else {
            let i = choose|i: int| 0 <= i < metrics.len() && (#[trigger] metrics[i]).name@ == name;
            assert(runs[n - 1].metrics@[i].name@ == name);
        }
    }
}

proof fn values_occur(runs: Seq<HostMetrics>, n: nat, name: Seq<char>, r: int)
    requires
        0 <= r < n <= runs.len(),
    ensures
        occurs(
            values_html(runs, n, name),
            "<td>"@ + value_under(runs[r].metrics@, runs[r].metrics@.len(), name) + "</td>"@,
        ),
    decreases n,
{
    let rest = values_html(runs, (n - 1) as nat, name);
    let value = value_under(runs[n - 1].metrics@, runs[n - 1].metrics@.len(), name);
    let part = "<td>"@ + value_under(runs[r].metrics@, runs[r].metrics@.len(), name) + "</td>"@;
    if r == n - 1 {
        three_last_parts_occur(rest, "<td>"@, value, "</td>"@);
    } else {
        values_occur(runs, (n - 1) as nat, name, r);
        beginnings_occur(rest, "<td>"@, part);
        beginnings_occur(rest + "<td>"@, value, part);
        beginnings_occur(rest + "<td>"@ + value, "</td>"@, part);
    }
}

proof fn metric_rows_occur(runs: Seq<HostMetrics>, names: Seq<Seq<char>>, n: nat, k: int)
    requires
        0 <= k < n <= names.len(),
    ensures
        occurs(rows_html(runs, names, n), values_html(runs, runs.len(), names[k])),
    decreases n,
{
    let rest = rows_html(runs, names, (n - 1) as nat);
    let last = values_html(runs, runs.len(), names[n - 1]);
    let part = values_html(runs, runs.len(), names[k]);
    if k == n - 1 {
        parts_occur(rest, part, "</tr>\n"@);
    } else {
        metric_rows_occur(runs, names, (n - 1) as nat, k);
        beginnings_occur(rest, last, part);
        beginnings_occur(rest + last, "</tr>\n"@, part);
    }
}

/// The table of several runs shows, in the row of each metric, the value that each of the runs gave
/// last; of one run only its own metrics are shown, and where there is nothing there is no table.
pub proof fn metrics_are_shown_for_every_run(
    shown: Seq<MetricRecord>,
    runs: Seq<HostMetrics>,
    r: int,
    i: int,
)
    ensures
        table_html(shown, runs) is None <==> runs.len() == 0 || runs.len() == 1 && shown.len() == 0,
        runs.len() > 1 && 0 <= r < runs.len() && 0 <= i < runs[r].metrics@.len() && (forall|j: int|
            i < j < runs[r].metrics@.len() ==> (#[trigger] runs[r].metrics@[j]).name@
                != runs[r].metrics@[i].name@) ==> {
            let row = values_html(runs, runs.len(), runs[r].metrics@[i].name@);
            &&& occurs(table_html(shown, runs)->0, row)
            &&& occurs(row, "<td>"@ + runs[r].metrics@[i].value@ + "</td>"@)
        },
{
    if runs.len() > 1 && 0 <= r < runs.len() && 0 <= i < runs[r].metrics@.len() && (forall|j: int|
        i < j < runs[r].metrics@.len() ==> (#[trigger] runs[r].metrics@[j]).name@
            != runs[r].metrics@[i].name@) {
        let metrics = runs[r].metrics@;
        let name = metrics[i].name@;
        the_last_value_counts(metrics, metrics.len(), name, i);
        values_occur(runs, runs.len(), name, r);
        metrics_have_one_row_each(runs, runs.len());
        let names = all_names(runs, runs.len());
        assert(names.contains(runs[r].metrics@[i].name@));
        let k = choose|k: int| 0 <= k < names.len() && names[k] == name;
        metric_rows_occur(runs, names, names.len(), k);
        let head = hosts_html(runs, runs.len()) + "</tr>\n"@;
        let rows = rows_html(runs, names, names.len());
        let none = Seq::<char>::empty();
        parts_of_parts_occur(head, rows, none, values_html(runs, runs.len(), name));
        assert(head + rows + none =~= head + rows);
    }
}

/// A cpu has a name of its own exactly if its vendor, family and model are those of one that is
/// known; every other is named by the three.
pub proof fn only_known_cpus_have_names(vendor: Seq<char>, family: Seq<char>, model: Seq<char>)
    ensures
        cpu_name(vendor, family, model) == "aarch64 A53"@ <==> vendor == "Arm Limited"@ && family
            == "8"@ && model == "0xd03"@,
        cpu_name(vendor, family, model) == "x86_64 Skylake"@ <==> vendor == "GenuineIntel"@
            && family == "6"@ && model == "85"@,
        cpu_name(vendor, family, model) == "x86_64 Matisse"@ <==> vendor == "AuthenticAMD"@
            && family == "23"@ && model == "113"@,
        "unknown "@.is_prefix_of(cpu_name(vendor, family, model)) ==> cpu_name(
            vendor,
            family,
            model,
        ) == "unknown "@ + vendor + ":"@ + family + ":"@ + model,
{
    reveal_strlit("aarch64 A53");
    reveal_strlit("x86_64 Skylake");
    reveal_strlit("x86_64 Matisse");
    reveal_strlit("unknown ");
    reveal_strlit("Arm Limited");
    reveal_strlit("GenuineIntel");
    reveal_strlit("AuthenticAMD");
    assert("Arm Limited"@[1] == 'r' && "GenuineIntel"@[1] == 'e' && "AuthenticAMD"@[1] == 'u');
    assert("aarch64 A53"@[0] == 'a' && "x86_64 Skylake"@[7] == 'S' && "x86_64 Matisse"@[7] == 'M');
    assert("x86_64 Skylake"@[0] == 'x' && "x86_64 Matisse"@[0] == 'x');
    let unknown = "unknown "@ + vendor + ":"@ + family + ":"@ + model;
    assert(unknown[0] == 'u');
    let shown = cpu_name(vendor, family, model);
    if "unknown "@.is_prefix_of(shown) {
        assert(shown[0] == shown.take(8)[0]);
        assert("unknown "@[0] == 'u');
    }
}

} // verus!
