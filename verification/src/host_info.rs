//! What a runner finds out about the machine it runs on.

use crate::protocol::CpuInfo;
use crate::protocol::EnvInfo;
use crate::protocol::HostInfo;
use crate::protocol::MemoryInfo;
use crate::text::after_last;
use crate::text::char_vec;
use crate::text::parse_number;
use crate::text::parse_u64;
use crate::text::pieces;
use crate::text::same;
use crate::text::split;
use crate::text::starts_with;
use crate::text::text_after_last;
use crate::text::trim;
use crate::text::trimmed;
use crate::text::utf8_text;
use crate::text::views;
use vstd::prelude::*;

verus! {

/// The lines of a text.
pub fn lines_of(text: &str) -> (r: Vec<String>)
    ensures
        views(r@) == split(text@, '\n'),
{
    pieces(text, '\n')
}

/// What a line says after its last colon.
pub open spec fn line_value(line: Seq<char>) -> Seq<char> {
    trim(after_last(line, ':'))
}

fn value_in_line(line: &str) -> (r: String)
    ensures
        r@ == line_value(line@),
{
    let value = text_after_last(line, ':');
    trimmed(value.as_str())
}

/// What the first line from number `i` on that begins with `prefix` says, where there is one.
pub open spec fn value_from(lines: Seq<Seq<char>>, i: int, prefix: Seq<char>) -> Option<Seq<char>>
    decreases lines.len() - i,
{
    if i < 0 || i >= lines.len() {
        None
    } else if prefix.is_prefix_of(lines[i]) {
        Some(line_value(lines[i]))
    } else {
        value_from(lines, i + 1, prefix)
    }
}

/// What the first line that begins with `prefix` says, where there is one.
pub fn try_find_line(lines: &Vec<String>, prefix: &str) -> (r: Option<String>)
    ensures
        match r {
            Some(value) => value_from(views(lines@), 0, prefix@) == Some(value@),
            None => value_from(views(lines@), 0, prefix@) is None,
        },
{
    let mut i: usize = 0;
    while i < lines.len()
        invariant
            i <= lines@.len(),
            value_from(views(lines@), 0, prefix@) == value_from(
                views(lines@),
                i as int,
                prefix@,
            ),
        decreases lines@.len() - i,
    {
        assert(views(lines@)[i as int] == lines@[i as int]@);
        if starts_with(lines[i].as_str(), prefix) {
            return Some(value_in_line(lines[i].as_str()));
        }
        i = i + 1;
    }
    None
}

/// How many of the first `n` lines begin with `prefix`.
pub open spec fn count_lines(lines: Seq<Seq<char>>, n: nat, prefix: Seq<char>) -> nat
    decreases n,
{
    if n == 0 {
        0
    } else if prefix.is_prefix_of(lines[n - 1]) {
        count_lines(lines, (n - 1) as nat, prefix) + 1
    } else {
        count_lines(lines, (n - 1) as nat, prefix)
    }
}

fn count_prefix(lines: &Vec<String>, prefix: &str) -> (r: usize)
    ensures
        r == count_lines(views(lines@), lines@.len(), prefix@),
{
    let mut count: usize = 0;
    let mut i: usize = 0;
    while i < lines.len()
        invariant
            i <= lines@.len(),
            count <= i,
            count == count_lines(views(lines@), i as nat, prefix@),
        decreases lines@.len() - i,
    {
        assert(views(lines@)[i as int] == lines@[i as int]@);
        if starts_with(lines[i].as_str(), prefix) {
            count = count + 1;
        }
        i = i + 1;
    }
    count
}

/// The index of the line number `k` of those from number `i` on that begin with `prefix`.
pub open spec fn nth_line(lines: Seq<Seq<char>>, i: int, prefix: Seq<char>, k: nat) -> Option<int>
    decreases lines.len() - i,
{
    if i < 0 || i >= lines.len() {
        None
    } else if prefix.is_prefix_of(lines[i]) {
        if k == 0 {
            Some(i)
        } else {
            nth_line(lines, i + 1, prefix, (k - 1) as nat)
        }
    } else {
        nth_line(lines, i + 1, prefix, k)
    }
}

/// The frequency in MHz that the lines give for a cpu, as text: what stands between the first colon
/// of its line and the next, where its line has a colon.
pub open spec fn mhz_text(lines: Seq<Seq<char>>, cpu: nat) -> Option<Seq<char>> {
    match nth_line(lines, 0, "cpu MHz"@, cpu) {
        Some(i) => {
            let parts = split(lines[i], ':');
            if parts.len() > 1 {
                Some(trim(parts[1]))
            } else {
                None
            }
        },
        None => None,
    }
}

/// The frequency in MHz that the lines give for a cpu, as text.
pub fn cpu_mhz(lines: &Vec<String>, cpu: u32) -> (r: Option<String>)
    ensures
        match r {
            Some(mhz) => mhz_text(views(lines@), cpu as nat) == Some(mhz@),
            None => mhz_text(views(lines@), cpu as nat) is None,
        },
{
    let mut left: u32 = cpu;
    let mut i: usize = 0;
    while i < lines.len()
        invariant
            i <= lines@.len(),
            nth_line(views(lines@), 0, "cpu MHz"@, cpu as nat) == nth_line(
                views(lines@),
                i as int,
                "cpu MHz"@,
                left as nat,
            ),
        decreases lines@.len() - i,
    {
        assert(views(lines@)[i as int] == lines@[i as int]@);
        if starts_with(lines[i].as_str(), "cpu MHz") {
            if left == 0 {
                let parts = pieces(lines[i].as_str(), ':');
                assert(views(parts@).len() == parts@.len());
                if parts.len() > 1 {
                    assert(views(parts@)[1] == parts@[1]@);
                    return Some(trimmed(parts[1].as_str()));
                }
                return None;
            }
            left = left - 1;
        }
        i = i + 1;
    }
    None
}

/// The highest frequency in kHz, where the text of the file that gives it is a number.
pub fn cpu_max_freq(text: &str) -> (r: Option<u64>)
    ensures
        r == parse_number(trim(text@)),
{
    let number = trimmed(text);
    parse_u64(number.as_str())
}

/// Who made an aarch64 cpu, by the number that it gives.
pub open spec fn aarch64_vendor(id: Seq<char>) -> Seq<char> {
    if id == "0x41"@ {
        "Arm Limited"@
    } else if id == "0x42"@ {
        "Broadcom Corporation"@
    } else if id == "0x43"@ {
        "Cavium Inc"@
    } else if id == "0x44"@ {
        "Digital Equipment Corporation"@
    } else if id == "0x46"@ {
        "Fujitsu Ltd"@
    } else if id == "0x49"@ {
        "Infineon Technologies AG"@
    } else if id == "0x4d"@ {
        "Motorola"@
    } else if id == "0x4e"@ {
        "NVIDIA Corporation"@
    } else if id == "0x50"@ {
        "Applied Micro Circuits Corporation"@
    } else if id == "0x51"@ {
        "Qualcomm Inc"@
    } else if id == "0x56"@ {
        "Marvell International Ltd"@
    } else if id == "0x69"@ {
        "Intel Corporation"@
    } else if id == "0xc0"@ {
        "Ampere Computing"@
    } else {
        "unknown aarch64 vendor "@ + id
    }
}

/// Who made an aarch64 cpu, by the number that it gives.
pub fn vendor_name(id: &str) -> (r: String)
    ensures
        r@ == aarch64_vendor(id@),
{
    if same(id, "0x41") {
        "Arm Limited".to_owned()
    } else if same(id, "0x42") {
        "Broadcom Corporation".to_owned()
    } else if same(id, "0x43") {
        "Cavium Inc".to_owned()
    } else if same(id, "0x44") {
        "Digital Equipment Corporation".to_owned()
    } else if same(id, "0x46") {
        "Fujitsu Ltd".to_owned()
    } else if same(id, "0x49") {
        "Infineon Technologies AG".to_owned()
    } else if same(id, "0x4d") {
        "Motorola".to_owned()
    } else if same(id, "0x4e") {
        "NVIDIA Corporation".to_owned()
    } else if same(id, "0x50") {
        "Applied Micro Circuits Corporation".to_owned()
    } else if same(id, "0x51") {
        "Qualcomm Inc".to_owned()
    } else if same(id, "0x56") {
        "Marvell International Ltd".to_owned()
    } else if same(id, "0x69") {
        "Intel Corporation".to_owned()
    } else if same(id, "0xc0") {
        "Ampere Computing".to_owned()
    } else {
        "unknown aarch64 vendor ".to_owned().concat(id)
    }
}

/// A device tree's list of what a machine is compatible with, with semicolons between its entries.
pub open spec fn listed_models(text: Seq<char>) -> Seq<char> {
    Seq::new(
        text.len(),
        |i: int|
            if text[i] == '\0' {
                ';'
            } else {
                text[i]
            },
    )
}

/// The name of an aarch64 machine.
pub open spec fn machine_name(set: Option<String>, device_tree: Option<String>) -> Seq<char> {
    match (set, device_tree) {
        (Some(name), _) => name@,
        (None, Some(text)) => listed_models(text@),
        (None, None) => "unknown"@,
    }
}

/// A name that was set for a machine counts before what its device tree says, of which only the
/// zeros are changed.
pub proof fn set_names_count_first(set: Option<String>, device_tree: Option<String>, i: int)
    ensures
        set matches Some(name) ==> machine_name(set, device_tree) == name@,
        set is None ==> (device_tree matches Some(text) ==> {
            &&& machine_name(set, device_tree).len() == text@.len()
            &&& 0 <= i < text@.len() ==> machine_name(set, device_tree)[i] == (if text@[i]
                == '\0' {
                ';'
            } else {
                text@[i]
            })
        }),
        set is None && device_tree is None ==> machine_name(set, device_tree) == "unknown"@,
{
}

/// The name of an aarch64 machine: the one that was set for it, the one that its device tree gives,
/// or `unknown`.
pub fn model_name(set: Option<String>, device_tree: Option<String>) -> (r: String)
    ensures
        r@ == machine_name(set, device_tree),
{
    match set {
        Some(name) => name,
        None => match device_tree {
            Some(text) => {
                let chars = char_vec(text.as_str());
                let mut out = String::new();
                let mut i: usize = 0;
                proof {
                    reveal_strlit(";");
                    assert(";"@ =~= seq![';']);
                }
                while i < chars.len()
                    invariant
                        i <= chars@.len(),
                        chars@ == text@,
                        ";"@ == seq![';'],
                        out@ =~= listed_models(text@).take(i as int),
                    decreases chars@.len() - i,
                {
                    if chars[i] == '\0' {
                        out.append(";");
                    } else {
                        out.append(text.as_str().substring_char(i, i + 1));
                        assert(text@.subrange(i as int, i + 1) =~= seq![text@[i as int]]);
                    }
                    i = i + 1;
                }
                out
            },
            None => "unknown".to_owned(),
        },
    }
}

/// What an x86 machine's lines say of its cpu.
pub open spec fn x86_cpu(lines: Seq<Seq<char>>, max_freq: u64, cpu: CpuInfo) -> bool {
    &&& value_from(lines, 0, "model name"@) == Some(cpu.model_name@)
    &&& value_from(lines, 0, "vendor_id"@) == Some(cpu.vendor_id@)
    &&& value_from(lines, 0, "cpu family"@) == Some(cpu.family@)
    &&& value_from(lines, 0, "model\t"@) == Some(cpu.model@)
    &&& value_from(lines, 0, "microcode"@) == Some(cpu.microcode@)
    &&& cpu.cores == count_lines(lines, lines.len(), "model name"@) as u32
    &&& cpu.max_freq == max_freq
}

/// The lines say all that is asked of an x86 cpu.
pub open spec fn x86_complete(lines: Seq<Seq<char>>) -> bool {
    &&& value_from(lines, 0, "model name"@) is Some
    &&& value_from(lines, 0, "vendor_id"@) is Some
    &&& value_from(lines, 0, "cpu family"@) is Some
    &&& value_from(lines, 0, "model\t"@) is Some
    &&& value_from(lines, 0, "microcode"@) is Some
}

/// The cpu of an x86 machine, where its lines say all that is asked.
pub fn x86_cpu_info(lines: &Vec<String>, max_freq: u64) -> (r: Option<CpuInfo>)
    ensures
        match r {
            Some(cpu) => x86_cpu(views(lines@), max_freq, cpu),
            None => !x86_complete(views(lines@)),
        },
{
    let cores: u32 = count_prefix(lines, "model name") as u32;
    let model_name: String = try_find_line(lines, "model name")?;
    let vendor_id: String = try_find_line(lines, "vendor_id")?;
    let family: String = try_find_line(lines, "cpu family")?;
    let model: String = try_find_line(lines, "model\t")?;
    let microcode: String = try_find_line(lines, "microcode")?;
    assert(views(lines@).len() == lines@.len());
    Some(CpuInfo { model_name, microcode, cores, vendor_id, family, model, max_freq })
}

/// What an aarch64 machine's lines say of its cpu.
pub open spec fn aarch64_cpu(
    lines: Seq<Seq<char>>,
    model_name: Seq<char>,
    max_freq: u64,
    cpu: CpuInfo,
) -> bool {
    &&& cpu.model_name@ == model_name
    &&& value_from(lines, 0, "CPU implementer"@) matches Some(id) && cpu.vendor_id@
        == aarch64_vendor(id)
    &&& value_from(lines, 0, "CPU architecture"@) == Some(cpu.family@)
    &&& value_from(lines, 0, "CPU part"@) == Some(cpu.model@)
    &&& cpu.microcode@ == Seq::<char>::empty()
    &&& cpu.cores == count_lines(lines, lines.len(), "processor"@) as u32
    &&& cpu.max_freq == max_freq
}

/// The lines say all that is asked of an aarch64 cpu.
pub open spec fn aarch64_complete(lines: Seq<Seq<char>>) -> bool {
    &&& value_from(lines, 0, "CPU implementer"@) is Some
    &&& value_from(lines, 0, "CPU architecture"@) is Some
    &&& value_from(lines, 0, "CPU part"@) is Some
}

/// The cpu of an aarch64 machine, where its lines say all that is asked.
pub fn aarch64_cpu_info(lines: &Vec<String>, model_name: String, max_freq: u64) -> (r: Option<
    CpuInfo,
>)
    ensures
        match r {
            Some(cpu) => aarch64_cpu(views(lines@), model_name@, max_freq, cpu),
            None => !aarch64_complete(views(lines@)),
        },
{
    let cores: u32 = count_prefix(lines, "processor") as u32;
    let id: String = try_find_line(lines, "CPU implementer")?;
    let vendor_id = vendor_name(id.as_str());
    let family: String = try_find_line(lines, "CPU architecture")?;
    let model: String = try_find_line(lines, "CPU part")?;
    assert(views(lines@).len() == lines@.len());
    Some(
        CpuInfo {
            model_name,
            microcode: String::new(),
            cores,
            vendor_id,
            family,
            model,
            max_freq,
        },
    )
}

/// How the cpu of a machine is found out.
#[derive(Debug, Clone, Copy, PartialEq, Eq, Structural)]
pub enum CpuFamily {
    X86,
    Aarch64,
}

/// How the cpu of a machine is found out, by the machine's architecture, where that is known.
pub fn cpu_family(arch: &str) -> (r: Option<CpuFamily>)
    ensures
        r == (if arch@ == "x86"@ || arch@ == "x86_64"@ {
            Some(CpuFamily::X86)
        } else if arch@ == "aarch64"@ {
            Some(CpuFamily::Aarch64)
        } else {
            None
        }),
{
    if same(arch, "x86") || same(arch, "x86_64") {
        Some(CpuFamily::X86)
    } else if same(arch, "aarch64") {
        Some(CpuFamily::Aarch64)
    } else {
        None
    }
}

/// What was read to find out about a cpu.
pub struct CpuSources {
    /// `/proc/cpuinfo`.
    pub cpuinfo: String,
    /// The highest frequency in kHz.
    pub max_freq: u64,
    /// The name that was set for the machine.
    pub set_model: Option<String>,
    /// What the device tree says the machine is compatible with.
    pub device_tree: Option<String>,
}

/// The model, microcode and number of cores of a cpu, and more, where what was read says all that
/// is asked of a cpu of its family.
pub fn collect_cpu_info(family: CpuFamily, sources: CpuSources) -> (r: Option<CpuInfo>)
    ensures
        ({
            let lines = split(sources.cpuinfo@, '\n');
            match family {
                CpuFamily::X86 => match r {
                    Some(cpu) => x86_cpu(lines, sources.max_freq, cpu),
                    None => !x86_complete(lines),
                },
                CpuFamily::Aarch64 => match r {
                    Some(cpu) => aarch64_cpu(
                        lines,
                        machine_name(sources.set_model, sources.device_tree),
                        sources.max_freq,
                        cpu,
                    ),
                    None => !aarch64_complete(lines),
                },
            }
        }),
{
    let lines = lines_of(sources.cpuinfo.as_str());
    match family {
        CpuFamily::X86 => x86_cpu_info(&lines, sources.max_freq),
        CpuFamily::Aarch64 => {
            let name = model_name(sources.set_model, sources.device_tree);
            aarch64_cpu_info(&lines, name, sources.max_freq)
        },
    }
}

/// How much memory a machine has and can use, by the lines of `/proc/meminfo`.
pub open spec fn is_memory(lines: Seq<Seq<char>>, memory: MemoryInfo) -> bool {
    &&& memory.total@ == line_value(lines[0])
    &&& memory.available@ == line_value(lines[2])
}

/// How much memory a machine has and can use, by the first and the third line of `/proc/meminfo`.
pub fn collect_mem_info(meminfo: &str) -> (r: Option<MemoryInfo>)
    ensures
        match r {
            Some(memory) => split(meminfo@, '\n').len() >= 3 && is_memory(
                split(meminfo@, '\n'),
                memory,
            ),
            None => split(meminfo@, '\n').len() < 3,
        },
{
    let lines = lines_of(meminfo);
    assert(views(lines@).len() == lines@.len());
    if lines.len() < 3 {
        return None;
    }
    assert(views(lines@)[0] == lines@[0]@);
    assert(views(lines@)[2] == lines@[2]@);
    let total = value_in_line(lines[0].as_str());
    let available = value_in_line(lines[2].as_str());
    Some(MemoryInfo { total, available })
}

/// Byte `n` is the first that is zero.
pub open spec fn first_zero(bytes: Seq<u8>, n: int) -> bool {
    &&& 0 <= n < bytes.len()
    &&& bytes[n] == 0
    &&& forall|i: int| 0 <= i < n ==> bytes[i] != 0
}

/// The bytes give the machine's name: it is the text before the first zero.
pub open spec fn names_host(bytes: Seq<u8>, name: Seq<char>) -> bool {
    exists|n: int|
        {
            &&& #[trigger] first_zero(bytes, n)
            &&& vstd::utf8::valid_utf8(bytes.take(n))
            &&& name == vstd::utf8::decode_utf8(bytes.take(n))
        }
}

/// The machine's name is the text before the first zero, whatever comes after it.
pub proof fn names_end_at_the_first_zero(
    text: Seq<u8>,
    rest: Seq<u8>,
    other_rest: Seq<u8>,
    name: Seq<char>,
)
    requires
        forall|i: int| 0 <= i < text.len() ==> text[i] != 0,
    ensures
        names_host(text + seq![0u8] + rest, name) <==> vstd::utf8::valid_utf8(text) && name
            == vstd::utf8::decode_utf8(text),
        names_host(text + seq![0u8] + rest, name) == names_host(
            text + seq![0u8] + other_rest,
            name,
        ),
{
    first_zero_is_known(text, rest, name);
    first_zero_is_known(text, other_rest, name);
}

proof fn first_zero_is_known(text: Seq<u8>, rest: Seq<u8>, name: Seq<char>)
    requires
        forall|i: int| 0 <= i < text.len() ==> text[i] != 0,
    ensures
        names_host(text + seq![0u8] + rest, name) <==> vstd::utf8::valid_utf8(text) && name
            == vstd::utf8::decode_utf8(text),
{
    let bytes = text + seq![0u8] + rest;
    let n = text.len() as int;
    assert(bytes.take(n) =~= text);
    assert(first_zero(bytes, n));
    if names_host(bytes, name) {
        let m = choose|m: int|
            {
                &&& #[trigger] first_zero(bytes, m)
                &&& vstd::utf8::valid_utf8(bytes.take(m))
                &&& name == vstd::utf8::decode_utf8(bytes.take(m))
            };
        assert(m == n);
    }
}

/// The machine's name, by the bytes that the system gives for it: the text before the first zero,
/// where there is one and the bytes before it are UTF-8.
pub fn hostname(bytes: &[u8]) -> (r: Option<String>)
    ensures
        match r {
            Some(name) => names_host(bytes@, name@),
            None => forall|n: int| #[trigger]
                first_zero(bytes@, n) ==> !vstd::utf8::valid_utf8(bytes@.take(n)),
        },
{
    let mut name: Vec<u8> = Vec::new();
    let mut i: usize = 0;
    while i < bytes.len()
        invariant
            i <= bytes@.len(),
            name@ =~= bytes@.take(i as int),
            forall|j: int| 0 <= j < i ==> bytes@[j] != 0,
        decreases bytes@.len() - i,
    {
        if bytes[i] == 0 {
            assert(first_zero(bytes@, i as int));
            return utf8_text(name.as_slice());
        }
        name.push(bytes[i]);
        i = i + 1;
    }
    None
}

/// What a runner was built for.
pub fn collect_env_info(arch: &str, family: &str, os: &str) -> (r: EnvInfo)
    ensures
        r.arch@ == arch@,
        r.family@ == family@,
        r.os@ == os@,
{
    EnvInfo { arch: arch.to_owned(), family: family.to_owned(), os: os.to_owned() }
}

/// All that a runner says of its machine.
pub fn collect_host_info(
    hostname: String,
    cpu_info: CpuInfo,
    memory_info: MemoryInfo,
    env_info: EnvInfo,
) -> (r: HostInfo)
    ensures
        r == (HostInfo { hostname, cpu_info, memory_info, env_info }),
{
    HostInfo { hostname, cpu_info, memory_info, env_info }
}

/// What the lines say under a prefix is what the first line that begins with it says after its last
/// colon, without the space around it; and nothing exactly if no line begins with it.
pub proof fn the_first_line_counts(
    lines: Seq<Seq<char>>,
    from: int,
    prefix: Seq<char>,
    k: int,
)
    requires
        0 <= from <= lines.len(),
    ensures
        from <= k < lines.len() && prefix.is_prefix_of(lines[k]) && (forall|i: int|
            from <= i < k ==> !prefix.is_prefix_of(#[trigger] lines[i])) ==> value_from(
            lines,
            from,
            prefix,
        ) == Some(trim(after_last(lines[k], ':'))),
        value_from(lines, from, prefix) is None <==> forall|i: int|
            from <= i < lines.len() ==> !prefix.is_prefix_of(#[trigger] lines[i]),
    decreases lines.len() - from,
{
    if from < lines.len() {
        the_first_line_counts(lines, from + 1, prefix, k);
        if prefix.is_prefix_of(lines[from]) {
            assert(!(forall|i: int|
                from <= i < lines.len() ==> !prefix.is_prefix_of(#[trigger] lines[i])));
        }
    }
}

/// The cores of a machine are counted by its lines: as many as begin with the prefix.
pub proof fn lines_are_counted(lines: Seq<Seq<char>>, n: nat, prefix: Seq<char>)
    requires
        n <= lines.len(),
    ensures
        count_lines(lines, n, prefix) == lines.take(n as int).filter(
            |line: Seq<char>| prefix.is_prefix_of(line),
        ).len(),
    decreases n,
{
    reveal(Seq::filter);
    if n > 0 {
        lines_are_counted(lines, (n - 1) as nat, prefix);
        assert(lines.take(n as int).drop_last() =~= lines.take(n - 1));
        assert(lines.take(n as int).last() == lines[n - 1]);
    }
}

/// What is said of an x86 cpu is what its machine's lines say under the names that the kernel gives
/// these things, each in its own place, and its cores are as many as there are names of models.
pub proof fn x86_cpus_are_as_their_lines_say(lines: Seq<Seq<char>>, max_freq: u64, cpu: CpuInfo)
    requires
        x86_cpu(lines, max_freq, cpu),
    ensures
        says(lines, "model name"@, cpu.model_name@),
        says(lines, "vendor_id"@, cpu.vendor_id@),
        says(lines, "cpu family"@, cpu.family@),
        says(lines, "model\t"@, cpu.model@),
        says(lines, "microcode"@, cpu.microcode@),
        cpu.max_freq == max_freq,
        cpu.cores == lines.filter(|line: Seq<char>| "model name"@.is_prefix_of(line)).len() as u32,
{
    lines_are_counted(lines, lines.len(), "model name"@);
    assert(lines.take(lines.len() as int) =~= lines);
    said_once(lines, "model name"@);
    said_once(lines, "vendor_id"@);
    said_once(lines, "cpu family"@);
    said_once(lines, "model\t"@);
    said_once(lines, "microcode"@);
}

/// What is said of an aarch64 cpu is what its machine's lines say, with the name of its maker in
/// place of the maker's number, and its cores are as many as there are processors.
pub proof fn aarch64_cpus_are_as_their_lines_say(
    lines: Seq<Seq<char>>,
    model_name: Seq<char>,
    max_freq: u64,
    cpu: CpuInfo,
)
    requires
        aarch64_cpu(lines, model_name, max_freq, cpu),
    ensures
        exists|id: Seq<char>|
            says(lines, "CPU implementer"@, id) && cpu.vendor_id@ == #[trigger] aarch64_vendor(id),
        says(lines, "CPU architecture"@, cpu.family@),
        says(lines, "CPU part"@, cpu.model@),
        cpu.model_name@ == model_name,
        cpu.microcode@.len() == 0,
        cpu.max_freq == max_freq,
        cpu.cores == lines.filter(|line: Seq<char>| "processor"@.is_prefix_of(line)).len() as u32,
{
    lines_are_counted(lines, lines.len(), "processor"@);
    assert(lines.take(lines.len() as int) =~= lines);
    said_once(lines, "CPU implementer"@);
    said_once(lines, "CPU architecture"@);
    said_once(lines, "CPU part"@);
    let id = value_from(lines, 0, "CPU implementer"@)->0;
    assert(cpu.vendor_id@ == aarch64_vendor(id));
}

/// The first of the lines that begins with the prefix says the value after its last colon.
pub open spec fn says(lines: Seq<Seq<char>>, prefix: Seq<char>, value: Seq<char>) -> bool {
    exists|k: int|
        {
            &&& 0 <= k < lines.len()
            &&& prefix.is_prefix_of(#[trigger] lines[k])
            &&& forall|i: int| 0 <= i < k ==> !prefix.is_prefix_of(#[trigger] lines[i])
            &&& value == trim(after_last(lines[k], ':'))
        }
}

proof fn said_once(lines: Seq<Seq<char>>, prefix: Seq<char>)
    ensures
        value_from(lines, 0, prefix) matches Some(value) ==> says(lines, prefix, value),
{
    said_from(lines, 0, prefix);
}

proof fn said_from(lines: Seq<Seq<char>>, from: int, prefix: Seq<char>)
    requires
        0 <= from <= lines.len(),
        forall|i: int| 0 <= i < from ==> !prefix.is_prefix_of(#[trigger] lines[i]),
    ensures
        value_from(lines, from, prefix) matches Some(value) ==> says(lines, prefix, value),
    decreases lines.len() - from,
{
    if from < lines.len() {
        if prefix.is_prefix_of(lines[from]) {
            assert(says(lines, prefix, trim(after_last(lines[from], ':'))));
        } else {
            said_from(lines, from + 1, prefix);
        }
    }
}

/// A machine's whole memory is what the first line says, and what it can use what the third says.
pub proof fn memory_is_as_the_lines_say(lines: Seq<Seq<char>>, memory: MemoryInfo)
    requires
        is_memory(lines, memory),
    ensures
        memory.total@ == trim(after_last(lines[0], ':')),
        memory.available@ == trim(after_last(lines[2], ':')),
{
}

/// Every maker has a name of its own, so two cpus are said to be of one maker only if they give the
/// same number.
pub proof fn makers_are_told_apart(id: Seq<char>, other: Seq<char>)
    requires
        aarch64_vendor(id) == aarch64_vendor(other),
    ensures
        id == other,
{
    reveal_strlit("Arm Limited");
    reveal_strlit("Broadcom Corporation");
    reveal_strlit("Cavium Inc");
    reveal_strlit("Digital Equipment Corporation");
    reveal_strlit("Fujitsu Ltd");
    reveal_strlit("Infineon Technologies AG");
    reveal_strlit("Motorola");
    reveal_strlit("NVIDIA Corporation");
    reveal_strlit("Applied Micro Circuits Corporation");
    reveal_strlit("Qualcomm Inc");
    reveal_strlit("Marvell International Ltd");
    reveal_strlit("Intel Corporation");
    reveal_strlit("Ampere Computing");
    reveal_strlit("unknown aarch64 vendor ");
    assert("Arm Limited"@.len() == 11 && "Broadcom Corporation"@.len() == 20);
    assert("Cavium Inc"@.len() == 10 && "Digital Equipment Corporation"@.len() == 29);
    assert("Fujitsu Ltd"@.len() == 11 && "Infineon Technologies AG"@.len() == 24);
    assert("Motorola"@.len() == 8 && "NVIDIA Corporation"@.len() == 18);
    assert("Applied Micro Circuits Corporation"@.len() == 34 && "Qualcomm Inc"@.len() == 12);
    assert("Marvell International Ltd"@.len() == 25 && "Intel Corporation"@.len() == 17);
    assert("Ampere Computing"@.len() == 16);
    assert("Arm Limited"@[0] == 'A' && "Fujitsu Ltd"@[0] == 'F');
    assert("Broadcom Corporation"@[0] == 'B' && "Cavium Inc"@[0] == 'C');
    assert("Digital Equipment Corporation"@[0] == 'D' && "Infineon Technologies AG"@[0] == 'I');
    assert("Motorola"@[0] == 'M' && "NVIDIA Corporation"@[0] == 'N');
    assert("Applied Micro Circuits Corporation"@[0] == 'A' && "Qualcomm Inc"@[0] == 'Q');
    assert("Marvell International Ltd"@[0] == 'M' && "Intel Corporation"@[0] == 'I');
    assert("Ampere Computing"@[0] == 'A');
    let unknown = "unknown aarch64 vendor "@;
    assert((unknown + id)[0] == 'u' && (unknown + other)[0] == 'u');
    assert(id =~= (unknown + id).skip(unknown.len() as int));
    assert(other =~= (unknown + other).skip(unknown.len() as int));
}

} // verus!
