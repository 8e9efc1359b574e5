use build_o_tron::goodfile::{
    artifact_plan, command_words, explicit_error, run_params, run_request, sized_file, LuaArg,
    LuaKind, LuaTable, RunFault,
};
use build_o_tron::host_info::{
    collect_cpu_info, collect_env_info, collect_host_info, collect_mem_info, cpu_family,
    cpu_max_freq, cpu_mhz, hostname, lines_of, model_name, try_find_line, vendor_name, CpuFamily,
    CpuSources,
};
use build_o_tron::io::{
    forward_data, store_all, ArtifactDescriptor, MoveAction, MoveEvent, StoreAction, StoreEvent,
    VecSink,
};
use build_o_tron::protocol::{ClientProto, CommandInfo, RequestedJob, TaskInfo};
use build_o_tron::runner::{
    check_hello, clone_plan, command_outcome, command_started, create_artifact, local_artifact,
    local_job, local_repo, metric_sent, output_artifact, poll_message, poll_request, prep_command, run_remote,
    runs_locally, wait_for_work, CloneStage, CloneStep, CommandOutcome, ExitInfo, GoodfilePlace,
    HelloError, JobAction, JobEvent, PollAction, PollEvent, RepoError, RunnerConfig, StepTracker,
    WaitAction, WaitEvent, WorkAcquireError,
};

fn text(s: &str) -> LuaArg {
    LuaArg { kind: LuaKind::Text(s.to_owned()), shown: format!("String({:?})", s) }
}

fn other(shown: &str) -> LuaArg {
    LuaArg { kind: LuaKind::Other, shown: shown.to_owned() }
}

fn bad_text() -> LuaArg {
    LuaArg { kind: LuaKind::BadText, shown: "String(?)".to_owned() }
}

fn table(items: Vec<LuaArg>, fields: Vec<(&str, LuaArg)>) -> LuaArg {
    let fields = fields.into_iter().map(|(name, arg)| (name.to_owned(), arg)).collect();
    LuaArg { kind: LuaKind::Table(LuaTable { items, fields }), shown: "Table".to_owned() }
}

fn message(fault: RunFault) -> String {
    match fault {
        RunFault::Message(message) => message,
        _ => panic!("no message"),
    }
}

fn words(list: &[&str]) -> Vec<String> {
    list.iter().map(|word| word.to_string()).collect()
}

fn requested() -> RequestedJob {
    RequestedJob {
        commit: "abc".to_owned(),
        remote_url: "https://x/y.git".to_owned(),
        build_token: "t".to_owned(),
    }
}

#[test]
fn commands_are_lists_of_texts() {
    let command = table(vec![text("cargo"), text("test")], vec![]);
    assert_eq!(command_words(&command).ok().unwrap(), words(&["cargo", "test"]));
    assert_eq!(command_words(&table(vec![], vec![])).ok().unwrap(), words(&[]));
    assert_eq!(
        message(command_words(&other("Integer(1)")).err().unwrap()),
        "argument 1 was not a table: Integer(1)"
    );
    let command = table(vec![text("cargo"), other("Nil"), bad_text()], vec![]);
    assert_eq!(
        message(command_words(&command).err().unwrap()),
        "argument 1 was not a string, was Nil"
    );
    let command = table(vec![bad_text(), other("Nil")], vec![]);
    assert!(matches!(command_words(&command), Err(RunFault::ItemNotUtf8(0))));
}

#[test]
fn parameters_are_texts_or_nothing() {
    let nil = LuaArg { kind: LuaKind::Nil, shown: "Nil".to_owned() };
    let params = table(vec![], vec![("step", text("build")), ("name", nil)]);
    let params = run_params(&params).ok().unwrap();
    assert_eq!(params.step, Some("build".to_owned()));
    assert_eq!((params.name, params.cwd), (None, None));
    assert_eq!(
        message(run_params(&text("x")).err().unwrap()),
        "argument 2 was not a table: String(\"x\")"
    );
    for name in ["step", "name", "cwd"] {
        let params = table(vec![], vec![(name, other("Integer(1)"))]);
        assert_eq!(
            message(run_params(&params).err().unwrap()),
            format!("params[\"{}\"] must be a string", name)
        );
        let params = table(vec![], vec![(name, bad_text())]);
        assert!(matches!(run_params(&params), Err(RunFault::ParamNotUtf8(n)) if n == name));
    }
}

#[test]
fn a_bad_command_counts_before_bad_parameters() {
    let (list, params) = run_request(
        &table(vec![text("ls")], vec![]),
        &table(vec![], vec![("cwd", text("sub"))]),
    )
    .ok()
    .unwrap();
    assert_eq!(list, words(&["ls"]));
    assert_eq!(params.cwd, Some("sub".to_owned()));
    assert_eq!(
        message(run_request(&other("A"), &other("B")).err().unwrap()),
        "argument 1 was not a table: A"
    );
    assert_eq!(
        message(run_request(&table(vec![], vec![]), &other("B")).err().unwrap()),
        "argument 2 was not a table: B"
    );
}

#[test]
fn artifacts_are_named_after_their_files() {
    let plan = artifact_plan("target/out.bin", None).unwrap();
    assert_eq!(plan.name, "out.bin");
    assert_eq!(plan.desc, "out.bin (from target/out.bin)");
    assert_eq!(plan.source, "tmpdir/target/out.bin");
    let plan = artifact_plan("target/out.bin", Some("the binary".to_owned())).unwrap();
    assert_eq!(plan.desc, "the binary (from target/out.bin)");
    assert_eq!(artifact_plan("target/..", None).unwrap().name, "target");
    assert_eq!(
        artifact_plan("/", Some("root".to_owned())).err().unwrap(),
        "cannot infer a default path name for /"
    );
    assert_eq!(explicit_error("no"), "explicit error: no");
    assert_eq!(sized_file("a"), "tmpdir/a");
}

#[test]
fn sinks_give_back_what_was_written() {
    let mut sink = VecSink::new();
    assert_eq!(sink.write(b"ab"), 2);
    assert_eq!(sink.write(b""), 0);
    assert_eq!(sink.write(b"c"), 1);
    assert_eq!(sink.take_buf(), b"abc");
    assert_eq!(sink.take_buf(), b"");
}

#[test]
fn handles_of_a_sink_share_what_it_holds() {
    let first = std::sync::Arc::new(std::sync::Mutex::new(VecSink::new()));
    let second = std::sync::Arc::clone(&first);
    assert_eq!(first.lock().unwrap().write(b"ab"), 2);
    assert_eq!(second.lock().unwrap().write(b"cd"), 2);
    assert_eq!(first.lock().unwrap().write(b"e"), 1);
    assert_eq!(first.lock().unwrap().take_buf(), b"abcde");
    assert_eq!(second.lock().unwrap().take_buf(), b"");
    assert_eq!(second.lock().unwrap().write(b"f"), 1);
    assert_eq!(first.lock().unwrap().take_buf(), b"f");
}

#[test]
fn data_is_forwarded_to_its_end() {
    let source = b"some data in pieces".to_vec();
    let mut sink = VecSink::new();
    let mut at = 0;
    let mut event = MoveEvent::Written;
    loop {
        match forward_data(event) {
            MoveAction::Read => {
                let n = std::cmp::min(4, source.len() - at);
                event = MoveEvent::Read(n);
            },
            MoveAction::Write(n) => {
                sink.write(&source[at..at + n]);
                at += n;
                event = MoveEvent::Written;
            },
            MoveAction::Stop(result) => {
                assert_eq!(result, Ok(()));
                break;
            },
        }
    }
    assert_eq!(sink.take_buf(), source);
    let error = |event: MoveEvent| match forward_data(event) {
        MoveAction::Stop(result) => result.unwrap_err(),
        _ => panic!("no end"),
    };
    assert_eq!(error(MoveEvent::ReadFailed("x".to_owned())), "failed to read: x");
    assert_eq!(error(MoveEvent::WriteFailed("x".to_owned())), "failed to write: x");
}

#[test]
fn bodies_are_stored_to_their_end() {
    assert!(matches!(store_all(StoreEvent::Chunk), StoreAction::Write));
    assert!(matches!(store_all(StoreEvent::Written), StoreAction::Read));
    assert!(matches!(store_all(StoreEvent::Ended), StoreAction::Stop(Ok(()))));
    let error = |event: StoreEvent| match store_all(event) {
        StoreAction::Stop(result) => result.unwrap_err(),
        _ => panic!("no end"),
    };
    assert_eq!(error(StoreEvent::ReadFailed("x".to_owned())), "error reading: x");
    assert_eq!(error(StoreEvent::WriteFailed("x".to_owned())), "failed to write: x");
    let descriptor = ArtifactDescriptor::new(3, 14);
    assert_eq!(descriptor.path, "artifacts/3/14");
    assert_eq!(descriptor.open_error("gone"), "couldn't open artifact file artifacts/3/14: gone");
}

#[test]
fn steps_nest() {
    let mut steps = StepTracker::new();
    steps.push("a".to_owned());
    steps.push("b".to_owned());
    assert_eq!(steps.full_step_path(), ["a", "b"]);
    steps.pop();
    assert_eq!(steps.full_step_path(), ["a"]);
    steps.pop();
    steps.pop();
    assert!(steps.full_step_path().is_empty());
    steps.push("c".to_owned());
    steps.clear();
    assert!(steps.full_step_path().is_empty());
}

#[test]
fn commits_are_fetched_with_git() {
    let job = requested().into_running();
    let plan = clone_plan(&job.job);
    assert_eq!(plan.program, "git");
    assert_eq!(plan.args, words(&["clone", "https://x/y.git", "tmpdir"]));
    assert_eq!(plan.cwd, None);
    assert_eq!(plan.name, "git clone log");
    assert_eq!(plan.desc, "git clone https://x/y.git tmpdir");
    let good = ExitInfo { success: true, code: Some(0) };
    match job.clone_remote(CloneStage::Cloning, Some(good)) {
        CloneStep::Run(plan) => {
            assert_eq!(plan.args, words(&["checkout", "abc"]));
            assert_eq!(plan.cwd, Some("tmpdir".to_owned()));
            assert_eq!(plan.desc, "git checkout abc");
        },
        CloneStep::Done(_) => panic!("done"),
    }
    let done = |stage: CloneStage, exit: Option<ExitInfo>| match job.clone_remote(stage, exit) {
        CloneStep::Done(result) => result,
        CloneStep::Run(_) => panic!("run"),
    };
    let bad = ExitInfo { success: false, code: Some(1) };
    let fatal = ExitInfo { success: false, code: Some(128) };
    assert_eq!(done(CloneStage::CheckingOut, Some(good)), Ok(()));
    assert_eq!(
        done(CloneStage::Cloning, Some(bad)),
        Err(RepoError::CloneFailedIdk { exit_code: bad })
    );
    assert_eq!(
        done(CloneStage::Cloning, None),
        Err(RepoError::CloneFailedIdk { exit_code: good })
    );
    assert_eq!(
        done(CloneStage::CheckingOut, Some(fatal)),
        Err(RepoError::CheckoutFailedIdk { exit_code: fatal })
    );
    assert_eq!(
        done(CloneStage::CheckingOut, Some(bad)),
        Err(RepoError::CheckoutFailedMissingRef)
    );
    assert_eq!(
        done(CloneStage::CheckingOut, None),
        Err(RepoError::CheckoutFailedIdk { exit_code: good })
    );
}

#[test]
fn commands_are_run_in_the_checkout() {
    let plan = prep_command(&words(&["cargo", "test", "-v"]), Some("sub"));
    assert_eq!(plan.program, "cargo");
    assert_eq!(plan.args, words(&["test", "-v"]));
    assert_eq!(plan.cwd, Some("tmpdir/sub".to_owned()));
    assert_eq!((plan.name.as_str(), plan.desc.as_str()), ("cargo test -v log", "cargo test -v"));
    assert_eq!(prep_command(&words(&["ls"]), None).cwd, Some("tmpdir".to_owned()));
    assert_eq!(
        output_artifact("ls log", "ls", true),
        ("ls log (stderr)".to_owned(), "ls (stderr)".to_owned())
    );
    assert_eq!(output_artifact("a", "b", false).1, "b (stdout)");
    match command_started(&words(&["ls", "-l"]), Some("sub")) {
        CommandInfo::Started { command, cwd, id } => {
            assert_eq!(command, words(&["ls", "-l"]));
            assert_eq!((cwd, id), (Some("sub".to_owned()), 1));
        },
        _ => panic!("not started"),
    }
}

#[test]
fn commands_pass_or_fail() {
    let exit = |success: bool, code: i32| Ok(ExitInfo { success, code: Some(code) });
    let list = words(&["ls", "-l"]);
    assert!(matches!(
        command_outcome(&list, exit(true, 0)),
        CommandOutcome::Passed(CommandInfo::Finished { exit_code: Some(0), id: 1 })
    ));
    match command_outcome(&list, exit(false, 2)) {
        CommandOutcome::Failed(CommandInfo::Finished { exit_code, id }, name) => {
            assert_eq!((exit_code, id, name.as_str()), (Some(2), 1, "ls -l"));
        },
        _ => panic!("did not fail"),
    }
    assert!(matches!(
        command_outcome(&list, Err("x".to_owned())),
        CommandOutcome::NotRun(e) if e == "x"
    ));
}

#[test]
fn a_job_that_builds_passes() {
    let mut job = requested().into_running();
    assert!(matches!(job.run(JobEvent::StartReported), JobAction::Fetch));
    assert!(matches!(job.run(JobEvent::Fetched(Ok(()))), JobAction::LookForGoodfile));
    assert!(matches!(job.run(JobEvent::LookedUp(GoodfilePlace::Found)), JobAction::RunGoodfile));
    match job.run(JobEvent::Built(Ok(()))) {
        JobAction::ReportStatus(TaskInfo::Finished { status }) => assert_eq!(status, "pass"),
        _ => panic!("not finished"),
    }
    assert!(matches!(job.run(JobEvent::StatusReported), JobAction::End));
    assert!(matches!(job.run(JobEvent::StatusReported), JobAction::Nothing));
}

#[test]
fn a_job_that_does_not_build_fails() {
    let interrupted = |action: JobAction| match action {
        JobAction::ReportStatus(TaskInfo::Interrupted { status, description }) => {
            (status, description.unwrap())
        },
        _ => panic!("not interrupted"),
    };
    let mut job = requested().into_running();
    job.run(JobEvent::StartReported);
    match job.run(JobEvent::Fetched(Err(RepoError::CheckoutFailedMissingRef))) {
        JobAction::ReportStatus(TaskInfo::Finished { status }) => assert_eq!(status, "bad_ref"),
        _ => panic!("not finished"),
    }
    let mut job = requested().into_running();
    job.run(JobEvent::StartReported);
    job.run(JobEvent::Fetched(Ok(())));
    assert!(matches!(
        job.run(JobEvent::LookedUp(GoodfilePlace::Missing)),
        JobAction::RunDefaultGoodfile
    ));
    assert_eq!(
        interrupted(job.run(JobEvent::Built(Err("boom".to_owned())))),
        ("failed".to_owned(), "boom".to_owned())
    );
    let mut job = requested().into_running();
    job.run(JobEvent::StartReported);
    job.run(JobEvent::Fetched(Ok(())));
    assert_eq!(
        interrupted(job.run(JobEvent::LookedUp(GoodfilePlace::Inaccessible))),
        ("failed".to_owned(), "inaccessible goodfile".to_owned())
    );
}

#[test]
fn servers_greet_runners() {
    assert_eq!(check_hello(200, Some(b"hello")), Ok(()));
    assert_eq!(check_hello(200, Some(b"hello!")), Err(HelloError::BadHello));
    assert_eq!(check_hello(200, Some(b"hellp")), Err(HelloError::BadHello));
    assert_eq!(check_hello(200, None), Err(HelloError::BadHello));
    assert_eq!(check_hello(418, Some(b"hello")), Err(HelloError::BadResponse));
}

#[test]
fn runners_wait_for_tasks() {
    let task = wait_for_work(WaitEvent::Message(ClientProto::NewTask(requested())));
    assert!(matches!(task, WaitAction::Done(Ok(Some(job))) if job.commit == "abc"));
    assert!(matches!(
        wait_for_work(WaitEvent::Message(ClientProto::Ping)),
        WaitAction::SendPong
    ));
    assert!(matches!(wait_for_work(WaitEvent::Ponged), WaitAction::Wait));
    assert!(matches!(wait_for_work(WaitEvent::Closed), WaitAction::Done(Ok(None))));
    assert!(matches!(
        wait_for_work(WaitEvent::Message(ClientProto::Pong)),
        WaitAction::Done(Err(WorkAcquireError::Unexpected(ClientProto::Pong)))
    ));
    assert!(matches!(
        wait_for_work(WaitEvent::PongFailed("x".to_owned())),
        WaitAction::Done(Err(WorkAcquireError::Protocol(e))) if e == "failed to pong: x"
    ));
    assert!(matches!(
        wait_for_work(WaitEvent::Failed("x".to_owned())),
        WaitAction::Done(Err(WorkAcquireError::Protocol(e))) if e == "x"
    ));
}

#[test]
fn runners_ask_again_after_a_while() {
    let wait = |event: PollEvent| match run_remote(event) {
        PollAction::AskAfter(ms) => ms,
        PollAction::RunJob(_) => panic!("a job"),
    };
    assert_eq!(wait(PollEvent::NotSent("x: tcp connect error: y".to_owned())), 5000);
    assert_eq!(wait(PollEvent::NotSent("timeout".to_owned())), 1000);
    assert_eq!(wait(PollEvent::NoHello), 10000);
    assert_eq!(wait(PollEvent::NoJob), 10000);
    assert_eq!(wait(PollEvent::Idle), 2000);
    assert_eq!(wait(PollEvent::JobOver), 10000);
    assert!(matches!(run_remote(PollEvent::Job(requested())), PollAction::RunJob(_)));
}

#[test]
fn runners_name_themselves_to_the_server() {
    let config = RunnerConfig {
        server_address: "x".to_owned(),
        auth_secret: " secret\n".to_owned(),
        allowed_pushers: None,
    };
    let request = poll_request(&config);
    assert_eq!(request.url, "https://ci.butactuallyin.space:9876/api/next_job");
    assert_eq!(request.user_agent, "ci-butactuallyin-space-runner");
    assert_eq!(request.authorization, "secret");
    let request = create_artifact("n", "d", "t");
    assert_eq!(request.url, "https://ci.butactuallyin.space:9876/api/artifact");
    assert_eq!(request.headers[1], ("x-task-token".to_owned(), "t".to_owned()));
    assert_eq!(request.headers[2], ("x-artifact-name".to_owned(), "n".to_owned()));
    assert_eq!(request.headers[3], ("x-artifact-desc".to_owned(), "d".to_owned()));
}

#[test]
fn goodfiles_are_run_here() {
    assert!(runs_locally("./repo/goodfile"));
    assert!(!runs_locally("./runner_config.json"));
    assert_eq!(
        local_repo("repo/goodfile"),
        Some(("repo".to_owned(), "repo/.git".to_owned()))
    );
    assert_eq!(local_repo("/"), None);
    let job = local_job("repo".to_owned(), "abc\n");
    assert_eq!((job.commit.as_str(), job.remote_url.as_str()), ("abc", "repo"));
    assert_eq!(job.build_token, "n/a");
    assert_eq!(local_artifact("x (stdout)"), "ci_working_dir/x (stdout)");
}

const CPUINFO: &str = "processor\t: 0\nvendor_id\t: GenuineIntel\ncpu family\t: 6\nmodel\t\t: 85\n\
    model name\t: Xeon: the best \nmicrocode\t: 0x2\ncpu MHz\t\t: 2400.5\n\n\
    processor\t: 1\nmodel name\t: Xeon\ncpu MHz\t\t: 1200.0\n";

fn sources(cpuinfo: &str) -> CpuSources {
    CpuSources {
        cpuinfo: cpuinfo.to_owned(),
        max_freq: 3700000,
        set_model: None,
        device_tree: Some("a,b\0c\0".to_owned()),
    }
}

#[test]
fn x86_machines_are_described() {
    let cpu = collect_cpu_info(CpuFamily::X86, sources(CPUINFO)).unwrap();
    assert_eq!(cpu.model_name, "the best");
    assert_eq!((cpu.vendor_id.as_str(), cpu.family.as_str()), ("GenuineIntel", "6"));
    assert_eq!((cpu.model.as_str(), cpu.microcode.as_str()), ("85", "0x2"));
    assert_eq!((cpu.cores, cpu.max_freq), (2, 3700000));
    let incomplete = CPUINFO.replace("microcode", "macrocode");
    assert!(collect_cpu_info(CpuFamily::X86, sources(&incomplete)).is_none());
    assert_eq!(cpu_family("x86_64"), Some(CpuFamily::X86));
    assert_eq!(cpu_family("x86"), Some(CpuFamily::X86));
    assert_eq!(cpu_family("aarch64"), Some(CpuFamily::Aarch64));
    assert_eq!(cpu_family("riscv64"), None);
}

#[test]
fn aarch64_machines_are_described() {
    let cpuinfo = "processor\t: 0\nCPU implementer\t: 0x41\nCPU architecture: 8\nCPU part\t: 0xd03\n";
    let cpu = collect_cpu_info(CpuFamily::Aarch64, sources(cpuinfo)).unwrap();
    assert_eq!(cpu.model_name, "a,b;c;");
    assert_eq!((cpu.vendor_id.as_str(), cpu.family.as_str()), ("Arm Limited", "8"));
    assert_eq!((cpu.model.as_str(), cpu.microcode.as_str()), ("0xd03", ""));
    assert_eq!(cpu.cores, 1);
    assert!(collect_cpu_info(CpuFamily::Aarch64, sources("")).is_none());
    assert_eq!(model_name(Some("set".to_owned()), Some("tree".to_owned())), "set");
    assert_eq!(model_name(None, None), "unknown");
}

#[test]
fn aarch64_vendors_have_names() {
    let names = [
        ("0x42", "Broadcom Corporation"),
        ("0x43", "Cavium Inc"),
        ("0x44", "Digital Equipment Corporation"),
        ("0x46", "Fujitsu Ltd"),
        ("0x49", "Infineon Technologies AG"),
        ("0x4d", "Motorola"),
        ("0x4e", "NVIDIA Corporation"),
        ("0x50", "Applied Micro Circuits Corporation"),
        ("0x51", "Qualcomm Inc"),
        ("0x56", "Marvell International Ltd"),
        ("0x69", "Intel Corporation"),
        ("0xc0", "Ampere Computing"),
        ("0x00", "unknown aarch64 vendor 0x00"),
    ];
    for (id, name) in names {
        assert_eq!(vendor_name(id), name);
    }
}

#[test]
fn frequencies_are_found() {
    let lines = lines_of(CPUINFO);
    assert_eq!(cpu_mhz(&lines, 0), Some("2400.5".to_owned()));
    assert_eq!(cpu_mhz(&lines, 1), Some("1200.0".to_owned()));
    assert_eq!(cpu_mhz(&lines, 2), None);
    assert_eq!(cpu_mhz(&lines_of("cpu MHz"), 0), None);
    assert_eq!(cpu_max_freq("3700000\n"), Some(3700000));
    assert_eq!(cpu_max_freq("fast"), None);
    assert_eq!(try_find_line(&lines, "model\t"), Some("85".to_owned()));
    assert_eq!(try_find_line(&lines, "bugs"), None);
}

#[test]
fn memory_and_names_are_found() {
    let memory = collect_mem_info("MemTotal:  16 kB\nMemFree: 1 kB\nMemAvailable: 8 kB\n").unwrap();
    assert_eq!((memory.total.as_str(), memory.available.as_str()), ("16 kB", "8 kB"));
    assert!(collect_mem_info("MemTotal: 16 kB\n").is_none());
    assert_eq!(hostname(b"box\0\0x"), Some("box".to_owned()));
    assert_eq!(hostname(b"\0"), Some(String::new()));
    assert_eq!(hostname(b"box"), None);
    assert_eq!(hostname(b"\xff\0"), None);
    let env = collect_env_info("x86_64", "unix", "linux");
    let cpu = collect_cpu_info(CpuFamily::X86, sources(CPUINFO)).unwrap();
    let host = collect_host_info("box".to_owned(), cpu, memory, env);
    assert_eq!((host.hostname.as_str(), host.env_info.os.as_str()), ("box", "linux"));
    match poll_message(Some(words(&["me@x"])), host) {
        ClientProto::NewTaskPlease { allowed_pushers, host_info } => {
            assert_eq!(allowed_pushers, Some(words(&["me@x"])));
            assert_eq!(host_info.cpu_info.cores, 2);
        },
        _ => panic!("another message"),
    }
}

#[test]
fn a_metric_that_is_not_sent_is_an_error() {
    assert_eq!(metric_sent("size", Ok(())), Ok(()));
    assert_eq!(
        metric_sent("size", Err("\"closed\"".to_owned())),
        Err("failed to send metric size: \"closed\")".to_owned())
    );
}
