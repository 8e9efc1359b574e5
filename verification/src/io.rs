//! Moving data: sinks, artifacts and streams.

use crate::text::decimal;
use crate::text::decimal_is_injective;
use crate::text::decimal_reads_back;
use crate::text::decimal_text;
use crate::text::is_digit;
use vstd::prelude::*;

verus! {

/// How many bytes are read at once.
pub const FORWARD_BYTES: usize = 1024 * 1024;

/// What is done with a sink: bytes are written to it, or what it holds is taken.
pub enum SinkOp {
    Write(Seq<u8>),
    Take(Seq<u8>),
}

/// A sink that holds `before` holds `after` after the operation: what is written comes at the end,
/// and what is taken is all that it holds.
pub open spec fn sink_moves(before: Seq<u8>, op: SinkOp, after: Seq<u8>) -> bool {
    match op {
        SinkOp::Write(bytes) => after == before + bytes,
        SinkOp::Take(bytes) => bytes == before && after == Seq::<u8>::empty(),
    }
}

/// An operation on one of several handles of a sink, by the handle's number. The handles share what
/// the sink holds.
pub struct SharedOp {
    pub handle: nat,
    pub op: SinkOp,
}

/// A sink that is shared holds `bodies[i]` before operation `i` and `bodies[i + 1]` after it,
/// whichever handle the operation was on.
pub open spec fn shared_sink(ops: Seq<SharedOp>, bodies: Seq<Seq<u8>>) -> bool {
    &&& bodies.len() == ops.len() + 1
    &&& bodies[0] == Seq::<u8>::empty()
    &&& forall|i: int|
        0 <= i < ops.len() ==> sink_moves(bodies[i], (#[trigger] ops[i]).op, bodies[i + 1])
}

/// The bytes of the writes among the operations from number `from` to number `to`, in order.
pub open spec fn bytes_written(ops: Seq<SharedOp>, from: int, to: int) -> Seq<u8>
    decreases to - from,
{
    if to <= from {
        Seq::empty()
    } else {
        match ops[to - 1].op {
            SinkOp::Write(bytes) => bytes_written(ops, from, to - 1) + bytes,
            SinkOp::Take(_) => bytes_written(ops, from, to - 1),
        }
    }
}

proof fn writes_add_up(ops: Seq<SharedOp>, bodies: Seq<Seq<u8>>, from: int, to: int)
    requires
        shared_sink(ops, bodies),
        0 <= from <= to <= ops.len(),
        bodies[from] == Seq::<u8>::empty(),
        forall|i: int| from <= i < to ==> (#[trigger] ops[i]).op is Write,
    ensures
        bodies[to] == bytes_written(ops, from, to),
    decreases to - from,
{
    if from < to {
        writes_add_up(ops, bodies, from, to - 1);
        assert(ops[to - 1].op is Write);
    }
}

/// What is taken from a shared sink is what was written to it since it was last empty, through any of
/// its handles, in the order in which it was written. If it is taken from again at once, nothing
/// comes.
pub proof fn handles_fill_one_sink(
    ops: Seq<SharedOp>,
    bodies: Seq<Seq<u8>>,
    from: int,
    k: int,
    taken: Seq<u8>,
)
    requires
        shared_sink(ops, bodies),
        0 <= from <= k < ops.len(),
        from == 0 || ops[from - 1].op is Take,
        forall|i: int| from <= i < k ==> (#[trigger] ops[i]).op is Write,
        ops[k].op == SinkOp::Take(taken),
    ensures
        taken == bytes_written(ops, from, k),
        bodies[k + 1] == Seq::<u8>::empty(),
        k + 1 < ops.len() ==> (ops[k + 1].op matches SinkOp::Take(again) ==> again == Seq::<
            u8,
        >::empty()),
{
    if from > 0 {
        assert(sink_moves(bodies[from - 1], ops[from - 1].op, bodies[from]));
    }
    writes_add_up(ops, bodies, from, k);
}

/// A place that collects what is written to it.
pub struct VecSink {
    pub body: Vec<u8>,
}

impl VecSink {
    pub fn new() -> (r: Self)
        ensures
            r.body@ == Seq::<u8>::empty(),
    {
        VecSink { body: Vec::new() }
    }

    /// Adds the bytes at the end, and gives their number.
    pub fn write(&mut self, buf: &[u8]) -> (r: usize)
        ensures
            sink_moves(old(self).body@, SinkOp::Write(buf@), final(self).body@),
            r == buf@.len(),
    {
        let mut i: usize = 0;
        assert(buf@.take(0) =~= Seq::<u8>::empty());
        while i < buf.len()
            invariant
                i <= buf@.len(),
                self.body@ =~= old(self).body@ + buf@.take(i as int),
            decreases buf@.len() - i,
        {
            self.body.push(buf[i]);
            i = i + 1;
        }
        assert(buf@.take(buf@.len() as int) == buf@);
        buf.len()
    }

    /// What was written since the last call, which leaves the sink empty.
    pub fn take_buf(&mut self) -> (r: Vec<u8>)
        ensures
            sink_moves(old(self).body@, SinkOp::Take(r@), final(self).body@),
    {
        let mut taken: Vec<u8> = Vec::new();
        std::mem::swap(&mut taken, &mut self.body);
        taken
    }
}

/// The file of an artifact of a job.
pub open spec fn artifact_file_name(job_id: u64, artifact_id: u64) -> Seq<char> {
    "artifacts/"@ + decimal(job_id as nat) + "/"@ + decimal(artifact_id as nat)
}

proof fn digits_have_no_slash(n: nat)
    ensures
        !decimal(n).contains('/'),
{
    decimal_reads_back(n);
    if decimal(n).contains('/') {
        let k = choose|k: int| 0 <= k < decimal(n).len() && decimal(n)[k] == '/';
        assert(is_digit(decimal(n)[k]));
    }
}

/// No two artifacts share a file.
pub proof fn artifacts_have_their_own_files(job: u64, artifact: u64, job2: u64, artifact2: u64)
    requires
        artifact_file_name(job, artifact) == artifact_file_name(job2, artifact2),
    ensures
        job == job2,
        artifact == artifact2,
{
    reveal_strlit("artifacts/");
    reveal_strlit("/");
    let name = artifact_file_name(job, artifact);
    let a = decimal(job as nat);
    let b = decimal(job2 as nat);
    digits_have_no_slash(job as nat);
    digits_have_no_slash(job2 as nat);
    assert(name[10 + a.len() as int] == '/');
    assert(artifact_file_name(job2, artifact2)[10 + b.len() as int] == '/');
    if a.len() < b.len() {
        assert(name[10 + a.len() as int] == b[a.len() as int]);
        assert(b.contains(b[a.len() as int]));
    }
    if b.len() < a.len() {
        assert(name[10 + b.len() as int] == a[b.len() as int]);
        assert(a.contains(a[b.len() as int]));
    }
    assert(a =~= b) by {
        assert forall|i: int| 0 <= i < a.len() implies a[i] == b[i] by {
            assert(name[10 + i] == a[i]);
            assert(artifact_file_name(job2, artifact2)[10 + i] == b[i]);
        }
    }
    let tail = name.skip(11 + a.len() as int);
    assert(tail =~= decimal(artifact as nat));
    assert(tail =~= decimal(artifact2 as nat));
    decimal_is_injective(job as nat, job2 as nat);
    decimal_is_injective(artifact as nat, artifact2 as nat);
}

/// An artifact whose data is to be stored.
pub struct ArtifactDescriptor {
    pub job_id: u64,
    pub artifact_id: u64,
    pub path: String,
}

impl ArtifactDescriptor {
    pub fn new(job_id: u64, artifact_id: u64) -> (r: Self)
        ensures
            r.job_id == job_id,
            r.artifact_id == artifact_id,
            r.path@ == artifact_file_name(job_id, artifact_id),
    {
        let job = decimal_text(job_id);
        let artifact = decimal_text(artifact_id);
        let path = "artifacts/".to_owned().concat(job.as_str()).concat("/").concat(
            artifact.as_str(),
        );
        ArtifactDescriptor { job_id, artifact_id, path }
    }

    /// What is said where the artifact's file cannot be made, for the given reason.
    pub fn open_error(&self, reason: &str) -> (r: String)
        ensures
            r@ == "couldn't open artifact file "@ + self.path@ + ": "@ + reason@,
    {
        "couldn't open artifact file ".to_owned().concat(self.path.as_str()).concat(": ").concat(
            reason,
        )
    }
}

/// What happened while data was moved. A failure comes with what is known of it.
pub enum MoveEvent {
    /// So many bytes were read; none at the end.
    Read(usize),
    ReadFailed(String),
    Written,
    WriteFailed(String),
}

/// What is done next to move data.
pub enum MoveAction {
    Read,
    /// The first so many of the bytes that were read are written.
    Write(usize),
    Stop(Result<(), String>),
}

/// The action follows the event: all that was read is written before more is read, until there is
/// no more or something fails.
pub open spec fn forwards(event: MoveEvent, action: MoveAction) -> bool {
    match event {
        MoveEvent::Read(n) => if n == 0 {
            action == MoveAction::Stop(Ok(()))
        } else {
            action == MoveAction::Write(n)
        },
        MoveEvent::ReadFailed(reason) => action matches MoveAction::Stop(Err(message))
            && message@ == "failed to read: "@ + reason@,
        MoveEvent::Written => action is Read,
        MoveEvent::WriteFailed(reason) => action matches MoveAction::Stop(Err(message))
            && message@ == "failed to write: "@ + reason@,
    }
}

/// What is done next to forward data from one place to another.
pub fn forward_data(event: MoveEvent) -> (r: MoveAction)
    ensures
        forwards(event, r),
{
    match event {
        MoveEvent::Read(n) => if n == 0 {
            MoveAction::Stop(Ok(()))
        } else {
            MoveAction::Write(n)
        },
        MoveEvent::ReadFailed(reason) => MoveAction::Stop(
            Err("failed to read: ".to_owned().concat(reason.as_str())),
        ),
        MoveEvent::Written => MoveAction::Read,
        MoveEvent::WriteFailed(reason) => MoveAction::Stop(
            Err("failed to write: ".to_owned().concat(reason.as_str())),
        ),
    }
}

/// What the first `n` actions write, each of what was read just before it.
pub open spec fn written(reads: Seq<Seq<u8>>, actions: Seq<MoveAction>, n: nat) -> Seq<u8>
    decreases n,
{
    if n == 0 {
        Seq::empty()
    } else {
        let before = written(reads, actions, (n - 1) as nat);
        match actions[n - 1] {
            MoveAction::Write(k) => before + reads[n - 1].take(k as int),
            _ => before,
        }
    }
}

/// The bytes of the first `n` of a row of reads.
pub open spec fn all_bytes(reads: Seq<Seq<u8>>, n: nat) -> Seq<u8>
    decreases n,
{
    if n == 0 {
        Seq::empty()
    } else {
        all_bytes(reads, (n - 1) as nat) + reads[n - 1]
    }
}

/// What is written is what was read, in order and without loss.
pub proof fn nothing_is_lost(reads: Seq<Seq<u8>>, actions: Seq<MoveAction>, n: nat)
    requires
        n <= reads.len(),
        n <= actions.len(),
        forall|i: int| 0 <= i < n ==> (#[trigger] reads[i]).len() <= usize::MAX,
        forall|i: int|
            0 <= i < n ==> forwards(
                MoveEvent::Read((#[trigger] reads[i]).len() as usize),
                actions[i],
            ),
    ensures
        written(reads, actions, n) == all_bytes(reads, n),
    decreases n,
{
    if n > 0 {
        nothing_is_lost(reads, actions, (n - 1) as nat);
        let read = reads[n - 1];
        assert(forwards(MoveEvent::Read(read.len() as usize), actions[n - 1]));
        if read.len() == 0 {
            assert(all_bytes(reads, n) =~= all_bytes(reads, (n - 1) as nat));
        } else {
            assert(read.take(read.len() as int) == read);
        }
    }
}

/// What happened while a request's body was stored. A failure comes with what is known of it.
pub enum StoreEvent {
    Chunk,
    ReadFailed(String),
    Ended,
    Written,
    WriteFailed(String),
}

/// What is done next to store a request's body.
pub enum StoreAction {
    Read,
    /// The chunk that was read is written.
    Write,
    Stop(Result<(), String>),
}

/// What follows while a request's body is stored.
pub open spec fn stores(event: StoreEvent, action: StoreAction) -> bool {
    match event {
        StoreEvent::Chunk => action is Write,
        StoreEvent::ReadFailed(reason) => action matches StoreAction::Stop(Err(message))
            && message@ == "error reading: "@ + reason@,
        StoreEvent::Ended => action == StoreAction::Stop(Ok(())),
        StoreEvent::Written => action is Read,
        StoreEvent::WriteFailed(reason) => action matches StoreAction::Stop(Err(message))
            && message@ == "failed to write: "@ + reason@,
    }
}

/// Every chunk that is read is written, and more is read only after that; the storing ends well
/// exactly at the end of the body, and badly exactly where reading or writing fails, with the reason.
pub proof fn bodies_are_stored_whole(event: StoreEvent, action: StoreAction)
    requires
        stores(event, action),
    ensures
        action is Write <==> event is Chunk,
        action is Read <==> event is Written,
        (action matches StoreAction::Stop(Ok(_))) <==> event is Ended,
        (action matches StoreAction::Stop(Err(_))) <==> event is ReadFailed || event is WriteFailed,
        action matches StoreAction::Stop(Err(message)) ==> (event matches StoreEvent::ReadFailed(
            reason,
        ) ==> reason@.is_suffix_of(message@)),
        action matches StoreAction::Stop(Err(message)) ==> (event matches StoreEvent::WriteFailed(
            reason,
        ) ==> reason@.is_suffix_of(message@)),
{
    if let StoreAction::Stop(Err(message)) = action {
        if let StoreEvent::ReadFailed(reason) = event {
            assert(reason@ =~= message@.subrange(
                message@.len() - reason@.len(),
                message@.len() as int,
            ));
        }
        if let StoreEvent::WriteFailed(reason) = event {
            assert(reason@ =~= message@.subrange(
                message@.len() - reason@.len(),
                message@.len() as int,
            ));
        }
    }
}

/// What is done next to store a request's body.
pub fn store_all(event: StoreEvent) -> (r: StoreAction)
    ensures
        stores(event, r),
{
    match event {
        StoreEvent::Chunk => StoreAction::Write,
        StoreEvent::ReadFailed(reason) => StoreAction::Stop(
            Err("error reading: ".to_owned().concat(reason.as_str())),
        ),
        StoreEvent::Ended => StoreAction::Stop(Ok(())),
        StoreEvent::Written => StoreAction::Read,
        StoreEvent::WriteFailed(reason) => StoreAction::Stop(
            Err("failed to write: ".to_owned().concat(reason.as_str())),
        ),
    }
}

/// Data is forwarded until there is no more, which is a good end, or until reading or writing fails,
/// which is a bad one; what was read is written before more is read.
pub proof fn forwarding_ends_as_it_should(event: MoveEvent, action: MoveAction)
    requires
        forwards(event, action),
    ensures
        (action matches MoveAction::Stop(Ok(_))) <==> event == MoveEvent::Read(0),
        (action matches MoveAction::Stop(Err(_))) <==> event is ReadFailed || event is WriteFailed,
        action matches MoveAction::Write(n) ==> event == MoveEvent::Read(n) && n > 0,
        action is Read <==> event is Written,
{
}

} // verus!
