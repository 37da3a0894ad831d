//! The pipeline coordinator: wires the reader and the writer to one bounded
//! channel and drives both to a terminal state.
//!
//! [`run_copy`] is the whole copy over an in-memory source, proved end to
//! end: the output equals the input, both statistics records account for
//! every byte and every block, and both task records end terminal.  The two
//! stages interact only through the channel: the reader runs ahead until the
//! channel refuses a send (backpressure), the writer drains in arrival
//! order until the sentinel, or until a sentinel-free disconnect tells it
//! the reader died.

use vstd::prelude::*;
use vstd::arithmetic::div_mod::{lemma_div_multiples_vanish_fancy, lemma_fundamental_div_mod};
use vstd::arithmetic::mul::{lemma_mul_is_commutative, lemma_mul_is_distributive_add};
use crate::channel::{BoundedChannel, RecvOutcome, SendOutcome};
use crate::errors::{DdError, IoError};
use crate::registry::DdContext;
use crate::source::MemSource;
use crate::stats::{ReadStatistics, WriteStatistics};
use crate::task::{worktime_derived, Task, TaskStatus};

verus! {

/// How many data blocks a copy of `len` bytes moves at block size `bs`:
/// the rounded-up quotient.
pub open spec fn blocks_of(len: nat, bs: nat) -> nat
    recommends
        bs >= 1,
{
    ((len + bs - 1) / (bs as int)) as nat
}

/// All payload bytes queued in a channel, oldest first.  The sentinel
/// contributes nothing.
pub open spec fn queued_bytes(s: Seq<Seq<u8>>) -> Seq<u8>
    decreases s.len(),
{
    if s.len() == 0 {
        Seq::empty()
    } else {
        s[0] + queued_bytes(s.drop_first())
    }
}

/// How many queued blocks carry data, that is, are not the sentinel.
pub open spec fn queued_data_blocks(s: Seq<Seq<u8>>) -> nat
    decreases s.len(),
{
    if s.len() == 0 {
        0
    } else {
        ((if s[0].len() > 0 {
            1nat
        } else {
            0nat
        }) + queued_data_blocks(s.drop_first())) as nat
    }
}

/// Whether the simulated read failure of `fail_at` fires at all during a
/// copy of `len` bytes: the reader makes read calls number `0` to
/// `blocks_of(len, bs)` (the last one reporting end of stream), so a later
/// call number never happens.
pub open spec fn failure_fires(fail_at: Option<u64>, len: nat, bs: nat) -> bool {
    fail_at matches Some(k) && k <= blocks_of(len, bs)
}

/// Bytes the reader has moved when its read call number `k` fails.
pub open spec fn bytes_before_failure(k: nat, len: nat, bs: nat) -> nat {
    vstd::math::min((k * bs) as int, len as int) as nat
}

/// Successful reads the reader has made when its read call number `k`
/// fails.
pub open spec fn reads_before_failure(k: nat, len: nat, bs: nat) -> nat {
    vstd::math::min(k as int, blocks_of(len, bs) as int) as nat
}

/// Appending a block to the queue appends its payload to the queued bytes
/// and accounts it as one more data block unless it is the sentinel.
proof fn lemma_queued_push(s: Seq<Seq<u8>>, x: Seq<u8>)
    ensures
        queued_bytes(s.push(x)) == queued_bytes(s) + x,
        queued_data_blocks(s.push(x)) == queued_data_blocks(s) + (if x.len() > 0 {
            1nat
        } else {
            0nat
        }),
    decreases s.len(),
{
    if s.len() == 0 {
        let p = s.push(x);
        assert(p[0] == x);
        assert(p.drop_first() =~= Seq::<Seq<u8>>::empty());
        assert(queued_bytes(p) == x + queued_bytes(p.drop_first()));
        assert(queued_bytes(p.drop_first()) == Seq::<u8>::empty());
        assert(x + Seq::<u8>::empty() =~= x);
        assert(queued_bytes(s) == Seq::<u8>::empty());
        assert(queued_bytes(s) + x =~= x);
        assert(queued_data_blocks(p) == (if x.len() > 0 {
            1nat
        } else {
            0nat
        }) + queued_data_blocks(p.drop_first()));
        assert(queued_data_blocks(s) == 0);
    } else {
        assert(s.push(x).drop_first() =~= s.drop_first().push(x));
        lemma_queued_push(s.drop_first(), x);
        assert(s.push(x)[0] == s[0]);
        assert(s[0] + (queued_bytes(s.drop_first()) + x) =~= (s[0] + queued_bytes(
            s.drop_first(),
        )) + x);
    }
}

/// Ceiling-division step: one more full-or-partial block of size `n` on top
/// of `reads` full blocks rounds up to `reads + 1` blocks.
proof fn lemma_blocks_of_step(reads: nat, bs: nat, n: nat, len: nat)
    requires
        bs >= 1,
        1 <= n <= bs,
        len == reads * bs + n,
    ensures
        blocks_of(len, bs) == reads + 1,
{
    let b = bs as int;
    let r = reads as int;
    lemma_mul_is_distributive_add(b, r, 1);
    lemma_mul_is_commutative(b, r);
    assert(len + bs - 1 == b * (r + 1) + (n - 1));
    lemma_div_multiples_vanish_fancy(r + 1, n as int - 1, b);
}

/// Ceiling division of an exact multiple: `reads` full blocks are
/// `reads` blocks.
proof fn lemma_blocks_of_exact(reads: nat, bs: nat, len: nat)
    requires
        bs >= 1,
        len == reads * bs,
    ensures
        blocks_of(len, bs) == reads,
{
    let b = bs as int;
    let r = reads as int;
    lemma_mul_is_commutative(b, r);
    assert(len + bs - 1 == b * r + (bs - 1));
    lemma_div_multiples_vanish_fancy(r, bs as int - 1, b);
}

/// The rounded-up block count covers the whole input.
proof fn lemma_blocks_of_cover(len: nat, bs: nat)
    requires
        bs >= 1,
    ensures
        blocks_of(len, bs) * bs >= len,
{
    let b = bs as int;
    let x = len + bs - 1;
    lemma_fundamental_div_mod(x, b);
    lemma_mul_is_commutative(b, x / b);
    assert(x % b < b) by {
        vstd::arithmetic::div_mod::lemma_mod_bound(x, b);
    }
}

/// Multiplying by a positive block size keeps order, backwards.
proof fn lemma_mul_cancel_le(a: nat, b: nat, m: nat)
    by (nonlinear_arith)
    requires
        m >= 1,
        a * m <= b * m,
    ensures
        a <= b,
{
}

/// What both stages have settled on once a pipeline run returns.
///
/// Without a simulated failure the copy is whole: the output equals the
/// input, both statistics records count every byte and every block, the
/// channel moved the data blocks plus one sentinel, and both tasks ended
/// `Completed` with code 0.  A zero-byte input moves exactly one block (the
/// sentinel) and writes nothing.
///
/// With a simulated failure at read call `k` the reader ends `Failed(-2)`
/// with one read error counted, the writer observes the sentinel-free
/// disconnect and ends `Failed(-1)`, and the output is exactly the prefix
/// the reader moved before dying.
///
/// Either way the sends never ran more than `capacity` blocks ahead of the
/// receives, and no registered task is left non-terminal.
pub open spec fn copy_postcondition(
    source: MemSource,
    bs: nat,
    capacity: nat,
    ctx: DdContext,
    r: CopyOutcome,
) -> bool {
    let len = source.data@.len();
    &&& ctx.unique_names()
    &&& ctx.tasks@.len() == 2
    &&& ctx.has_task("DataSource"@)
    &&& ctx.has_task("DataSink"@)
    &&& !ctx.any_non_terminal()
    &&& worktime_derived(ctx.task_of("DataSource"@))
    &&& worktime_derived(ctx.task_of("DataSink"@))
    &&& r.blocks_sent@ <= r.blocks_received@ + capacity
    &&& !failure_fires(source.fail_at, len, bs) ==> {
        &&& r.output@ == source.data@
        &&& ctx.read_statistics.total_bytes_read == len
        &&& ctx.read_statistics.total_reads == blocks_of(len, bs)
        &&& ctx.read_statistics.total_errors == 0
        &&& ctx.write_statistics.total_bytes_written == len
        &&& ctx.write_statistics.total_writes == blocks_of(len, bs)
        &&& ctx.write_statistics.total_errors == 0
        &&& ctx.task_of("DataSource"@).status matches TaskStatus::Completed(m) && m.code == 0
        &&& ctx.task_of("DataSink"@).status matches TaskStatus::Completed(m) && m.code == 0
        &&& r.blocks_sent@ == blocks_of(len, bs) + 1
        &&& r.blocks_received@ == blocks_of(len, bs) + 1
        &&& len == 0 ==> r.blocks_received@ == 1 && ctx.write_statistics.total_writes == 0
    }
    &&& source.fail_at matches Some(k) ==> k <= blocks_of(len, bs) ==> {
        &&& r.output@ == source.data@.take(bytes_before_failure(k as nat, len, bs) as int)
        &&& ctx.read_statistics.total_bytes_read == bytes_before_failure(k as nat, len, bs)
        &&& ctx.read_statistics.total_reads == reads_before_failure(k as nat, len, bs)
        &&& ctx.read_statistics.total_errors == 1
        &&& ctx.write_statistics.total_bytes_written == bytes_before_failure(k as nat, len, bs)
        &&& ctx.write_statistics.total_writes == reads_before_failure(k as nat, len, bs)
        &&& ctx.write_statistics.total_errors == 0
        &&& ctx.task_of("DataSource"@).status matches TaskStatus::Failed(m) && m.code == -2
        &&& ctx.task_of("DataSink"@).status matches TaskStatus::Failed(m) && m.code == -1
        &&& r.blocks_sent@ == reads_before_failure(k as nat, len, bs)
        &&& r.blocks_received@ == reads_before_failure(k as nat, len, bs)
    }
}

/// What a pipeline run hands back: the written output, plus the channel's
/// send and receive totals for the accounting stated in
/// [`copy_postcondition`].
pub struct CopyOutcome {
    pub output: Vec<u8>,
    pub blocks_sent: Ghost<nat>,
    pub blocks_received: Ghost<nat>,
}

/// Where each flag of the run stands while the two stages take turns.
struct Phase {
    reader_active: bool,
    sentinel_sent: bool,
    sentinel_received: bool,
    failed: bool,
    writer_done: bool,
    writer_failed: bool,
}

/// Everything that holds between any two stage turns.
spec fn pipe_inv(
    data0: Seq<u8>,
    bs: nat,
    source: MemSource,
    chan: BoundedChannel,
    out: Seq<u8>,
    rstats: ReadStatistics,
    wstats: WriteStatistics,
    src_task: Task,
    snk_task: Task,
    ph: Phase,
) -> bool {
    let len = data0.len();
    &&& bs >= 1
    &&& len < u64::MAX
    &&& worktime_derived(src_task)
    &&& worktime_derived(snk_task)
    &&& source.wf()
    &&& source.data@ == data0
    &&& chan.wf()
    &&& out == data0.take(out.len() as int)
    &&& out.len() <= source.pos <= len
    &&& queued_bytes(chan.contents()) == data0.subrange(out.len() as int, source.pos as int)
    &&& rstats.total_bytes_read == source.pos
    &&& rstats.total_reads <= source.pos
    &&& rstats.total_errors == (if ph.failed {
        1nat
    } else {
        0nat
    })
    &&& wstats.total_bytes_written == out.len()
    &&& wstats.total_writes <= out.len()
    &&& wstats.total_errors == 0
    &&& wstats.total_writes + queued_data_blocks(chan.contents()) == rstats.total_reads
    &&& chan.blocks_sent() == rstats.total_reads + (if ph.sentinel_sent {
        1nat
    } else {
        0nat
    })
    &&& chan.blocks_received() == wstats.total_writes + (if ph.sentinel_received {
        1nat
    } else {
        0nat
    })
    &&& ph.reader_active ==> {
        &&& !ph.sentinel_sent
        &&& !ph.failed
        &&& source.reads_done == rstats.total_reads
        &&& (source.pos == rstats.total_reads * bs || (source.pos == len && rstats.total_reads
            == blocks_of(len, bs)))
        &&& (source.fail_at matches Some(k) ==> source.reads_done <= k)
        &&& src_task.status is Running
    }
    &&& !ph.reader_active ==> (ph.sentinel_sent || ph.failed)
    &&& !(ph.sentinel_sent && ph.failed)
    &&& ph.sentinel_sent ==> {
        &&& source.pos == len
        &&& rstats.total_reads == blocks_of(len, bs)
        &&& !failure_fires(source.fail_at, len, bs)
        &&& src_task.status matches TaskStatus::Completed(m) && m.code == 0
    }
    &&& ph.failed ==> {
        &&& source.fail_at matches Some(k) && k <= blocks_of(len, bs) && rstats.total_reads
            == reads_before_failure(k as nat, len, bs) && source.pos == bytes_before_failure(
            k as nat,
            len,
            bs,
        )
        &&& src_task.status matches TaskStatus::Failed(m) && m.code == -2
    }
    &&& chan.is_sender_closed() == ph.failed
    &&& (ph.sentinel_sent && !ph.sentinel_received) ==> {
        &&& chan.contents().len() >= 1
        &&& chan.contents().last().len() == 0
    }
    &&& forall|i: int|
        0 <= i < chan.contents().len() ==> ((#[trigger] chan.contents()[i]).len() > 0 || (
        ph.sentinel_sent && !ph.sentinel_received && i == chan.contents().len() - 1))
    &&& ph.sentinel_received ==> ph.sentinel_sent
    &&& !ph.writer_done ==> {
        &&& snk_task.status is Running
        &&& !ph.writer_failed
        &&& !ph.sentinel_received
    }
    &&& ph.writer_done ==> (ph.sentinel_received || ph.writer_failed)
    &&& ph.writer_done ==> chan.contents().len() == 0
    &&& ph.sentinel_received ==> {
        &&& ph.writer_done
        &&& snk_task.status matches TaskStatus::Completed(m) && m.code == 0
    }
    &&& ph.writer_failed ==> {
        &&& ph.writer_done
        &&& ph.failed
        &&& !ph.sentinel_received
        &&& snk_task.status matches TaskStatus::Failed(m) && m.code == -1
    }
}

/// One whole pipeline run over an in-memory source: the coordinator wires a
/// bounded channel of window `capacity` between the two stages and lets
/// them take turns — the reader runs ahead until the channel refuses a
/// send, the writer drains in arrival order — until both tasks are
/// terminal.  Registers the `"DataSource"` and `"DataSink"` records and
/// fills both statistics records in `ctx`.
pub fn run_copy(source: MemSource, block_size: usize, capacity: usize, ctx: &mut DdContext) -> (r:
    CopyOutcome)
    requires
        block_size >= 1,
        capacity >= 1,
        source.wf(),
        source.pos == 0,
        source.reads_done == 0,
        source.data@.len() < u64::MAX,
        old(ctx).tasks@.len() == 0,
    ensures
        copy_postcondition(source, block_size as nat, capacity as nat, *final(ctx), r),
{
    let ghost data0 = source.data@;
    let ghost bs = block_size as nat;
    let ghost len = data0.len();
    let ghost fail0 = source.fail_at;

    let mut source = source;
    let mut rstats = ReadStatistics::new();
    let mut wstats = WriteStatistics::new();
    rstats.init();
    wstats.init();
    let mut src_task = Task::new();
    let mut snk_task = Task::new();
    src_task.change_state(TaskStatus::Running);
    snk_task.change_state(TaskStatus::Running);

    let mut chan = BoundedChannel::new(capacity);
    let mut out: Vec<u8> = Vec::new();
    let mut ph = Phase {
        reader_active: true,
        sentinel_sent: false,
        sentinel_received: false,
        failed: false,
        writer_done: false,
        writer_failed: false,
    };

    proof {
        assert(data0.take(0) =~= Seq::<u8>::empty());
        assert(data0.subrange(0, 0) =~= Seq::<u8>::empty());
    }

    while !ph.writer_done
        invariant
            pipe_inv(data0, bs, source, chan, out@, rstats, wstats, src_task, snk_task, ph),
            chan.bound() == capacity,
            bs == block_size as nat,
            block_size >= 1,
            capacity >= 1,
            data0.len() == len,
            source.fail_at == fail0,
            !ph.writer_done ==> chan.contents().len() == 0,
        decreases
            (if ph.reader_active {
                data0.len() - source.pos + 1
            } else {
                0int
            }),
            chan.contents().len(),
            (if ph.writer_done {
                0int
            } else {
                1int
            }),
    {
        let ghost pos0 = source.pos;

        // Reader turn: produce blocks until the channel pushes back or the
        // stream ends.
        if ph.reader_active {
            let mut room = !chan.is_full();
            while ph.reader_active && room
                invariant
                    pipe_inv(
                        data0,
                        bs,
                        source,
                        chan,
                        out@,
                        rstats,
                        wstats,
                        src_task,
                        snk_task,
                        ph,
                    ),
                    chan.bound() == capacity,
                    bs == block_size as nat,
                    block_size >= 1,
                    data0.len() == len,
                    source.fail_at == fail0,
                    !ph.writer_done,
                    room ==> chan.contents().len() < chan.bound(),
                    source.pos > pos0 || !ph.reader_active || (source.pos == pos0 && room),
                decreases data0.len() - source.pos + (if ph.reader_active {
                    1int
                } else {
                    0int
                }),
            {
                let ghost qpre = chan.contents();
                let ghost reads_pre = rstats.total_reads as nat;
                let ghost pos_pre = source.pos as nat;
                match source.read_block(block_size) {
                    Ok(b) => {
                        let blen = b.len();
                        if blen == 0 {
                            // End of stream: the sentinel, the one graceful
                            // exit signal.
                            proof {
                                assert(source.pos == len);
                                if pos_pre == reads_pre * bs {
                                    lemma_blocks_of_exact(reads_pre, bs, len);
                                }
                            }
                            let ghost bv = b@;
                            let sres = chan.try_send(b);
                            proof {
                                assert(sres is Accepted);
                                assert(bv =~= Seq::<u8>::empty());
                                lemma_queued_push(qpre, bv);
                                assert(queued_bytes(qpre) + bv =~= queued_bytes(qpre));
                                assert(chan.contents().last().len() == 0);
                                assert forall|i: int| 0 <= i < chan.contents().len() - 1 implies (
                                #[trigger] chan.contents()[i]).len() > 0 by {
                                    assert(chan.contents()[i] == qpre[i]);
                                }
                            }
                            src_task.complete(0);
                            ph.sentinel_sent = true;
                            ph.reader_active = false;
                        } else {
                            rstats.add_read(blen as u64);
                            src_task.ping();
                            proof {
                                if pos_pre == reads_pre * bs {
                                    assert((reads_pre + 1) * bs == reads_pre * bs + bs)
                                        by (nonlinear_arith);
                                    if source.pos < len {
                                        assert(blen == bs);
                                    } else {
                                        lemma_blocks_of_step(reads_pre, bs, blen as nat, len);
                                    }
                                }
                            }
                            let ghost bv = b@;
                            let sres = chan.try_send(b);
                            proof {
                                assert(sres is Accepted);
                                lemma_queued_push(qpre, bv);
                                assert(data0.subrange(out@.len() as int, pos_pre as int)
                                    + data0.subrange(pos_pre as int, source.pos as int)
                                    =~= data0.subrange(out@.len() as int, source.pos as int));
                            }
                        }
                    },
                    Err(_) => {
                        // Mid-stream read failure: no sentinel; the closed
                        // channel is the writer's only signal.
                        proof {
                            lemma_blocks_of_cover(len, bs);
                            if pos_pre == reads_pre * bs {
                                lemma_mul_cancel_le(reads_pre, blocks_of(len, bs), bs);
                            }
                        }
                        src_task.fail(-2);
                        rstats.add_error();
                        chan.close_sender();
                        ph.failed = true;
                        ph.reader_active = false;
                    },
                }
                room = !chan.is_full();
            }
            proof {
                assert(source.pos > pos0 || !ph.reader_active);
            }
        }

        let ghost pos1 = source.pos;
        let ghost ra1 = ph.reader_active;

        // Writer turn: drain in arrival order until the channel is empty,
        // the sentinel arrives, or the reader is found dead.
        let mut backoff = false;
        while !ph.writer_done && !backoff
            invariant
                pipe_inv(data0, bs, source, chan, out@, rstats, wstats, src_task, snk_task, ph),
                chan.bound() == capacity,
                bs == block_size as nat,
                block_size >= 1,
                data0.len() == len,
                source.fail_at == fail0,
                source.pos == pos1,
                ph.reader_active == ra1,
                backoff ==> chan.contents().len() == 0 && !ph.failed,
            decreases
                chan.contents().len(),
                (if ph.writer_done || backoff {
                    0int
                } else {
                    1int
                }),
        {
            let ghost qpre = chan.contents();
            let ghost opre = out@;
            match chan.try_recv() {
                RecvOutcome::Data(b) => {
                    proof {
                        assert(qpre.drop_first() =~= qpre.subrange(1, qpre.len() as int));
                        assert(queued_bytes(qpre) == qpre[0] + queued_bytes(qpre.drop_first()));
                    }
                    if b.is_empty() {
                        // The sentinel: everything before it is written.
                        proof {
                            assert(qpre[0].len() == 0);
                            assert(qpre.len() == 1);
                            assert(chan.contents() =~= Seq::<Seq<u8>>::empty());
                            assert(queued_bytes(qpre) =~= Seq::<u8>::empty());
                            assert(out@.len() == source.pos);
                        }
                        snk_task.complete(0);
                        ph.sentinel_received = true;
                        ph.writer_done = true;
                    } else {
                        let p = b.payload();
                        let blen = p.len();
                        proof {
                            let o = opre.len() as int;
                            assert(queued_bytes(qpre) == data0.subrange(o, source.pos as int));
                            assert(qpre[0].len() + queued_bytes(qpre.drop_first()).len()
                                == source.pos - o);
                            assert(blen <= source.pos - o);
                            assert(o + blen <= data0.len());
                            assert forall|i: int| 0 <= i < blen implies b@[i] == data0.subrange(
                                o,
                                o + blen,
                            )[i] by {
                                assert((qpre[0] + queued_bytes(qpre.drop_first()))[i] == qpre[0][i]);
                                assert(data0.subrange(o, source.pos as int)[i] == data0[o + i]);
                            }
                            assert(b@ =~= data0.subrange(o, o + blen));
                        }
                        out.extend_from_slice(p);
                        wstats.add_write(blen as u64);
                        snk_task.ping();
                        proof {
                            let o = opre.len() as int;
                            assert(opre + b@ =~= data0.take(o + blen));
                            assert forall|i: int| 0 <= i < chan.contents().len()
                                implies ((#[trigger] chan.contents()[i]).len() > 0 || (
                            ph.sentinel_sent && !ph.sentinel_received && i == chan.contents().len()
                                - 1)) by {
                                assert(chan.contents()[i] == qpre[i + 1]);
                            }
                            assert forall|i: int| 0 <= i < source.pos - (o + blen)
                                implies queued_bytes(qpre.drop_first())[i] == data0.subrange(
                                o + blen,
                                source.pos as int,
                            )[i] by {
                                assert((qpre[0] + queued_bytes(qpre.drop_first()))[blen + i]
                                    == queued_bytes(qpre.drop_first())[i]);
                                assert(data0.subrange(o, source.pos as int)[blen + i] == data0[o
                                    + blen + i]);
                            }
                            assert(queued_bytes(chan.contents()) =~= data0.subrange(
                                o + blen,
                                source.pos as int,
                            ));
                            if ph.sentinel_sent && !ph.sentinel_received {
                                assert(qpre.last().len() == 0);
                                assert(qpre.len() >= 2);
                                assert(chan.contents().len() == qpre.len() - 1);
                                assert(chan.contents().last() == qpre.last());
                            }
                            assert(queued_data_blocks(qpre) == 1 + queued_data_blocks(
                                qpre.drop_first(),
                            ));
                            assert(out@ == data0.take(out@.len() as int));
                            assert(queued_bytes(chan.contents()) == data0.subrange(
                                out@.len() as int,
                                source.pos as int,
                            ));
                            assert(wstats.total_writes + queued_data_blocks(chan.contents())
                                == rstats.total_reads);
                        }
                    }
                },
                RecvOutcome::Empty => {
                    // Nothing ready: back off and let the reader run.
                    backoff = true;
                },
                RecvOutcome::Disconnected => {
                    // The reader died without a sentinel: hard stop.
                    proof {
                        assert(queued_bytes(qpre) =~= Seq::<u8>::empty());
                        assert(data0.subrange(out@.len() as int, source.pos as int).len() == 0);
                        assert(out@.len() == source.pos);
                    }
                    snk_task.fail(-1);
                    ph.writer_failed = true;
                    ph.writer_done = true;
                },
            }
        }
    }

    // The coordinator observed both stages terminal: install the final
    // records and statistics for reporting.
    proof {
        assert(queued_bytes(chan.contents()) == Seq::<u8>::empty());
        assert(data0.subrange(out@.len() as int, source.pos as int).len() == 0);
        assert(out@.len() == source.pos);
        if ph.sentinel_received {
            assert(source.pos == len);
            assert(data0.take(len as int) =~= data0);
        }
    }
    ctx.read_statistics = rstats;
    ctx.write_statistics = wstats;
    ctx.set_task("DataSource", src_task);
    let ghost mid = *ctx;
    ctx.set_task("DataSink", snk_task);
    proof {
        reveal_strlit("DataSource");
        reveal_strlit("DataSink");
        assert("DataSource"@.len() == 10);
        assert("DataSink"@.len() == 8);
        assert("DataSource"@ != "DataSink"@);
        assert(ctx.task_of("DataSource"@) == src_task);
        assert forall|i: int| 0 <= i < ctx.tasks@.len() implies (#[trigger] ctx.tasks@[i]).1.status.is_terminal() by {
            if ctx.tasks@[i].1 == snk_task {
            } else {
                assert(ctx.tasks@[i] == mid.tasks@[i]);
            }
        }
        crate::channel::lemma_backpressure(&chan);
        if !failure_fires(fail0, len, bs) {
            assert(!ph.failed);
            assert(!ph.writer_failed);
            assert(ph.sentinel_received);
            assert(out@ =~= data0);
        } else {
            assert(ph.failed);
            assert(ph.writer_failed);
            assert(!ph.sentinel_sent);
            assert(!ph.sentinel_received);
        }
    }
    CopyOutcome {
        output: out,
        blocks_sent: Ghost(chan.blocks_sent()),
        blocks_received: Ghost(chan.blocks_received()),
    }
}

/// The coordinator's setup gate: both stages must validate their side
/// before anything is spawned.  A setup failure aborts the whole pipeline
/// first — no task is registered, no statistics move, nothing is written.
pub fn launch(
    source_check: Result<(), IoError>,
    sink_check: Result<(), IoError>,
    source: MemSource,
    block_size: usize,
    capacity: usize,
    ctx: &mut DdContext,
) -> (r: Result<CopyOutcome, DdError>)
    requires
        block_size >= 1,
        capacity >= 1,
        source.wf(),
        source.pos == 0,
        source.reads_done == 0,
        source.data@.len() < u64::MAX,
        old(ctx).tasks@.len() == 0,
    ensures
        source_check matches Err(e) ==> (r == Err::<CopyOutcome, DdError>(DdError::IoError(e))
            && *final(ctx) == *old(ctx)),
        source_check is Ok ==> (sink_check matches Err(e) ==> (r == Err::<CopyOutcome, DdError>(
            DdError::IoError(e),
        ) && *final(ctx) == *old(ctx))),
        source_check is Ok && sink_check is Ok ==> (r matches Ok(outcome)
            && copy_postcondition(source, block_size as nat, capacity as nat, *final(ctx), outcome)),
{
    match source_check {
        Err(e) => Err(DdError::IoError(e)),
        Ok(()) => match sink_check {
            Err(e) => Err(DdError::IoError(e)),
            Ok(()) => Ok(run_copy(source, block_size, capacity, ctx)),
        },
    }
}

} // verus!
