//! What holds of every run of the engine.
//!
//! The lemmas here are stated over the model in [`crate::model`] and are
//! inherited by the executable engine through the contract of
//! [`crate::engine::Engine::step`]: they quantify over every sequence of
//! events a faithful driver could report, and so over every run.

use vstd::prelude::*;

use crate::control::Control;
use crate::errors::ErrorModel;
use crate::text::trim_newlines;
use crate::model::{
    emits, enabled, init, lemma_step_preserves_wf, outputs, run_model, step_model, valid_trace,
    wf, ActionModel, Config, EventModel, Phase, Record, State,
};

verus! {

/// The line index the next delivered record will carry, if the next record
/// comes from the file currently being read.
pub open spec fn vline(s: State) -> nat {
    match s.phase {
        Phase::AwaitingVerdict { .. } => s.line + 1,
        _ => s.line,
    }
}

/// The byte offset the next delivered record will carry, if the next record
/// comes from the file currently being read.
pub open spec fn vpos(s: State) -> nat {
    match s.phase {
        Phase::AwaitingVerdict { len } => s.pos + len,
        _ => s.pos,
    }
}

/// How one delivered record may follow another: within one file the line
/// index advances by exactly one and the byte offset by exactly the raw
/// length of the earlier line; a record from a later file starts that file
/// over from line zero, byte zero.
pub open spec fn follows(a: Record, b: Record) -> bool {
    if b.generation == a.generation {
        b.line == a.line + 1 && b.pos == a.pos + a.len
    } else {
        b.generation > a.generation && b.line == 0 && b.pos == 0
    }
}

/// Every record of the sequence follows its predecessor.
pub open spec fn chained(rs: Seq<Record>) -> bool
    decreases rs.len(),
{
    rs.len() <= 1 || (follows(rs[0], rs[1]) && chained(rs.drop_first()))
}

/// Every record of the sequence has a positive raw length: a line holds at
/// least its delimiter, or at least one byte at end-of-file.
pub open spec fn lens_positive(rs: Seq<Record>) -> bool {
    forall|i: int| 0 <= i < rs.len() ==> (#[trigger] rs[i]).len >= 1
}

/// Where the first record delivered from state `s` must stand: at the
/// engine's own counters once the resume skip is over, and at the start of
/// a fresh file if a rotation intervenes first.
pub open spec fn head_ok(s: State, r: Record) -> bool {
    if r.generation == s.generation {
        if s.phase is Opening || s.phase is Skipping {
            r.line >= s.line && r.pos >= s.pos
        } else {
            r.line == vline(s) && r.pos == vpos(s)
        }
    } else {
        r.generation > s.generation && r.line == 0 && r.pos == 0
    }
}

/// A step that delivers nothing moves the point of the next delivery only
/// forward, so a first record correct for the later state is correct for the
/// earlier one.
proof fn lemma_nonemitting_head(s: State, ev: EventModel, r: Record)
    requires
        wf(s),
        enabled(s, ev),
        emits(s, ev) is None,
        !(step_model(s, ev).0.phase is Done),
        !(step_model(s, ev).0.phase is Failed),
        head_ok(step_model(s, ev).0, r),
    ensures
        head_ok(s, r),
{
}

/// Records are delivered as an unbroken chain: along any run, consecutive
/// records from one file advance the line index by exactly one and the byte
/// offset by exactly the raw length of the line before, and the first record
/// after a switch to a replacement file starts at line zero, byte zero.
pub proof fn lemma_trace_chained(s: State, evs: Seq<EventModel>)
    requires
        wf(s),
        valid_trace(s, evs),
    ensures
        wf(run_model(s, evs)),
        chained(outputs(s, evs)),
        lens_positive(outputs(s, evs)),
        outputs(s, evs).len() > 0 ==> head_ok(s, outputs(s, evs)[0]),
    decreases evs.len(),
{
    if evs.len() == 0 {
    } else {
        let e = evs.first();
        let s2 = step_model(s, e).0;
        let rest = evs.drop_first();
        lemma_step_preserves_wf(s, e);
        lemma_trace_chained(s2, rest);
        let tail = outputs(s2, rest);
        match emits(s, e) {
            Option::Some(r0) => {
                let all = outputs(s, evs);
                assert(all == seq![r0] + tail);
                assert(all[0] == r0);
                assert(all.drop_first() =~= tail);
                if tail.len() > 0 {
                    assert(all[1] == tail[0]);
                    assert(follows(r0, tail[0]));
                }
                assert(chained(all));
                assert forall|i: int| 0 <= i < all.len() implies (#[trigger] all[i]).len
                    >= 1 by {
                    if i > 0 {
                        assert(all[i] == tail[i - 1]);
                    }
                }
                assert(head_ok(s, all[0]));
            },
            Option::None => {
                if tail.len() > 0 {
                    assert(rest.len() > 0);
                    assert(valid_trace(s2, rest));
                    assert(enabled(s2, rest.first()));
                    lemma_nonemitting_head(s, e, tail[0]);
                }
            },
        }
    }
}

/// In a chained sequence, every record follows its predecessor.
pub proof fn lemma_chained_at(rs: Seq<Record>, i: int)
    requires
        chained(rs),
        0 <= i,
        i + 1 < rs.len(),
    ensures
        follows(rs[i], rs[i + 1]),
    decreases i,
{
    if i > 0 {
        lemma_chained_at(rs.drop_first(), i - 1);
        assert(rs.drop_first()[i - 1] == rs[i]);
        assert(rs.drop_first()[i] == rs[i + 1]);
    }
}

/// Delivery order never goes backwards: along a chained sequence of records
/// the file generation never decreases, and within one file generation both
/// the line index and the byte offset strictly increase.
pub proof fn lemma_chain_monotone(rs: Seq<Record>, i: int, j: int)
    requires
        chained(rs),
        lens_positive(rs),
        0 <= i < j < rs.len(),
    ensures
        rs[i].generation <= rs[j].generation,
        rs[i].generation == rs[j].generation ==> rs[i].line < rs[j].line && rs[i].pos < rs[j].pos,
    decreases j - i,
{
    lemma_chained_at(rs, j - 1);
    if i < j - 1 {
        lemma_chain_monotone(rs, i, j - 1);
    }
}

/// The total raw byte length of a run of records, delimiters included.
pub open spec fn sum_lens(rs: Seq<Record>) -> nat
    decreases rs.len(),
{
    if rs.len() == 0 {
        0
    } else {
        rs.first().len + sum_lens(rs.drop_first())
    }
}

proof fn lemma_sum_lens_push(rs: Seq<Record>, r: Record)
    ensures
        sum_lens(rs.push(r)) == sum_lens(rs) + r.len,
    decreases rs.len(),
{
    if rs.len() == 0 {
        assert(rs.push(r).first() == r);
        assert(rs.push(r).drop_first() =~= Seq::<Record>::empty());
        assert(sum_lens(Seq::<Record>::empty()) == 0);
    } else {
        lemma_sum_lens_push(rs.drop_first(), r);
        assert(rs.push(r).first() == rs.first());
        assert(rs.push(r).drop_first() =~= rs.drop_first().push(r));
    }
}

/// Byte offsets are exact prefix sums: within one file generation, the byte
/// offset of a later record exceeds that of an earlier one by exactly the
/// raw byte lengths, delimiters included, of the records between them, and
/// the line index by exactly their count.
pub proof fn lemma_pos_is_sum_of_lens(rs: Seq<Record>, i: int, j: int)
    requires
        chained(rs),
        lens_positive(rs),
        0 <= i <= j < rs.len(),
        rs[i].generation == rs[j].generation,
    ensures
        rs[j].pos == rs[i].pos + sum_lens(rs.subrange(i, j)),
        rs[j].line == rs[i].line + (j - i),
    decreases j - i,
{
    if i == j {
        assert(rs.subrange(i, j) =~= Seq::<Record>::empty());
    } else {
        lemma_chained_at(rs, j - 1);
        if i < j - 1 {
            lemma_chain_monotone(rs, i, j - 1);
        }
        assert(rs[i].generation == rs[j - 1].generation);
        lemma_pos_is_sum_of_lens(rs, i, j - 1);
        lemma_sum_lens_push(rs.subrange(i, j - 1), rs[j - 1]);
        assert(rs.subrange(i, j) =~= rs.subrange(i, j - 1).push(rs[j - 1]));
    }
}

/// Backpressure: the moment a record is delivered the engine stops reading;
/// the only events it will accept next are the consumer's verdict on that
/// record, and it asks for the next read only once the verdict is Continue.
pub proof fn lemma_delivery_blocks_engine(s: State, ev: EventModel)
    requires
        enabled(s, ev),
        emits(s, ev) is Some,
    ensures
        step_model(s, ev).1 is Deliver,
        step_model(s, ev).0.phase is AwaitingVerdict,
        forall|ev2: EventModel| enabled(step_model(s, ev).0, ev2) ==> ev2 is Accepted
            || ev2 is DeliveryFailed,
{
}

/// The verdict decides everything: after Continue the engine reads on from
/// the byte offset just past the delivered record; after Stop the run is
/// over, with nothing further read or delivered.
pub proof fn lemma_verdict_resolves_delivery(s: State, control: Control)
    requires
        s.phase matches Phase::AwaitingVerdict { len },
    ensures
        control is Continue ==> step_model(s, EventModel::Accepted { control }).1 == (
        ActionModel::SeekThenRead { pos: vpos(s) }),
        control is Continue ==> step_model(s, EventModel::Accepted { control }).0.phase
            is Reading,
        control is Stop ==> step_model(s, EventModel::Accepted { control }).1
            == ActionModel::Finish,
        control is Stop ==> step_model(s, EventModel::Accepted { control }).0.phase is Done,
        control is Stop ==> forall|ev2: EventModel|
            !enabled(step_model(s, EventModel::Accepted { control }).0, ev2),
{
}

/// Consumer disengagement terminates the run: when a delivery fails because
/// the receiving side is gone, the engine aborts with exactly that error and
/// accepts no further event.
pub proof fn lemma_disengagement_terminates(s: State, error: ErrorModel)
    requires
        s.phase is AwaitingVerdict,
    ensures
        step_model(s, EventModel::DeliveryFailed { error }).0.phase == (Phase::Failed { error }),
        step_model(s, EventModel::DeliveryFailed { error }).1 == (ActionModel::Abort { error }),
        forall|ev2: EventModel|
            !enabled(step_model(s, EventModel::DeliveryFailed { error }).0, ev2),
{
}

/// Rotation safety: the engine moves on to a replacement file only after the
/// old file has reported end-of-file (or an undecodable read, which is
/// treated as end-of-file) while its drained remainder was being read — so
/// everything the old file still held is delivered before anything from the
/// new file. The new file then starts as a fresh generation from line zero,
/// byte zero.
pub proof fn lemma_switch_only_at_end_of_old_file(s: State, ev: EventModel)
    requires
        enabled(s, ev),
        step_model(s, ev).0.generation != s.generation,
    ensures
        s.phase is Reading,
        s.drain is Some,
        ev is Eof || ev is ReadFailed,
        step_model(s, ev).1 is SwitchToStashed,
        step_model(s, ev).0.generation == s.generation + 1,
        step_model(s, ev).0.line == 0,
        step_model(s, ev).0.pos == 0,
        step_model(s, ev).0.file_id == s.drain->0,
{
}

/// The same sequence of failures, reported over and over.
pub open spec fn repeat_failures(ev: EventModel, n: nat) -> Seq<EventModel> {
    Seq::new(n, |i: int| ev)
}

/// Bounded startup retry: with an attempt cap in force, each failure up to
/// the cap is waited out and retried, and the failure that exhausts the cap
/// ends the run with that error. The open is attempted at least once: a cap
/// of zero behaves as a cap of one.
pub proof fn lemma_bounded_open_retry(s: State, message: Seq<char>, j: nat)
    requires
        wf(s),
        s.phase matches Phase::Opening { failures },
        s.cfg.open_attempts is Some,
        1 <= j,
        s.phase->Opening_failures + j <= s.cfg.open_attempts->0 || (s.phase->Opening_failures == 0 && j == 1),
    ensures
        valid_trace(s, repeat_failures(EventModel::OpenFailed { message }, j)),
        outputs(s, repeat_failures(EventModel::OpenFailed { message }, j)) == Seq::<
            Record,
        >::empty(),
        ({
            let end = run_model(s, repeat_failures(EventModel::OpenFailed { message }, j));
            if s.phase->Opening_failures + j < s.cfg.open_attempts->0 {
                end.phase == (Phase::Opening { failures: s.phase->Opening_failures + j })
            } else {
                end.phase == (Phase::Failed { error: ErrorModel::Io { message } })
            }
        }),
    decreases j,
{
    let ev = EventModel::OpenFailed { message };
    let evs = repeat_failures(ev, j);
    let s2 = step_model(s, ev).0;
    assert(evs.first() == ev);
    assert(evs.drop_first() =~= repeat_failures(ev, (j - 1) as nat));
    lemma_step_preserves_wf(s, ev);
    if j > 1 {
        lemma_bounded_open_retry(s2, message, (j - 1) as nat);
    } else {
        assert(valid_trace(s2, repeat_failures(ev, 0)));
        assert(outputs(s2, repeat_failures(ev, 0)) == Seq::<Record>::empty());
    }
}

/// Unbounded startup retry: without an attempt cap the engine never gives
/// up; any number of consecutive failures leaves it waiting to try again.
pub proof fn lemma_unbounded_open_retry(s: State, message: Seq<char>, j: nat)
    requires
        wf(s),
        s.phase is Opening,
        s.cfg.open_attempts is None,
    ensures
        valid_trace(s, repeat_failures(EventModel::OpenFailed { message }, j)),
        run_model(s, repeat_failures(EventModel::OpenFailed { message }, j)) == s,
        outputs(s, repeat_failures(EventModel::OpenFailed { message }, j)) == Seq::<
            Record,
        >::empty(),
    decreases j,
{
    let ev = EventModel::OpenFailed { message };
    if j > 0 {
        assert(repeat_failures(ev, j).first() == ev);
        assert(repeat_failures(ev, j).drop_first() =~= repeat_failures(ev, (j - 1) as nat));
        assert(step_model(s, ev).0 == s);
        lemma_unbounded_open_retry(s, message, (j - 1) as nat);
    }
}

/// Bounded rotation-check retry: with an attempt cap in force, the failure
/// that exhausts the cap ends the run with the underlying error instead of
/// retrying indefinitely. The check is attempted at least once: a cap of
/// zero behaves as a cap of one.
pub proof fn lemma_bounded_check_retry(s: State, message: Seq<char>, j: nat)
    requires
        wf(s),
        s.phase matches Phase::Checking { failures },
        s.cfg.check_attempts is Some,
        1 <= j,
        s.phase->Checking_failures + j <= s.cfg.check_attempts->0 || (s.phase->Checking_failures == 0 && j == 1),
    ensures
        valid_trace(s, repeat_failures(EventModel::CheckFailed { message }, j)),
        outputs(s, repeat_failures(EventModel::CheckFailed { message }, j)) == Seq::<
            Record,
        >::empty(),
        ({
            let end = run_model(s, repeat_failures(EventModel::CheckFailed { message }, j));
            if s.phase->Checking_failures + j < s.cfg.check_attempts->0 {
                end.phase == (Phase::Checking { failures: s.phase->Checking_failures + j })
            } else {
                end.phase == (Phase::Failed { error: ErrorModel::Io { message } })
            }
        }),
    decreases j,
{
    let ev = EventModel::CheckFailed { message };
    let evs = repeat_failures(ev, j);
    let s2 = step_model(s, ev).0;
    assert(evs.first() == ev);
    assert(evs.drop_first() =~= repeat_failures(ev, (j - 1) as nat));
    lemma_step_preserves_wf(s, ev);
    if j > 1 {
        lemma_bounded_check_retry(s2, message, (j - 1) as nat);
    } else {
        assert(valid_trace(s2, repeat_failures(ev, 0)));
        assert(outputs(s2, repeat_failures(ev, 0)) == Seq::<Record>::empty());
    }
}

/// Unbounded rotation-check retry: without an attempt cap the engine never
/// gives up on the check.
pub proof fn lemma_unbounded_check_retry(s: State, message: Seq<char>, j: nat)
    requires
        wf(s),
        s.phase is Checking,
        s.cfg.check_attempts is None,
    ensures
        valid_trace(s, repeat_failures(EventModel::CheckFailed { message }, j)),
        run_model(s, repeat_failures(EventModel::CheckFailed { message }, j)) == s,
        outputs(s, repeat_failures(EventModel::CheckFailed { message }, j)) == Seq::<
            Record,
        >::empty(),
    decreases j,
{
    let ev = EventModel::CheckFailed { message };
    if j > 0 {
        assert(repeat_failures(ev, j).first() == ev);
        assert(repeat_failures(ev, j).drop_first() =~= repeat_failures(ev, (j - 1) as nat));
        assert(step_model(s, ev).0 == s);
        lemma_unbounded_check_retry(s, message, (j - 1) as nat);
    }
}

/// One line of a file's content: its raw byte length, delimiter included,
/// and its decoded text.
pub struct LineModel {
    pub len: nat,
    pub text: Seq<char>,
}

/// Every stored line occupies at least one byte.
pub open spec fn wf_lines(ls: Seq<LineModel>) -> bool {
    forall|i: int| 0 <= i < ls.len() ==> (#[trigger] ls[i]).len >= 1
}

/// The total raw byte length of a run of stored lines.
pub open spec fn total_len(ls: Seq<LineModel>) -> nat
    decreases ls.len(),
{
    if ls.len() == 0 {
        0
    } else {
        ls.first().len + total_len(ls.drop_first())
    }
}

proof fn lemma_total_len_append(a: Seq<LineModel>, b: Seq<LineModel>)
    ensures
        total_len(a + b) == total_len(a) + total_len(b),
    decreases a.len(),
{
    if a.len() == 0 {
        assert(a + b =~= b);
    } else {
        assert((a + b).first() == a.first());
        assert((a + b).drop_first() =~= a.drop_first() + b);
        lemma_total_len_append(a.drop_first(), b);
    }
}

proof fn lemma_total_len_one(x: LineModel)
    ensures
        total_len(seq![x]) == x.len,
{
    assert(seq![x].drop_first() =~= Seq::<LineModel>::empty());
    assert(total_len(Seq::<LineModel>::empty()) == 0);
}

/// The events a faithful driver reports while lines are being skipped to
/// the resume point: one successful read per line, nothing delivered.
pub open spec fn skip_events(ls: Seq<LineModel>) -> Seq<EventModel> {
    Seq::new(ls.len(), |i: int| EventModel::LineRead { len: ls[i].len, text: ls[i].text })
}

/// The events a faithful driver reports while every line is read, delivered
/// and answered with Continue by the consumer.
pub open spec fn deliver_events(ls: Seq<LineModel>) -> Seq<EventModel>
    decreases ls.len(),
{
    if ls.len() == 0 {
        Seq::empty()
    } else {
        seq![
            EventModel::LineRead { len: ls.first().len, text: ls.first().text },
            EventModel::Accepted { control: Control::Continue },
        ] + deliver_events(ls.drop_first())
    }
}

/// The records a run of stored lines becomes when delivered in file order,
/// starting at line index `line0` and byte offset `pos0` in generation
/// `gen`: each record carries the text of its line with the delimiter
/// stripped, consecutive line indices, and byte offsets that are the exact
/// prefix sums of the raw lengths.
pub open spec fn expected_records(ls: Seq<LineModel>, line0: nat, pos0: nat, gen: nat) -> Seq<
    Record,
> {
    Seq::new(
        ls.len(),
        |i: int|
            Record {
                text: trim_newlines(ls[i].text),
                line: (line0 + i) as nat,
                pos: (pos0 + total_len(ls.take(i))) as nat,
                len: ls[i].len,
                generation: gen,
            },
    )
}

/// A trace of one event, spelled out.
proof fn lemma_single_step(s: State, e: EventModel)
    requires
        enabled(s, e),
    ensures
        valid_trace(s, seq![e]),
        run_model(s, seq![e]) == step_model(s, e).0,
        outputs(s, seq![e]) == (match emits(s, e) {
            Option::Some(r) => seq![r],
            Option::None => Seq::<Record>::empty(),
        }),
{
    let s2 = step_model(s, e).0;
    assert(seq![e].first() == e);
    assert(seq![e].drop_first() =~= Seq::<EventModel>::empty());
    assert(seq![e].drop_first().len() == 0);
    assert(valid_trace(s2, seq![e].drop_first()));
    assert(run_model(s2, seq![e].drop_first()) == s2);
    assert(outputs(s2, seq![e].drop_first()) == Seq::<Record>::empty());
    match emits(s, e) {
        Option::Some(r) => {
            assert(outputs(s, seq![e]) == seq![r] + Seq::<Record>::empty());
            assert(seq![r] + Seq::<Record>::empty() =~= seq![r]);
        },
        Option::None => {},
    }
}

/// Runs compose: a trace that is valid in two halves is valid as a whole,
/// ends where the second half ends, and delivers the two halves' records in
/// order.
pub proof fn lemma_run_append(s: State, a: Seq<EventModel>, b: Seq<EventModel>)
    requires
        valid_trace(s, a),
        valid_trace(run_model(s, a), b),
    ensures
        valid_trace(s, a + b),
        run_model(s, a + b) == run_model(run_model(s, a), b),
        outputs(s, a + b) == outputs(s, a) + outputs(run_model(s, a), b),
    decreases a.len(),
{
    if a.len() == 0 {
        assert(a + b =~= b);
        assert(outputs(s, a) + outputs(s, b) =~= outputs(s, b));
    } else {
        let s2 = step_model(s, a.first()).0;
        assert((a + b).first() == a.first());
        assert((a + b).drop_first() =~= a.drop_first() + b);
        lemma_run_append(s2, a.drop_first(), b);
        match emits(s, a.first()) {
            Option::Some(r) => {
                assert(outputs(s, a + b) =~= seq![r] + (outputs(s2, a.drop_first()) + outputs(
                    run_model(s, a),
                    b,
                )));
                assert(seq![r] + (outputs(s2, a.drop_first()) + outputs(run_model(s, a), b)) =~= (
                seq![r] + outputs(s2, a.drop_first())) + outputs(run_model(s, a), b));
            },
            Option::None => {},
        }
    }
}

/// The resume skip, done in full: from the skip phase, reading exactly the
/// lines that stand before the resume point discards them all, leaves the
/// engine reading at the resume line with the byte offset equal to their
/// total raw length, and delivers nothing.
pub proof fn lemma_skip_phase(s: State, ls: Seq<LineModel>)
    requires
        wf(s),
        s.phase is Skipping,
        wf_lines(ls),
        s.line + ls.len() == s.cfg.start_line,
    ensures
        valid_trace(s, skip_events(ls)),
        outputs(s, skip_events(ls)) == Seq::<Record>::empty(),
        run_model(s, skip_events(ls)) == (State {
            phase: Phase::Reading,
            line: s.cfg.start_line,
            pos: (s.pos + total_len(ls)) as nat,
            ..s
        }),
    decreases ls.len(),
{
    let evs = skip_events(ls);
    let e0 = EventModel::LineRead { len: ls[0].len, text: ls[0].text };
    assert(evs.first() == e0);
    assert(evs.drop_first() =~= skip_events(ls.drop_first()));
    let s2 = step_model(s, e0).0;
    lemma_step_preserves_wf(s, e0);
    if ls.len() == 1 {
        assert(s2.phase is Reading);
        assert(skip_events(ls.drop_first()).len() == 0);
        assert(valid_trace(s2, skip_events(ls.drop_first())));
        assert(outputs(s2, skip_events(ls.drop_first())) == Seq::<Record>::empty());
        assert(run_model(s2, skip_events(ls.drop_first())) == s2);
        assert(run_model(s, skip_events(ls)) == s2);
        lemma_total_len_one(ls[0]);
        assert(ls =~= seq![ls[0]]);
    } else {
        assert(s2.phase is Skipping);
        lemma_skip_phase(s2, ls.drop_first());
        assert(ls =~= seq![ls[0]] + ls.drop_first());
        lemma_total_len_one(ls[0]);
        lemma_total_len_append(seq![ls[0]], ls.drop_first());
    }
}

/// Steady-state delivery, spelled out: from the reading phase, a stretch of
/// successful reads each answered with Continue delivers exactly the lines
/// read, in order, with consecutive line indices from the engine's counter
/// and byte offsets that are exact prefix sums from the engine's offset.
pub proof fn lemma_steady_delivery(s: State, ls: Seq<LineModel>)
    requires
        wf(s),
        s.phase is Reading,
        wf_lines(ls),
    ensures
        valid_trace(s, deliver_events(ls)),
        outputs(s, deliver_events(ls)) == expected_records(ls, s.line, s.pos, s.generation),
        run_model(s, deliver_events(ls)) == (State {
            line: (s.line + ls.len()) as nat,
            pos: (s.pos + total_len(ls)) as nat,
            ..s
        }),
    decreases ls.len(),
{
    if ls.len() == 0 {
        assert(expected_records(ls, s.line, s.pos, s.generation) =~= Seq::<Record>::empty());
    } else {
        let e0 = EventModel::LineRead { len: ls[0].len, text: ls[0].text };
        let e1 = EventModel::Accepted { control: Control::Continue };
        let s1 = step_model(s, e0).0;
        let s2 = step_model(s1, e1).0;
        lemma_step_preserves_wf(s, e0);
        lemma_step_preserves_wf(s1, e1);
        let r0 = Record {
            text: trim_newlines(ls[0].text),
            line: s.line,
            pos: s.pos,
            len: ls[0].len,
            generation: s.generation,
        };
        assert(emits(s, e0) == Option::Some(r0));
        assert(emits(s1, e1) is None);
        lemma_single_step(s, e0);
        lemma_single_step(s1, e1);
        lemma_run_append(s, seq![e0], seq![e1]);
        assert(seq![e0] + seq![e1] =~= seq![e0, e1]);
        lemma_steady_delivery(s2, ls.drop_first());
        lemma_run_append(s, seq![e0, e1], deliver_events(ls.drop_first()));
        assert(deliver_events(ls) == seq![e0, e1] + deliver_events(ls.drop_first()));
        let rest = expected_records(ls.drop_first(), s2.line, s2.pos, s2.generation);
        assert(outputs(s, seq![e0, e1]) == seq![r0] + Seq::<Record>::empty());
        assert(outputs(s, deliver_events(ls)) == (seq![r0] + Seq::<Record>::empty()) + rest);
        assert((seq![r0] + Seq::<Record>::empty()) + rest =~= seq![r0] + rest);
        assert forall|i: int| 0 <= i < ls.len() implies (seq![r0] + rest)[i]
            == expected_records(ls, s.line, s.pos, s.generation)[i] by {
            if i == 0 {
                assert(ls.take(0) =~= Seq::<LineModel>::empty());
                assert(total_len(Seq::<LineModel>::empty()) == 0);
            } else {
                assert((seq![r0] + rest)[i] == rest[i - 1]);
                assert(ls.drop_first()[i - 1] == ls[i]);
                assert(ls.take(i) =~= seq![ls[0]] + ls.drop_first().take(i - 1));
                lemma_total_len_one(ls[0]);
                lemma_total_len_append(seq![ls[0]], ls.drop_first().take(i - 1));
            }
        }
        assert(seq![r0] + rest =~= expected_records(ls, s.line, s.pos, s.generation));
        // the end state, by the tail's end state
        assert(s.phase == Phase::Reading);
        assert(ls.drop_first().len() == ls.len() - 1);
        assert(total_len(ls) == ls[0].len + total_len(ls.drop_first()));
    }
}

/// The full run of a fixed file from its first line.
pub open spec fn full_trace(ls: Seq<LineModel>, id: nat) -> Seq<EventModel> {
    seq![EventModel::Opened { id }] + deliver_events(ls)
}

/// The run of the same file resumed at line `k`: the lines before `k` are
/// read and discarded, the rest read and delivered.
pub open spec fn resume_trace(ls: Seq<LineModel>, k: int, id: nat) -> Seq<EventModel> {
    seq![EventModel::Opened { id }] + skip_events(ls.take(k)) + deliver_events(ls.skip(k))
}

/// Delivery over one file, end to end: a run started at line `k` skips the
/// first `k` lines without delivering them and then delivers exactly the
/// lines from `k` on — each text trimmed of its delimiter, line indices
/// counting up from `k`, and byte offsets the exact prefix sums of the raw
/// lengths, starting at the total length of what was skipped.
pub proof fn lemma_file_delivery(cfg: Config, id: nat, ls: Seq<LineModel>, k: int)
    requires
        wf_lines(ls),
        0 <= k <= ls.len(),
        cfg.start_line == k,
    ensures
        valid_trace(init(cfg), resume_trace(ls, k, id)),
        outputs(init(cfg), resume_trace(ls, k, id)) == expected_records(
            ls.skip(k),
            k as nat,
            total_len(ls.take(k)),
            0,
        ),
{
    let e0 = EventModel::Opened { id };
    let open_only = seq![e0];
    let t0 = init(cfg);
    let t1 = step_model(t0, e0).0;
    lemma_single_step(t0, e0);
    assert(outputs(t0, open_only) == Seq::<Record>::empty());
    assert(wf_lines(ls.take(k)));
    assert(wf_lines(ls.skip(k)));
    let t2 = if k == 0 {
        assert(t1.phase is Reading);
        assert(ls.take(0) =~= Seq::<LineModel>::empty());
        assert(skip_events(ls.take(0)) =~= Seq::<EventModel>::empty());
        assert(valid_trace(t1, skip_events(ls.take(k))));
        assert(run_model(t1, skip_events(ls.take(k))) == t1);
        assert(outputs(t1, skip_events(ls.take(k))) == Seq::<Record>::empty());
        assert(total_len(ls.take(k)) == 0);
        t1
    } else {
        assert(t1.phase is Skipping);
        assert(ls.take(k).len() == k);
        lemma_skip_phase(t1, ls.take(k));
        run_model(t1, skip_events(ls.take(k)))
    };
    assert(t2.phase is Reading);
    assert(t2.line == k);
    assert(t2.pos == total_len(ls.take(k)));
    assert(t2.generation == 0);
    assert(wf(t2));
    lemma_steady_delivery(t2, ls.skip(k));
    lemma_run_append(t0, open_only, skip_events(ls.take(k)));
    lemma_run_append(t0, open_only + skip_events(ls.take(k)), deliver_events(ls.skip(k)));
    assert(resume_trace(ls, k, id) == (open_only + skip_events(ls.take(k))) + deliver_events(
        ls.skip(k),
    ));
    assert(outputs(t0, resume_trace(ls, k, id)) =~= expected_records(
        ls.skip(k),
        k as nat,
        total_len(ls.take(k)),
        0,
    ));
}

/// Resuming is idempotent: running with starting line `k` over a file
/// delivers exactly the records a run from line zero delivers after its
/// first `k` — the same texts, the same line indices, the same byte offsets.
pub proof fn lemma_resume_is_idempotent(
    cfg_full: Config,
    cfg_resume: Config,
    id: nat,
    ls: Seq<LineModel>,
    k: int,
)
    requires
        wf_lines(ls),
        0 <= k <= ls.len(),
        cfg_full.start_line == 0,
        cfg_resume == (Config { start_line: k as nat, ..cfg_full }),
    ensures
        valid_trace(init(cfg_full), full_trace(ls, id)),
        valid_trace(init(cfg_resume), resume_trace(ls, k, id)),
        outputs(init(cfg_resume), resume_trace(ls, k, id)) == outputs(
            init(cfg_full),
            full_trace(ls, id),
        ).skip(k),
{
    // the run from line zero is the resumed run with nothing to skip
    lemma_file_delivery(cfg_full, id, ls, 0);
    assert(ls.take(0) =~= Seq::<LineModel>::empty());
    assert(skip_events(ls.take(0)) =~= Seq::<EventModel>::empty());
    assert(seq![EventModel::Opened { id }] + skip_events(ls.take(0)) =~= seq![EventModel::Opened {
        id,
    }]);
    assert(ls.skip(0) =~= ls);
    assert(resume_trace(ls, 0, id) == full_trace(ls, id));
    assert(total_len(ls.take(0)) == 0);
    assert(outputs(init(cfg_full), full_trace(ls, id)) == expected_records(ls, 0, 0, 0));

    // the resumed run
    lemma_file_delivery(cfg_resume, id, ls, k);

    // the resumed records are the full run's records from `k` on
    assert forall|i: int| 0 <= i < ls.len() - k implies expected_records(
        ls.skip(k),
        k as nat,
        total_len(ls.take(k)),
        0,
    )[i] == expected_records(ls, 0, 0, 0).skip(k)[i] by {
        assert(ls.skip(k)[i] == ls[k + i]);
        assert(ls.take(k + i) =~= ls.take(k) + ls.skip(k).take(i));
        lemma_total_len_append(ls.take(k), ls.skip(k).take(i));
        assert(expected_records(ls, 0, 0, 0).skip(k)[i] == expected_records(ls, 0, 0, 0)[k + i]);
    }
    assert(expected_records(ls.skip(k), k as nat, total_len(ls.take(k)), 0) =~= expected_records(
        ls,
        0,
        0,
        0,
    ).skip(k));
}

} // verus!
