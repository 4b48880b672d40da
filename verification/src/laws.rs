//! What holds of the decoder and of the controller over whole runs.
//!
//! A run is a list of signals taken one after the other. The laws below
//! speak of the phase a run ends in and of the effects it calls for.

use vstd::prelude::*;
use crate::decoder::{decoded, envelope_of, event_of};
use crate::error::{diagnostic_of, AppErrorView};
use crate::json::{json_parse, Json};
use crate::pipeline::{
    arbitrated, exit_status_of, frame_effect, item_effect, step, EffectView, Phase, SignalView,
    StreamItemView,
};
use crate::record::{rendered, GithubEventView, RawFrameView};
use crate::status::accepted;

verus! {

/// Whether `doc` is an object that holds the three fields of `event`, each as
/// a string.
pub open spec fn holds(doc: Json, event: GithubEventView) -> bool {
    &&& doc matches Json::Object(members)
    &&& members.contains_key("id"@)
    &&& members["id"@] == Json::Text(event.id)
    &&& members.contains_key("type"@)
    &&& members["type"@] == Json::Text(event.event_type)
    &&& members.contains_key("actor"@)
    &&& members["actor"@] matches Json::Object(actor)
    &&& actor.contains_key("display_login"@)
    &&& actor["display_login"@] == Json::Text(event.actor.display_login)
}

/// The document that an event is written as.
pub open spec fn encoded(event: GithubEventView) -> Json {
    Json::Object(
        map![
            "id"@ => Json::Text(event.id),
            "type"@ => Json::Text(event.event_type),
            "actor"@ => Json::Object(
                map!["display_login"@ => Json::Text(event.actor.display_login)],
            ),
        ],
    )
}

/// A frame decodes to an event exactly where its payload parses to a document
/// that holds the three fields of that event.
pub proof fn law_decode_exact(frame: RawFrameView, event: GithubEventView)
    ensures
        decoded(frame) == Ok::<GithubEventView, AppErrorView>(event) <==> (json_parse(
            frame.payload,
        ) matches Ok(doc) && holds(doc, event)),
{
}

/// A frame whose payload is no JSON, or parses to a document that lacks one
/// of the three fields or holds something other than a string there, decodes
/// to a `JsonError` that carries the payload, and to no event.
pub proof fn law_decode_rejects(frame: RawFrameView)
    requires
        json_parse(frame.payload) matches Ok(doc) ==> forall|event: GithubEventView|
            !holds(doc, event),
    ensures
        decoded(frame) matches Err(AppErrorView::JsonError { payload, reason }) && payload
            == frame.payload,
{
    if let Ok(doc) = json_parse(frame.payload) {
        if let Ok(event) = event_of(envelope_of(doc)) {
            assert(holds(doc, event));
        }
    }
}

/// Decoding undoes encoding: a frame whose payload parses to the document
/// that an event is written as decodes to that event.
pub proof fn law_decode_round_trip(frame: RawFrameView, event: GithubEventView)
    requires
        json_parse(frame.payload) == Ok::<Json, Seq<char>>(encoded(event)),
    ensures
        decoded(frame) == Ok::<GithubEventView, AppErrorView>(event),
{
    reveal_strlit("id");
    reveal_strlit("type");
    reveal_strlit("actor");
    assert(holds(encoded(event), event));
}

/// Whether a text stays on one line.
pub open spec fn one_line(text: Seq<char>) -> bool {
    forall|i: int| 0 <= i < text.len() ==> text[i] != '\n'
}

/// What an error was caused by, as it was told.
pub open spec fn cause_of(error: AppErrorView) -> Seq<char> {
    match error {
        AppErrorView::RequestError(cause) => cause,
        AppErrorView::EventStreamError(cause) => cause,
        AppErrorView::JsonError { payload, reason } => reason,
        AppErrorView::ConfigError(cause) => cause,
        AppErrorView::SinkError(cause) => cause,
    }
}

/// An error whose cause stays on one line is reported on one line.
pub proof fn law_diagnostic_is_one_line(error: AppErrorView)
    requires
        one_line(cause_of(error)),
    ensures
        one_line(diagnostic_of(error)),
{
    reveal_strlit("HTTP request failed: ");
    reveal_strlit("Event stream error: ");
    reveal_strlit("JSON parsing error: ");
    reveal_strlit("Configuration error: ");
    reveal_strlit("Output error: ");
    reveal_strlit("Application error: ");
}

/// An event is shown as three lines, its id, its type and the login of its
/// actor, in this order; each stays on its line where the field does.
pub proof fn law_event_renders_as_three_lines(event: GithubEventView)
    ensures
        rendered(event) == ("id: "@ + event.id) + seq!['\n'] + ("type: "@ + event.event_type)
            + seq!['\n'] + ("display login: "@ + event.actor.display_login),
        one_line(event.id) ==> one_line("id: "@ + event.id),
        one_line(event.event_type) ==> one_line("type: "@ + event.event_type),
        one_line(event.actor.display_login) ==> one_line(
            "display login: "@ + event.actor.display_login,
        ),
{
    reveal_strlit("id: ");
    reveal_strlit("type: ");
    reveal_strlit("display login: ");
    reveal_strlit("\ntype: ");
    reveal_strlit("\ndisplay login: ");
    assert("\ntype: "@ =~= seq!['\n'] + "type: "@);
    assert("\ndisplay login: "@ =~= seq!['\n'] + "display login: "@);
    assert(rendered(event) =~= ("id: "@ + event.id) + seq!['\n'] + ("type: "@
        + event.event_type) + seq!['\n'] + ("display login: "@ + event.actor.display_login));
}

/// A run: the phase after `signals` have come one after the other, beginning
/// in `phase`, and the effects they called for, in order.
pub open spec fn run(phase: Phase, signals: Seq<SignalView>) -> (Phase, Seq<EffectView>)
    decreases signals.len(),
{
    if signals.len() == 0 {
        (phase, seq![])
    } else {
        let first = step(phase, signals[0]);
        let rest = run(first.0, signals.drop_first());
        (rest.0, first.1 + rest.1)
    }
}

/// The events that a list of effects reports, in order.
pub open spec fn reports(effects: Seq<EffectView>) -> Seq<GithubEventView>
    decreases effects.len(),
{
    if effects.len() == 0 {
        seq![]
    } else {
        let rest = reports(effects.drop_first());
        match effects[0] {
            EffectView::Report(event) => seq![event] + rest,
            _ => rest,
        }
    }
}

/// The errors that a list of effects reports, in order.
pub open spec fn diagnostics(effects: Seq<EffectView>) -> Seq<AppErrorView>
    decreases effects.len(),
{
    if effects.len() == 0 {
        seq![]
    } else {
        let rest = diagnostics(effects.drop_first());
        match effects[0] {
            EffectView::Diagnose(error) => seq![error] + rest,
            _ => rest,
        }
    }
}

/// How often a list of effects asks for the release of the connection.
pub open spec fn releases(effects: Seq<EffectView>) -> nat
    decreases effects.len(),
{
    if effects.len() == 0 {
        0
    } else {
        let rest = releases(effects.drop_first());
        match effects[0] {
            EffectView::Release => rest + 1,
            _ => rest,
        }
    }
}

/// The signals with which a stream hands over `items`, one after the other.
pub open spec fn item_signals(items: Seq<StreamItemView>) -> Seq<SignalView> {
    Seq::new(items.len(), |i: int| SignalView::Item(items[i]))
}

/// The items with which a stream hands over `frames`, one after the other.
pub open spec fn frame_items(frames: Seq<RawFrameView>) -> Seq<StreamItemView> {
    Seq::new(frames.len(), |i: int| StreamItemView::Frame(frames[i]))
}

/// Whether a phase is one in which the stream is no longer read.
pub open spec fn is_over(phase: Phase) -> bool {
    phase is Draining || phase is Stopped
}

/// A run over two lists of signals, one after the other, is the run over the
/// first followed by the run over the second.
pub proof fn lemma_run_concat(phase: Phase, first: Seq<SignalView>, second: Seq<SignalView>)
    ensures
        run(phase, first + second).0 == run(run(phase, first).0, second).0,
        run(phase, first + second).1 == run(phase, first).1 + run(run(phase, first).0, second).1,
    decreases first.len(),
{
    if first.len() == 0 {
        assert(first + second =~= second);
        assert(run(phase, first).1 + run(phase, second).1 =~= run(phase, second).1);
    } else {
        let next = step(phase, first[0]);
        assert((first + second).drop_first() =~= first.drop_first() + second);
        assert((first + second)[0] == first[0]);
        lemma_run_concat(next.0, first.drop_first(), second);
        let head = run(next.0, first.drop_first());
        let tail = run(head.0, second);
        assert(next.1 + (head.1 + tail.1) =~= (next.1 + head.1) + tail.1);
    }
}

/// The events reported by two lists of effects, one after the other.
pub proof fn lemma_reports_concat(first: Seq<EffectView>, second: Seq<EffectView>)
    ensures
        reports(first + second) == reports(first) + reports(second),
    decreases first.len(),
{
    if first.len() == 0 {
        assert(first + second =~= second);
        assert(reports(first) + reports(second) =~= reports(second));
    } else {
        assert((first + second).drop_first() =~= first.drop_first() + second);
        assert((first + second)[0] == first[0]);
        lemma_reports_concat(first.drop_first(), second);
        let rest = reports(first.drop_first());
        match first[0] {
            EffectView::Report(event) => {
                assert(seq![event] + (rest + reports(second)) =~= (seq![event] + rest) + reports(
                    second,
                ));
            },
            _ => {},
        }
    }
}

/// The errors reported by two lists of effects, one after the other.
pub proof fn lemma_diagnostics_concat(first: Seq<EffectView>, second: Seq<EffectView>)
    ensures
        diagnostics(first + second) == diagnostics(first) + diagnostics(second),
    decreases first.len(),
{
    if first.len() == 0 {
        assert(first + second =~= second);
        assert(diagnostics(first) + diagnostics(second) =~= diagnostics(second));
    } else {
        assert((first + second).drop_first() =~= first.drop_first() + second);
        assert((first + second)[0] == first[0]);
        lemma_diagnostics_concat(first.drop_first(), second);
        let rest = diagnostics(first.drop_first());
        match first[0] {
            EffectView::Diagnose(error) => {
                assert(seq![error] + (rest + diagnostics(second)) =~= (seq![error] + rest)
                    + diagnostics(second));
            },
            _ => {},
        }
    }
}

/// The releases asked for by two lists of effects, one after the other.
pub proof fn lemma_releases_concat(first: Seq<EffectView>, second: Seq<EffectView>)
    ensures
        releases(first + second) == releases(first) + releases(second),
    decreases first.len(),
{
    if first.len() == 0 {
        assert(first + second =~= second);
    } else {
        assert((first + second).drop_first() =~= first.drop_first() + second);
        assert((first + second)[0] == first[0]);
        lemma_releases_concat(first.drop_first(), second);
    }
}

/// While the stream hands over items and does not end, the pipeline keeps
/// running and calls for one effect per item, in the order of the items.
pub proof fn law_items_in_order(items: Seq<StreamItemView>)
    requires
        forall|i: int| 0 <= i < items.len() ==> !(#[trigger] items[i] is End),
    ensures
        run(Phase::Running, item_signals(items)).0 == Phase::Running,
        run(Phase::Running, item_signals(items)).1 == Seq::new(
            items.len(),
            |i: int| item_effect(items[i]),
        ),
    decreases items.len(),
{
    let signals = item_signals(items);
    if items.len() == 0 {
        assert(run(Phase::Running, signals).1 =~= Seq::new(
            items.len(),
            |i: int| item_effect(items[i]),
        ));
    } else {
        let rest = items.drop_first();
        assert(signals.drop_first() =~= item_signals(rest));
        assert(!(items[0] is End));
        assert forall|i: int| 0 <= i < rest.len() implies !(#[trigger] rest[i] is End) by {
            assert(rest[i] == items[i + 1]);
        }
        law_items_in_order(rest);
        assert(run(Phase::Running, signals).1 =~= Seq::new(
            items.len(),
            |i: int| item_effect(items[i]),
        ));
    }
}

/// Once the stream is no longer read, no signal brings the pipeline back to
/// it: the run stays over, reports no event, reports no decoding failure and
/// asks for no further release.
pub proof fn law_over_stays_over(phase: Phase, signals: Seq<SignalView>)
    requires
        is_over(phase),
    ensures
        is_over(run(phase, signals).0),
        phase is Stopped ==> run(phase, signals).0 == phase,
        reports(run(phase, signals).1) == Seq::<GithubEventView>::empty(),
        releases(run(phase, signals).1) == 0,
        forall|i: int|
            0 <= i < diagnostics(run(phase, signals).1).len() ==> !(#[trigger] diagnostics(
                run(phase, signals).1,
            )[i] is JsonError),
    decreases signals.len(),
{
    if signals.len() > 0 {
        let first = step(phase, signals[0]);
        let rest = run(first.0, signals.drop_first());
        law_over_stays_over(first.0, signals.drop_first());
        lemma_reports_concat(first.1, rest.1);
        lemma_releases_concat(first.1, rest.1);
        lemma_diagnostics_concat(first.1, rest.1);
        lemma_effects_of_step_when_over(phase, signals[0]);
        assert(reports(first.1) + reports(rest.1) =~= Seq::<GithubEventView>::empty());
    }
}

proof fn lemma_effects_of_step_when_over(phase: Phase, signal: SignalView)
    requires
        is_over(phase),
    ensures
        reports(step(phase, signal).1) == Seq::<GithubEventView>::empty(),
        releases(step(phase, signal).1) == 0,
        forall|i: int|
            0 <= i < diagnostics(step(phase, signal).1).len() ==> !(#[trigger] diagnostics(
                step(phase, signal).1,
            )[i] is JsonError),
{
    let effects = step(phase, signal).1;
    if effects.len() > 0 {
        assert(effects.len() == 1);
        assert(effects.drop_first() =~= Seq::<EffectView>::empty());
        assert(reports(effects.drop_first()) == Seq::<GithubEventView>::empty());
        assert(diagnostics(effects.drop_first()) == Seq::<AppErrorView>::empty());
        assert(releases(effects.drop_first()) == 0);
        assert(reports(effects) =~= Seq::<GithubEventView>::empty());
    }
}

proof fn lemma_all_reports(effects: Seq<EffectView>)
    requires
        forall|i: int| 0 <= i < effects.len() ==> #[trigger] effects[i] is Report,
    ensures
        reports(effects) == Seq::new(effects.len(), |i: int| effects[i]->Report_0),
        diagnostics(effects) == Seq::<AppErrorView>::empty(),
        releases(effects) == 0,
    decreases effects.len(),
{
    if effects.len() == 0 {
        assert(reports(effects) =~= Seq::new(effects.len(), |i: int| effects[i]->Report_0));
    } else {
        let rest = effects.drop_first();
        assert(effects[0] is Report);
        assert forall|i: int| 0 <= i < rest.len() implies #[trigger] rest[i] is Report by {
            assert(rest[i] == effects[i + 1]);
        }
        lemma_all_reports(rest);
        assert(reports(effects) =~= Seq::new(effects.len(), |i: int| effects[i]->Report_0));
    }
}

proof fn lemma_no_release(effects: Seq<EffectView>)
    requires
        forall|i: int| 0 <= i < effects.len() ==> !(#[trigger] effects[i] is Release),
    ensures
        releases(effects) == 0,
    decreases effects.len(),
{
    if effects.len() > 0 {
        let rest = effects.drop_first();
        assert(!(effects[0] is Release));
        assert forall|i: int| 0 <= i < rest.len() implies !(#[trigger] rest[i] is Release) by {
            assert(rest[i] == effects[i + 1]);
        }
        lemma_no_release(rest);
    }
}

proof fn lemma_single(effect: EffectView)
    ensures
        reports(seq![effect]) == match effect {
            EffectView::Report(event) => seq![event],
            _ => Seq::<GithubEventView>::empty(),
        },
        diagnostics(seq![effect]) == match effect {
            EffectView::Diagnose(error) => seq![error],
            _ => Seq::<AppErrorView>::empty(),
        },
        releases(seq![effect]) == (if effect is Release {
            1nat
        } else {
            0nat
        }),
{
    let effects = seq![effect];
    assert(effects.drop_first() =~= Seq::<EffectView>::empty());
    assert(reports(effects.drop_first()) == Seq::<GithubEventView>::empty());
    assert(diagnostics(effects.drop_first()) == Seq::<AppErrorView>::empty());
    assert(releases(effects.drop_first()) == 0);
    match effect {
        EffectView::Report(event) => {
            assert(reports(effects) =~= seq![event]);
        },
        EffectView::Diagnose(error) => {
            assert(diagnostics(effects) =~= seq![error]);
        },
        _ => {},
    }
}

/// Of frames of which one does not decode and all the others do, the running
/// pipeline reports every event but that one, in the order of the frames,
/// reports the one failure, and keeps running.
pub proof fn law_one_malformed_frame(frames: Seq<RawFrameView>, k: int)
    requires
        0 <= k < frames.len(),
        decoded(frames[k]) is Err,
        forall|i: int| 0 <= i < frames.len() && i != k ==> (#[trigger] decoded(frames[i])) is Ok,
    ensures
        run(Phase::Running, item_signals(frame_items(frames))).0 == Phase::Running,
        reports(run(Phase::Running, item_signals(frame_items(frames))).1) == Seq::new(
            (frames.len() - 1) as nat,
            |i: int| decoded(frames.remove(k)[i])->Ok_0,
        ),
        diagnostics(run(Phase::Running, item_signals(frame_items(frames))).1) == seq![
            decoded(frames[k])->Err_0,
        ],
{
    let items = frame_items(frames);
    law_items_in_order(items);
    let effects = run(Phase::Running, item_signals(items)).1;
    let n = frames.len() as int;
    assert(effects.len() == n);
    assert forall|i: int| 0 <= i < n implies effects[i] == frame_effect(frames[i]) by {
        assert(items[i] == StreamItemView::Frame(frames[i]));
    }
    let before = effects.subrange(0, k);
    let failed = seq![effects[k]];
    let after = effects.subrange(k + 1, n);
    assert(effects =~= before + (failed + after));
    assert forall|i: int| 0 <= i < before.len() implies #[trigger] before[i] is Report by {
        assert(decoded(frames[i]) is Ok);
    }
    assert forall|i: int| 0 <= i < after.len() implies #[trigger] after[i] is Report by {
        assert(decoded(frames[i + k + 1]) is Ok);
    }
    lemma_all_reports(before);
    lemma_all_reports(after);
    lemma_single(effects[k]);
    lemma_reports_concat(failed, after);
    lemma_reports_concat(before, failed + after);
    lemma_diagnostics_concat(failed, after);
    lemma_diagnostics_concat(before, failed + after);
    let expected = Seq::new(
        (frames.len() - 1) as nat,
        |i: int| decoded(frames.remove(k)[i])->Ok_0,
    );
    assert(reports(effects) =~= expected) by {
        assert(reports(effects) == reports(before) + (reports(failed) + reports(after)));
        assert(reports(effects).len() == n - 1);
        assert forall|i: int| 0 <= i < n - 1 implies reports(effects)[i] == expected[i] by {
            if i < k {
                assert(frames.remove(k)[i] == frames[i]);
                assert(before[i] == frame_effect(frames[i]));
                assert(decoded(frames[i]) is Ok);
            } else {
                assert(frames.remove(k)[i] == frames[i + 1]);
                assert(after[i - k] == frame_effect(frames[i + 1]));
                assert(decoded(frames[i + 1]) is Ok);
            }
        }
    }
    assert(diagnostics(effects) =~= seq![decoded(frames[k])->Err_0]);
}

/// A cancellation that was observed is what the wait comes to, whether or not
/// an item is ready beside it. Taken by the running pipeline it calls for the
/// shutdown notice and the release, moves the run to `Draining`, and no
/// event is reported from then on, whatever comes.
pub proof fn law_cancellation_ends_reporting(
    pending: Option<StreamItemView>,
    later: Seq<SignalView>,
)
    ensures
        arbitrated(true, pending) == Some(SignalView::Cancelled),
        step(Phase::Running, SignalView::Cancelled).0 == Phase::Draining,
        step(Phase::Running, SignalView::Cancelled).1 == seq![
            EffectView::Notice,
            EffectView::Release,
        ],
        reports(run(Phase::Running, seq![SignalView::Cancelled] + later).1)
            == Seq::<GithubEventView>::empty(),
{
    let first = seq![SignalView::Cancelled];
    let moved = step(Phase::Running, SignalView::Cancelled);
    lemma_run_single(Phase::Running, SignalView::Cancelled);
    lemma_run_concat(Phase::Running, first, later);
    law_over_stays_over(Phase::Draining, later);
    lemma_single(EffectView::Release);
    lemma_single(EffectView::Notice);
    assert(moved.1 =~= seq![EffectView::Notice] + seq![EffectView::Release]);
    lemma_reports_concat(seq![EffectView::Notice], seq![EffectView::Release]);
    lemma_reports_concat(moved.1, run(Phase::Draining, later).1);
    assert(reports(moved.1) + reports(run(Phase::Draining, later).1) =~= Seq::<
        GithubEventView,
    >::empty());
}

proof fn lemma_run_single(phase: Phase, signal: SignalView)
    ensures
        run(phase, seq![signal]) == step(phase, signal),
{
    let signals = seq![signal];
    assert(signals.drop_first() =~= Seq::<SignalView>::empty());
    let first = step(phase, signal);
    assert(run(first.0, signals.drop_first()) == (first.0, Seq::<EffectView>::empty()));
    assert(first.1 + Seq::<EffectView>::empty() =~= first.1);
}

/// No run asks for the release of the connection more than once.
pub proof fn law_release_at_most_once(phase: Phase, signals: Seq<SignalView>)
    ensures
        releases(run(phase, signals).1) <= 1,
    decreases signals.len(),
{
    if signals.len() > 0 {
        let first = step(phase, signals[0]);
        let rest = run(first.0, signals.drop_first());
        lemma_releases_concat(first.1, rest.1);
        if is_over(phase) {
            law_over_stays_over(phase, signals);
        } else if first.0 is Draining {
            law_over_stays_over(first.0, signals.drop_first());
            if signals[0] is Cancelled {
                assert(first.1 =~= seq![EffectView::Notice] + seq![EffectView::Release]);
                lemma_releases_concat(seq![EffectView::Notice], seq![EffectView::Release]);
                lemma_single(EffectView::Notice);
                lemma_single(EffectView::Release);
            } else {
                lemma_single(EffectView::Release);
            }
        } else {
            law_release_at_most_once(first.0, signals.drop_first());
            assert forall|i: int| 0 <= i < first.1.len() implies !(#[trigger] first.1[i]
                is Release) by {}
            lemma_no_release(first.1);
        }
    }
}

/// The signals of a run that is connected, reads `items`, sees the stream
/// end and releases the connection, with `release` saying how that went.
pub open spec fn clean_run(
    status: u16,
    items: Seq<StreamItemView>,
    release: SignalView,
) -> Seq<SignalView> {
    seq![SignalView::Connected { status }] + item_signals(items) + seq![
        SignalView::Item(StreamItemView::End),
        release,
    ]
}

/// A run whose stream ends by itself stops with exit status 0 and asks for
/// the release of the connection exactly once, whether or not the release
/// then fails.
pub proof fn law_clean_termination(status: u16, items: Seq<StreamItemView>, release: SignalView)
    requires
        accepted(status),
        forall|i: int| 0 <= i < items.len() ==> !(#[trigger] items[i] is End),
        release is Released || release is ReleaseFailed,
    ensures
        run(Phase::Starting, clean_run(status, items, release)).0 == (Phase::Stopped {
            clean: true,
        }),
        exit_status_of(run(Phase::Starting, clean_run(status, items, release)).0) == Some(0i32),
        releases(run(Phase::Starting, clean_run(status, items, release)).1) == 1,
{
    let opening = seq![SignalView::Connected { status }];
    let reading = item_signals(items);
    let ending = seq![SignalView::Item(StreamItemView::End)];
    let closing = seq![release];
    assert(clean_run(status, items, release) =~= opening + (reading + (ending + closing)));
    lemma_run_single(Phase::Starting, SignalView::Connected { status });
    lemma_run_single(Phase::Running, SignalView::Item(StreamItemView::End));
    lemma_run_single(Phase::Draining, release);
    law_items_in_order(items);
    lemma_run_concat(Phase::Running, ending, closing);
    lemma_run_concat(Phase::Running, reading, ending + closing);
    lemma_run_concat(Phase::Starting, opening, reading + (ending + closing));
    let read = run(Phase::Running, reading).1;
    let ended = run(Phase::Running, ending).1;
    let closed = run(Phase::Draining, closing).1;
    assert forall|i: int| 0 <= i < read.len() implies !(#[trigger] read[i] is Release) by {
        assert(!(items[i] is End));
    }
    lemma_no_release(read);
    lemma_single(EffectView::Release);
    assert(ended =~= seq![EffectView::Release]);
    assert forall|i: int| 0 <= i < closed.len() implies !(#[trigger] closed[i] is Release) by {}
    lemma_no_release(closed);
    lemma_releases_concat(ended, closed);
    lemma_releases_concat(read, ended + closed);
    let opened = run(Phase::Starting, opening).1;
    assert(opened =~= Seq::<EffectView>::empty());
    lemma_releases_concat(opened, read + (ended + closed));
}

/// Whether a signal says that the connection was not established.
pub open spec fn refuses_connection(signal: SignalView) -> bool {
    match signal {
        SignalView::ConnectionFailed(_) => true,
        SignalView::Connected { status } => !accepted(status),
        _ => false,
    }
}

/// A run whose connection is not established stops at once with exit status
/// 1. Whatever comes after, it reports no event and no decoding failure, and
/// asks for no release: there is nothing to drain.
pub proof fn law_connection_error(refusal: SignalView, later: Seq<SignalView>)
    requires
        refuses_connection(refusal),
    ensures
        step(Phase::Starting, refusal).0 == (Phase::Stopped { clean: false }),
        run(Phase::Starting, seq![refusal] + later).0 == (Phase::Stopped { clean: false }),
        exit_status_of(run(Phase::Starting, seq![refusal] + later).0) == Some(1i32),
        reports(run(Phase::Starting, seq![refusal] + later).1) == Seq::<GithubEventView>::empty(),
        releases(run(Phase::Starting, seq![refusal] + later).1) == 0,
        forall|i: int|
            0 <= i < diagnostics(run(Phase::Starting, seq![refusal] + later).1).len() ==> !(
            #[trigger] diagnostics(run(Phase::Starting, seq![refusal] + later).1)[i]
                is JsonError),
{
    let stopped = Phase::Stopped { clean: false };
    let first = step(Phase::Starting, refusal);
    let rest = run(stopped, later);
    lemma_run_single(Phase::Starting, refusal);
    lemma_run_concat(Phase::Starting, seq![refusal], later);
    law_over_stays_over(stopped, later);
    assert(first.1.len() == 1);
    assert(first.1 =~= seq![first.1[0]]);
    lemma_single(first.1[0]);
    lemma_reports_concat(first.1, rest.1);
    lemma_releases_concat(first.1, rest.1);
    lemma_diagnostics_concat(first.1, rest.1);
    assert(reports(first.1) + reports(rest.1) =~= Seq::<GithubEventView>::empty());
}

} // verus!
