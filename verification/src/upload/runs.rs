//! What holds of every course that the handling of a request can take.

use vstd::prelude::*;
use crate::generator::draw_index;
use crate::names::{
    drawn_name, draws_decide_name, extension_for, generated_name_has_shape,
    generated_names_are_the_drawn_names, is_drawn_name, other_name_has_another_path, prefix_len,
};
use crate::response::{joined, joined_differs, same_lengths};
use crate::upload::model::{
    Action, Event, Phase, action_of, follows, label_has_extension_of, name_in_hand, names_a_part,
    next_phase_drawn, notice_of, well_formed,
};

verus! {

/// Whether nothing more happens in `phase`.
pub open spec fn is_final(phase: Phase) -> bool {
    phase is Unauthorized || phase is PartFailed || phase is AllPartsDone
}

/// Whether the step number `i` of a course is one that the handling allows.
pub open spec fn step_allowed(phases: Seq<Phase>, events: Seq<Event>, i: int) -> bool {
    follows(phases[i], events[i], phases[i + 1])
}

/// Whether `phases` is a course that the handling of a request can take on
/// `events`: each phase follows the one before it on the event between
/// them.
pub open spec fn is_run(phases: Seq<Phase>, events: Seq<Event>) -> bool {
    &&& phases.len() == events.len() + 1
    &&& forall|i: int| 0 <= i < events.len() ==> #[trigger] step_allowed(phases, events, i)
}

/// Whether `phases` is the course of a whole request, from before the look
/// at its credential.
pub open spec fn is_request(phases: Seq<Phase>, events: Seq<Event>) -> bool {
    is_run(phases, events) && phases[0] is AwaitingAuth
}

/// The names held in `phase`: those of the parts stored so far.
pub open spec fn names_of(phase: Phase) -> Seq<Seq<char>> {
    match phase {
        Phase::ProcessingParts { names } => names,
        Phase::WritingPart { names, .. } => names,
        Phase::AllPartsDone { names } => names,
        _ => Seq::empty(),
    }
}

/// The names under which parts were written with success in the first `n`
/// steps of a course, in the order of the writes.
pub open spec fn names_written(phases: Seq<Phase>, events: Seq<Event>, n: int) -> Seq<Seq<char>>
    decreases n,
{
    if n <= 0 {
        Seq::empty()
    } else {
        let earlier = names_written(phases, events, n - 1);
        if phases[n - 1] is WritingPart && events[n - 1] == (Event::Written { ok: true }) {
            earlier.push(name_in_hand(phases[n - 1]))
        } else {
            earlier
        }
    }
}

/// The draws of a step decide it: with as many draws as the part's name
/// needs, the phase that follows is one, and the handling allows it.
pub proof fn drawn_step_follows(pre: Phase, event: Event, draws: Seq<u32>)
    requires
        names_a_part(pre, event) ==> draws.len() == prefix_len(extension_for(event->filename)),
    ensures
        follows(pre, event, next_phase_drawn(pre, event, draws)),
{
    if names_a_part(pre, event) {
        assert(is_drawn_name(drawn_name(event->filename, draws), event->filename));
    }
}

/// A part that cannot be read is passed over: the request stays where it
/// is, with the names it holds, and nothing is left in the log. Where it
/// awaited a part, it awaits the next one.
pub proof fn unreadable_part_is_passed_over(pre: Phase, post: Phase)
    requires
        follows(pre, Event::PartUnreadable, post),
    ensures
        post == pre,
        notice_of(pre, Event::PartUnreadable) is None,
        pre is ProcessingParts ==> action_of(post) is ReadPart,
{
}

/// A phase in which nothing more happens is kept, whatever is reported.
pub proof fn final_phase_stays(pre: Phase, event: Event, post: Phase)
    requires
        is_final(pre),
        follows(pre, event, post),
    ensures
        post == pre,
{
}

/// Once a course has reached a phase in which nothing more happens, it
/// stays in it.
pub proof fn run_stays_final(phases: Seq<Phase>, events: Seq<Event>, i: int, j: int)
    requires
        is_run(phases, events),
        0 <= i <= j < phases.len(),
        is_final(phases[i]),
    ensures
        phases[j] == phases[i],
    decreases j - i,
{
    if i < j {
        run_stays_final(phases, events, i, j - 1);
        assert(step_allowed(phases, events, j - 1));
    }
}

/// A request with an unknown credential is answered with 403 and an empty
/// body, whatever is reported afterwards: no part of it is read or written.
pub proof fn unknown_credential_is_refused(phases: Seq<Phase>, events: Seq<Event>, i: int, j: int)
    requires
        is_run(phases, events),
        0 <= i < j < phases.len(),
        phases[i] is AwaitingAuth,
        events[i] == (Event::Credential { identifier: None }),
    ensures
        phases[j] is Unauthorized,
        action_of(phases[j]) == (Action::Respond { status: 403, body: Seq::empty() }),
{
    assert(step_allowed(phases, events, i));
    run_stays_final(phases, events, i + 1, j);
}

/// A request one of whose parts could not be written is answered with 500
/// and an empty body, whatever is reported afterwards: no further part of
/// it is read or written.
pub proof fn failed_write_ends_request(phases: Seq<Phase>, events: Seq<Event>, i: int, j: int)
    requires
        is_run(phases, events),
        0 <= i < j < phases.len(),
        phases[i] is WritingPart,
        events[i] == (Event::Written { ok: false }),
    ensures
        phases[j] is PartFailed,
        action_of(phases[j]) == (Action::Respond { status: 500, body: Seq::empty() }),
{
    assert(step_allowed(phases, events, i));
    run_stays_final(phases, events, i + 1, j);
}

/// Whether step number `k` of a course is the lookup of a credential that
/// the store knows.
pub open spec fn is_known_at(phases: Seq<Phase>, events: Seq<Event>, k: int) -> bool {
    &&& phases[k] is AwaitingAuth
    &&& events[k] matches Event::Credential { identifier } && identifier is Some
}

/// Parts are read and written only for a request whose credential the
/// store knows, and only after the lookup.
pub proof fn parts_need_known_credential(phases: Seq<Phase>, events: Seq<Event>, j: int)
    requires
        is_request(phases, events),
        0 <= j < phases.len(),
        action_of(phases[j]) is ReadPart || action_of(phases[j]) is WritePart,
    ensures
        exists|k: int| 0 <= k < j && #[trigger] is_known_at(phases, events, k),
    decreases j,
{
    assert(step_allowed(phases, events, j - 1));
    let before = phases[j - 1];
    if before is AwaitingAuth {
        assert(is_known_at(phases, events, j - 1));
    } else {
        if is_final(before) {
            final_phase_stays(before, events[j - 1], phases[j]);
        }
        parts_need_known_credential(phases, events, j - 1);
    }
}

/// The credential is looked up once: a course is past the lookup as soon as
/// something has been reported, and never comes back to it.
pub proof fn awaiting_only_at_start(phases: Seq<Phase>, events: Seq<Event>, j: int)
    requires
        is_request(phases, events),
        0 <= j < phases.len(),
        phases[j] is AwaitingAuth,
    ensures
        forall|i: int| 0 <= i < j ==> !(#[trigger] events[i] is Credential),
        forall|i: int| 0 <= i <= j ==> #[trigger] phases[i] is AwaitingAuth,
    decreases j,
{
    if j >= 1 {
        assert(step_allowed(phases, events, j - 1));
        awaiting_only_at_start(phases, events, j - 1);
    }
}

/// The names that a request holds are those under which its parts were
/// written with success, in the order of the writes.
pub proof fn names_are_those_written(phases: Seq<Phase>, events: Seq<Event>, n: int)
    requires
        is_request(phases, events),
        0 <= n < phases.len(),
        phases[n] !is PartFailed,
    ensures
        names_of(phases[n]) == names_written(phases, events, n),
    decreases n,
{
    if n >= 1 {
        assert(step_allowed(phases, events, n - 1));
        if phases[n - 1] is PartFailed {
            final_phase_stays(phases[n - 1], events[n - 1], phases[n]);
        }
        names_are_those_written(phases, events, n - 1);
    }
}

/// A request all of whose parts were stored is answered with 200 and, one
/// per line, the names under which they were written.
pub proof fn stored_request_lists_names(phases: Seq<Phase>, events: Seq<Event>, n: int)
    requires
        is_request(phases, events),
        0 <= n < phases.len(),
        phases[n] is AllPartsDone,
    ensures
        action_of(phases[n]) == (Action::Respond {
            status: 200,
            body: joined(names_written(phases, events, n)),
        }),
{
    names_are_those_written(phases, events, n);
}

/// A step keeps the names generated ones.
pub proof fn step_keeps_well_formed(pre: Phase, event: Event, post: Phase)
    requires
        well_formed(pre),
        follows(pre, event, post),
    ensures
        well_formed(post),
{
    match (pre, event) {
        (Phase::ProcessingParts { .. }, Event::Part { filename }) => {
            generated_names_are_the_drawn_names(name_in_hand(post), filename);
            label_has_extension_of(filename);
        },
        (Phase::WritingPart { name, original, .. }, Event::Written { ok: true }) => {
            generated_name_has_shape(name, Some(original));
        },
        _ => {},
    }
}

/// Every name that a request holds, at any time, is a generated name.
pub proof fn run_is_well_formed(phases: Seq<Phase>, events: Seq<Event>, n: int)
    requires
        is_run(phases, events),
        well_formed(phases[0]),
        0 <= n < phases.len(),
    ensures
        well_formed(phases[n]),
    decreases n,
{
    if n >= 1 {
        run_is_well_formed(phases, events, n - 1);
        assert(step_allowed(phases, events, n - 1));
        step_keeps_well_formed(phases[n - 1], events[n - 1], phases[n]);
    }
}

/// Whether `p` and `q` are the same phase but for the names that parts
/// got: they hold as many names, of the same lengths.
pub open spec fn same_shape(p: Phase, q: Phase) -> bool {
    match (p, q) {
        (Phase::AwaitingAuth, Phase::AwaitingAuth) => true,
        (Phase::Unauthorized, Phase::Unauthorized) => true,
        (Phase::PartFailed, Phase::PartFailed) => true,
        (Phase::ProcessingParts { names: a }, Phase::ProcessingParts { names: b }) => same_lengths(
            a,
            b,
        ),
        (Phase::AllPartsDone { names: a }, Phase::AllPartsDone { names: b }) => same_lengths(a, b),
        (
            Phase::WritingPart { names: a, name: n, original: o },
            Phase::WritingPart { names: b, name: m, original: r },
        ) => same_lengths(a, b) && n.len() == m.len() && o == r,
        _ => false,
    }
}

/// Two requests that are alike but for the names of their parts stay alike
/// on the same event.
pub proof fn step_keeps_shape(p: Phase, q: Phase, event: Event, p2: Phase, q2: Phase)
    requires
        same_shape(p, q),
        follows(p, event, p2),
        follows(q, event, q2),
    ensures
        same_shape(p2, q2),
{
    match (p, q, event) {
        (
            Phase::WritingPart { names: a, name: n, .. },
            Phase::WritingPart { names: b, name: m, .. },
            Event::Written { ok: true },
        ) => {
            assert forall|j: int| 0 <= j < a.push(n).len() implies (#[trigger] a.push(n)[j]).len()
                == b.push(m)[j].len() by {
                if j < a.len() {
                    assert(a[j].len() == b[j].len());
                }
            }
        },
        _ => {},
    }
}

/// Two requests on the same events are alike at every step but for the
/// names of their parts.
pub proof fn runs_keep_shape(
    phases: Seq<Phase>,
    others: Seq<Phase>,
    events: Seq<Event>,
    n: int,
)
    requires
        is_request(phases, events),
        is_request(others, events),
        0 <= n < phases.len(),
    ensures
        same_shape(phases[n], others[n]),
    decreases n,
{
    if n >= 1 {
        runs_keep_shape(phases, others, events, n - 1);
        assert(step_allowed(phases, events, n - 1));
        assert(step_allowed(others, events, n - 1));
        step_keeps_shape(phases[n - 1], others[n - 1], events[n - 1], phases[n], others[n]);
    }
}

/// The names written are kept, in their places, by all that is written
/// later.
pub proof fn names_written_are_kept(phases: Seq<Phase>, events: Seq<Event>, m: int, n: int)
    requires
        0 <= m <= n,
    ensures
        names_written(phases, events, m).len() <= names_written(phases, events, n).len(),
        forall|j: int|
            0 <= j < names_written(phases, events, m).len() ==> #[trigger] names_written(
                phases,
                events,
                n,
            )[j] == names_written(phases, events, m)[j],
    decreases n - m,
{
    if m < n {
        names_written_are_kept(phases, events, m, n - 1);
    }
}

/// Two requests with the same credential and the same parts, all stored,
/// are answered with two different lists of names where the draws for one
/// part differ: where at one place or more the two draws select different
/// positions of the alphabet. The second request is not given the name
/// that the first one got, and its part is written to another file.
pub proof fn other_draws_give_another_answer(
    phases: Seq<Phase>,
    others: Seq<Phase>,
    events: Seq<Event>,
    k: int,
    n: int,
    draws: Seq<u32>,
    other_draws: Seq<u32>,
)
    requires
        is_request(phases, events),
        is_request(others, events),
        0 <= k,
        k + 1 < n < phases.len(),
        names_a_part(phases[k], events[k]),
        name_in_hand(phases[k + 1]) == drawn_name(events[k]->filename, draws),
        name_in_hand(others[k + 1]) == drawn_name(events[k]->filename, other_draws),
        draws.len() == other_draws.len(),
        exists|i: int|
            0 <= i < draws.len() && draw_index(#[trigger] draws[i]) != draw_index(other_draws[i]),
        events[k + 1] == (Event::Written { ok: true }),
        phases[n] is AllPartsDone,
    ensures
        action_of(phases[n]) is Respond,
        action_of(others[n]) is Respond,
        action_of(phases[n])->status == 200,
        action_of(others[n])->status == 200,
        action_of(phases[n])->body != action_of(others[n])->body,
        action_of(phases[k + 1]) is WritePart,
        action_of(others[k + 1]) is WritePart,
        action_of(phases[k + 1])->path != action_of(others[k + 1])->path,
{
    let name = name_in_hand(phases[k + 1]);
    let other = name_in_hand(others[k + 1]);
    draws_decide_name(events[k]->filename, draws, other_draws);
    assert(name != other);
    other_name_has_another_path(name, other);
    assert(step_allowed(phases, events, k));
    assert(step_allowed(others, events, k));
    runs_keep_shape(phases, others, events, k);
    runs_keep_shape(phases, others, events, k + 1);
    runs_keep_shape(phases, others, events, n);
    names_are_those_written(phases, events, k + 1);
    names_are_those_written(others, events, k + 1);
    names_are_those_written(phases, events, n);
    names_are_those_written(others, events, n);
    names_written_are_kept(phases, events, k + 2, n);
    names_written_are_kept(others, events, k + 2, n);
    let at = names_of(phases[k + 1]).len() as int;
    assert(names_written(phases, events, k + 2)[at] == name);
    assert(names_written(others, events, k + 2)[at] == other);
    assert(names_of(phases[n])[at] != names_of(others[n])[at]);
    joined_differs(names_of(phases[n]), names_of(others[n]), at);
}

} // verus!
