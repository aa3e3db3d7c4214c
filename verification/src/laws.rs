//! What holds of every session, proved from the model.

use vstd::prelude::*;
use crate::clock::{lemma_elapsed_spans_first_to_last, strictly_increasing, ClockState, Span};
use crate::command::{draws, occurrences, Command, KnownUniform, TextureToken, UniformValue};
use crate::model::SessionView;

verus! {

impl SessionView {
    /// The state after one frame at each timestamp of `ticks`, in order.
    pub open spec fn run_frames(self, ticks: Seq<nat>) -> SessionView
        decreases ticks.len(),
    {
        if ticks.len() == 0 {
            self
        } else {
            self.run_frames(ticks.drop_last()).after_frame(ticks.last())
        }
    }

    /// The commands of one frame at each timestamp of `ticks`, in order.
    pub open spec fn run_commands(self, ticks: Seq<nat>) -> Seq<Command>
        decreases ticks.len(),
    {
        if ticks.len() == 0 {
            Seq::empty()
        } else {
            self.run_commands(ticks.drop_last()) + self.run_frames(ticks).frame_commands()
        }
    }
}

/// A list of commands followed by one more draws once more exactly if that one draws.
proof fn lemma_draws_push(commands: Seq<Command>, next: Command)
    ensures
        draws(commands.push(next)) == draws(commands) + if next is DrawTriangles {
            1nat
        } else {
            0nat
        },
{
    assert(commands.push(next).drop_last() == commands);
}

/// A list of commands followed by one more holds `wanted` once more exactly if that one is
/// `wanted`.
proof fn lemma_occurrences_push(commands: Seq<Command>, next: Command, wanted: Command)
    ensures
        occurrences(commands.push(next), wanted) == occurrences(commands, wanted) + if next
            == wanted {
            1nat
        } else {
            0nat
        },
{
    assert(commands.push(next).drop_last() == commands);
}

/// Two lists of commands, one after the other, draw as often as both together.
proof fn lemma_draws_concat(first: Seq<Command>, second: Seq<Command>)
    ensures
        draws(first + second) == draws(first) + draws(second),
    decreases second.len(),
{
    if second.len() == 0 {
        assert(first + second == first);
    } else {
        assert((first + second).drop_last() == first + second.drop_last());
        lemma_draws_concat(first, second.drop_last());
    }
}

/// Two lists of commands, one after the other, hold `wanted` as often as both together.
proof fn lemma_occurrences_concat(first: Seq<Command>, second: Seq<Command>, wanted: Command)
    ensures
        occurrences(first + second, wanted) == occurrences(first, wanted) + occurrences(
            second,
            wanted,
        ),
    decreases second.len(),
{
    if second.len() == 0 {
        assert(first + second == first);
    } else {
        assert((first + second).drop_last() == first + second.drop_last());
        lemma_occurrences_concat(first, second.drop_last(), wanted);
    }
}

/// Every frame draws exactly once and asks for the next frame exactly once, as the last
/// thing it does, whether or not the program takes the time.
pub proof fn lemma_frame_draws_once_and_asks_once(session: SessionView)
    requires
        session.program is Some,
    ensures
        draws(session.frame_commands()) == 1,
        occurrences(session.frame_commands(), Command::RequestFrame) == 1,
        session.frame_commands().last() == Command::RequestFrame,
{
    let time = session.time_commands();
    let rest = session.draw_commands();
    let ask = Command::RequestFrame;
    lemma_draws_concat(time, rest);
    lemma_occurrences_concat(time, rest, ask);
    let e = Seq::<Command>::empty();
    assert(draws(time) == 0 && occurrences(time, ask) == 0) by {
        if time.len() > 0 {
            assert(time == e.push(time[0]));
            lemma_draws_push(e, time[0]);
            lemma_occurrences_push(e, time[0], ask);
        }
    }
    let s1 = e.push(rest[0]);
    let s2 = s1.push(rest[1]);
    let s3 = s2.push(rest[2]);
    let s4 = s3.push(rest[3]);
    let s5 = s4.push(rest[4]);
    let s6 = s5.push(rest[5]);
    assert(s6 == rest);
    lemma_draws_push(e, rest[0]);
    lemma_draws_push(s1, rest[1]);
    lemma_draws_push(s2, rest[2]);
    lemma_draws_push(s3, rest[3]);
    lemma_draws_push(s4, rest[4]);
    lemma_draws_push(s5, rest[5]);
    lemma_occurrences_push(e, rest[0], ask);
    lemma_occurrences_push(s1, rest[1], ask);
    lemma_occurrences_push(s2, rest[2], ask);
    lemma_occurrences_push(s3, rest[3], ask);
    lemma_occurrences_push(s4, rest[4], ask);
    lemma_occurrences_push(s5, rest[5], ask);
}

/// A session that can draw, given one frame at each of any timestamps, draws each of them:
/// it can still draw afterwards, has drawn exactly once and asked for the next frame exactly
/// once for each timestamp, and its clock has taken every timestamp in order.
pub proof fn lemma_one_draw_and_one_request_per_frame(session: SessionView, ticks: Seq<nat>)
    requires
        session.frame_failure() is None,
    ensures
        session.run_frames(ticks).frame_failure() is None,
        session.run_frames(ticks).clock == session.clock.run(ticks),
        draws(session.run_commands(ticks)) == ticks.len(),
        occurrences(session.run_commands(ticks), Command::RequestFrame) == ticks.len(),
    decreases ticks.len(),
{
    if ticks.len() > 0 {
        let front = ticks.drop_last();
        lemma_one_draw_and_one_request_per_frame(session, front);
        let last = session.run_frames(ticks);
        lemma_frame_draws_once_and_asks_once(last);
        lemma_draws_concat(session.run_commands(front), last.frame_commands());
        lemma_occurrences_concat(
            session.run_commands(front),
            last.frame_commands(),
            Command::RequestFrame,
        );
    }
}

/// A session whose clock stands at the first of a run of strictly increasing timestamps with
/// no time passed, and whose program takes the time, tells the program in the last of the
/// frames at those timestamps the distance from the first timestamp to the last.
pub proof fn lemma_time_uniform_spans_first_to_last(session: SessionView, ticks: Seq<nat>)
    requires
        session.wf(),
        session.frame_failure() is None,
        session.time_location is Some,
        ticks.len() > 0,
        strictly_increasing(ticks),
        session.clock == (ClockState { last_update: ticks[0], elapsed: 0 }),
        ticks.last() <= u64::MAX,
    ensures
        session.run_frames(ticks).time_commands() == seq![
            Command::SetUniform {
                program: session.generation,
                slot: session.time_location->Some_0.slot,
                value: UniformValue::Time(Span { millis: (ticks.last() - ticks[0]) as u64 }),
            },
        ],
{
    lemma_one_draw_and_one_request_per_frame(session, ticks);
    lemma_elapsed_spans_first_to_last(ticks);
    lemma_frames_keep_the_program(session, ticks);
    crate::shader::lemma_slot_of_is_first(
        session.program->Some_0.uniforms,
        KnownUniform::Time.spec_name(),
    );
}

/// Frames change nothing but the clock and the phase.
pub proof fn lemma_frames_keep_the_program(session: SessionView, ticks: Seq<nat>)
    ensures
        session.run_frames(ticks) == (SessionView {
            phase: session.run_frames(ticks).phase,
            clock: session.run_frames(ticks).clock,
            ..session
        }),
    decreases ticks.len(),
{
    if ticks.len() > 0 {
        lemma_frames_keep_the_program(session, ticks.drop_last());
    }
}

/// A program that lacks the time uniform is never told the time: a frame then holds the
/// commands that clear, draw and ask for the next frame, and no other.
pub proof fn lemma_missing_time_uniform_is_skipped(session: SessionView)
    requires
        session.wf(),
        session.program matches Some(program) && !program.uniforms.contains(
            KnownUniform::Time.spec_name(),
        ),
    ensures
        session.time_location is None,
        session.frame_commands() == session.draw_commands(),
{
    crate::shader::lemma_absent_uniform_sets_nothing(
        session.program->Some_0,
        KnownUniform::Time.spec_name(),
        UniformValue::Time(Span { millis: 0 }),
    );
}

/// How the load of a texture ends has no bearing on the frames: whether the session can
/// draw, and the commands of a frame, are the same before and after the report.
pub proof fn lemma_texture_reports_leave_the_frames_alone(
    session: SessionView,
    token: TextureToken,
    now: nat,
)
    ensures
        session.after_texture_loaded(token).frame_failure() == session.frame_failure(),
        session.after_texture_failed(token).frame_failure() == session.frame_failure(),
        session.after_texture_loaded(token).after_frame(now).frame_commands()
            == session.after_frame(now).frame_commands(),
        session.after_texture_failed(token).after_frame(now).frame_commands()
            == session.after_frame(now).frame_commands(),
{
}

/// Once a session is torn down, the end of a texture load, under whatever ticket and
/// whether it succeeded or failed, changes nothing and has no command.
pub proof fn lemma_report_after_teardown_changes_nothing(session: SessionView, token: TextureToken)
    ensures
        session.reset().after_texture_loaded(token) == session.reset(),
        session.reset().after_texture_failed(token) == session.reset(),
        session.reset().texture_commands(token) == Seq::<Command>::empty(),
{
}

/// A session waits for no other ticket than that of its latest set-up.
pub proof fn lemma_only_the_latest_token_is_awaited(session: SessionView, token: TextureToken)
    requires
        session.wf(),
        session.awaits(token),
    ensures
        token.id == session.generation,
        session.ready(),
{
}

/// The ticket of a texture load that was in flight when the session was set up anew is
/// never acted on again: not while the new set-up goes on, and not once the new program
/// stands and a new load is in flight. The report of the old load then changes nothing and
/// has no command.
pub proof fn lemma_reload_outdates_the_token(
    session: SessionView,
    token: TextureToken,
    uniforms: Seq<Seq<char>>,
    attributes: Seq<Seq<char>>,
)
    requires
        session.wf(),
        session.generation < u64::MAX,
        token.id <= session.generation,
    ensures
        !session.reloading().awaits(token),
        !session.reloading().compiled().awaits(token),
        !session.reloading().compiled().linked(uniforms, attributes).awaits(token),
        session.reloading().compiled().linked(uniforms, attributes).after_texture_loaded(token)
            == session.reloading().compiled().linked(uniforms, attributes),
        session.reloading().compiled().linked(uniforms, attributes).texture_commands(token)
            == Seq::<Command>::empty(),
{
}

/// The activation ends by asking for the first frame, once, and draws nothing.
pub proof fn lemma_activation_asks_for_the_first_frame(session: SessionView)
    requires
        session.program is Some,
    ensures
        draws(session.start_commands()) == 0,
        occurrences(session.start_commands(), Command::RequestFrame) == 1,
        session.start_commands().last() == Command::RequestFrame,
{
    let program = session.program->Some_0;
    let ask = Command::RequestFrame;
    let head = seq![
        Command::UseProgram { program: program.id },
        SessionView::position_command(program),
        SessionView::uniform_command(
            program,
            KnownUniform::CanvasSize,
            UniformValue::Size { width: session.width, height: session.height },
        ),
        SessionView::uniform_command(
            program,
            KnownUniform::Time,
            UniformValue::Time(Span { millis: crate::model::INITIAL_TIME_MILLIS }),
        ),
    ];
    let middle = match session.texture {
        Some(texture) => crate::texture::request_commands(texture.token),
        None => Seq::empty(),
    };
    let tail = seq![ask];
    lemma_draws_concat(head + middle, tail);
    lemma_draws_concat(head, middle);
    lemma_occurrences_concat(head + middle, tail, ask);
    lemma_occurrences_concat(head, middle, ask);
    let e = Seq::<Command>::empty();
    lemma_draws_push(e, ask);
    lemma_occurrences_push(e, ask, ask);
    let h1 = e.push(head[0]);
    let h2 = h1.push(head[1]);
    let h3 = h2.push(head[2]);
    let h4 = h3.push(head[3]);
    assert(h4 == head);
    lemma_draws_push(e, head[0]);
    lemma_draws_push(h1, head[1]);
    lemma_draws_push(h2, head[2]);
    lemma_draws_push(h3, head[3]);
    lemma_occurrences_push(e, head[0], ask);
    lemma_occurrences_push(h1, head[1], ask);
    lemma_occurrences_push(h2, head[2], ask);
    lemma_occurrences_push(h3, head[3], ask);
    if session.texture is Some {
        let m1 = e.push(middle[0]);
        let m2 = m1.push(middle[1]);
        let m3 = m2.push(middle[2]);
        assert(m3 == middle);
        lemma_draws_push(e, middle[0]);
        lemma_draws_push(m1, middle[1]);
        lemma_draws_push(m2, middle[2]);
        lemma_occurrences_push(e, middle[0], ask);
        lemma_occurrences_push(m1, middle[1], ask);
        lemma_occurrences_push(m2, middle[2], ask);
    }
}

} // verus!
