//! What holds of the engine whatever the world it runs in.

use vstd::prelude::*;
use crate::duration::kennel_length_of;
use crate::engine::applied;
use crate::engine::revoked;
use crate::engine::World;
use crate::healthcheck::checked;
use crate::healthcheck::duty_of;
use crate::healthcheck::passed;
use crate::healthcheck::Duty;
use crate::healthcheck::stale_in;
use crate::healthcheck::swept;
use crate::ids::lemma_decimal_reads_back;
use crate::ids::parsed_id;
use crate::ids::GuildId;
use crate::ids::ParseIdError;
use crate::ids::UserId;
use crate::lifecycle::duration_error;
use crate::lifecycle::next;
use crate::lifecycle::Action;
use crate::lifecycle::Event;
use crate::lifecycle::KennelError;
use crate::lifecycle::Lifecycle;
use crate::message::formatted_message;
use crate::message::mention;
use crate::message::message_marks;
use crate::store::has_row;
use crate::store::rows_cut_short;
use crate::store::rows_released;
use crate::text::decimal;
use crate::text::apart;
use crate::text::lemma_order_of_marks_is_free;
use crate::text::lemma_substituted_without_marks;
use crate::text::stands_at;
use crate::text::substituted;
use crate::text::substituted_from;
use crate::types::kenneling::Kenneling;
use crate::types::server::role_of;
use crate::types::server::setting_of;
use crate::types::server::Server;

verus! {

/// A kenneling of a length that is in order holds at once and ends when its
/// time is over.
///
/// In a guild that has set a kennel role, with a platform that answers and a
/// store that takes the record: right after the kenneling was applied the
/// member carries the role and the record is in force; and once `later` is
/// no earlier than the time at which it is due, releasing it, by its timer
/// or by the sweep, leaves the member without the role and the record with
/// `later` as its end.
pub proof fn law_kenneled_until_released(
    world: World,
    guild_id: GuildId,
    author_id: UserId,
    victim_id: UserId,
    time: Seq<char>,
    now: u64,
    later: u64,
)
    requires
        world.wf(),
        kennel_length_of(time) is Ok,
        role_of(world.settings, guild_id) is Some,
        world.board_online,
        world.can_insert(),
        later >= now + kennel_length_of(time)->Ok_0,
    ensures
        ({
            let (during, outcome) = applied(
                world,
                guild_id,
                author_id,
                victim_id,
                kennel_length_of(time),
                now,
            );
            &&& outcome matches Ok(kenneling)
            &&& during.wf()
            &&& kenneling.role_id == role_of(world.settings, guild_id)->Some_0
            &&& during.holds(victim_id, kenneling.role_id)
            &&& has_row(during.rows, kenneling.id) && during.rows[kenneling.id - 1] == kenneling
            &&& kenneling.active(now)
            &&& kenneling.overdue(later)
            &&& !revoked(during, kenneling, later).0.holds(victim_id, kenneling.role_id)
            &&& revoked(during, kenneling, later).0.rows[kenneling.id - 1].released_at == Some(
                later,
            )
            &&& !swept(during, later).holds(victim_id, kenneling.role_id)
            &&& swept(during, later).rows[kenneling.id - 1].released_at == Some(later)
        }),
{
}

/// A length that is no duration, or comes to less than a second, is turned
/// down with nothing granted and nothing stored.
pub proof fn law_refused_length_changes_nothing(
    world: World,
    guild_id: GuildId,
    author_id: UserId,
    victim_id: UserId,
    time: Seq<char>,
    now: u64,
)
    requires
        kennel_length_of(time) is Err,
    ensures
        applied(world, guild_id, author_id, victim_id, kennel_length_of(time), now) == (
            world,
            Err::<Kenneling, KennelError>(duration_error(kennel_length_of(time)->Err_0)),
        ),
{
}

/// To release a kenneling twice is to release it once: in every world the
/// second call changes nothing and writes nothing, and where platform and
/// store answer, neither call fails.
pub proof fn law_revoke_is_idempotent(world: World, kenneling: Kenneling, first: u64, second: u64)
    ensures
        ({
            let (once, outcome) = revoked(world, kenneling, first);
            let (twice, again) = revoked(once, kenneling, second);
            &&& twice == once
            &&& again != Ok::<bool, KennelError>(true)
            &&& world.board_online && world.store_online ==> outcome is Ok && again == Ok::<
                bool,
                KennelError,
            >(false)
        }),
{
    let (once, _) = revoked(world, kenneling, first);
    let (twice, _) = revoked(once, kenneling, second);
    assert(twice.held =~= once.held);
    assert(twice.rows =~= once.rows);
}

/// One pass writes down every kenneling that ended behind the engine's
/// back, and touches nothing else.
///
/// The pass finds a record stale where it is in force, its guild has set a
/// role, the platform answers, and the member does not carry that role. Where
/// the store answers, each stale record is ended at `now` with the time
/// served as its length and the rest as it was; every other record stays as
/// it is. The pass grants and revokes nothing.
pub proof fn law_check_records_drift(world: World, at: int, now: u64)
    requires
        0 <= at < world.rows.len(),
    ensures
        stale_in(world, world.rows[at], now) == (world.rows[at].active(now) && world.board_online
            && role_of(world.settings, world.rows[at].guild_id) is Some && !world.holds(
            world.rows[at].victim_id,
            role_of(world.settings, world.rows[at].guild_id)->Some_0,
        )),
        checked(world, now).rows.len() == world.rows.len(),
        checked(world, now).rows[at] == if world.store_online && stale_in(
            world,
            world.rows[at],
            now,
        ) {
            Kenneling {
                released_at: Some(now),
                kennel_length: world.rows[at].elapsed(now),
                ..world.rows[at]
            }
        } else {
            world.rows[at]
        },
        checked(world, now).held == world.held,
{
}

/// After one pass there is nothing left for a second: the pass at `now`,
/// run again, changes nothing.
pub proof fn law_check_settles(world: World, now: u64)
    ensures
        checked(checked(world, now), now) == checked(world, now),
{
    assert(checked(checked(world, now), now).rows =~= checked(world, now).rows);
}

/// Of a timer and a pass that reach for the same record, at most one writes
/// its end, in whichever order they come, and the end that is written is the
/// one that came first.
///
/// `kenneling` is a record of the store with no end written. The timer
/// writes where platform and store answer; the pass writes where the store
/// answers and it finds the record stale. If the timer comes first and
/// writes, the pass leaves the record alone. If the pass comes first and
/// writes, the timer writes nothing; if the pass does not write, the timer
/// writes as if there had been no pass.
pub proof fn law_one_writer_wins(world: World, kenneling: Kenneling, fired: u64, looked: u64)
    requires
        has_row(world.rows, kenneling.id),
        world.rows[kenneling.id - 1] == kenneling,
        kenneling.released_at is None,
    ensures
        ({
            let (timer_first, wrote) = revoked(world, kenneling, fired);
            let after = checked(timer_first, looked).rows[kenneling.id - 1];
            &&& wrote == Ok::<bool, KennelError>(true) <==> world.board_online
                && world.store_online
            &&& wrote == Ok::<bool, KennelError>(true) ==> after == kenneling.released(fired)
        }),
        ({
            let pass_wrote = world.store_online && stale_in(world, kenneling, looked);
            let (both, wrote) = revoked(checked(world, looked), kenneling, fired);
            let after = both.rows[kenneling.id - 1];
            &&& !(pass_wrote && wrote == Ok::<bool, KennelError>(true))
            &&& pass_wrote ==> wrote == Ok::<bool, KennelError>(false) && after
                == kenneling.cut_short(looked)
            &&& !pass_wrote ==> wrote == revoked(world, kenneling, fired).1 && after == revoked(
                world,
                kenneling,
                fired,
            ).0.rows[kenneling.id - 1]
        }),
{
}

/// The end of a record is written once. Of two writes to the same record,
/// of whichever kind, the second changes nothing if the first found the
/// record there.
pub proof fn law_end_is_written_once(
    rows: Seq<Kenneling>,
    id: i32,
    first: u64,
    second: u64,
    length: u64,
)
    requires
        has_row(rows, id),
    ensures
        rows_released(rows_released(rows, id, first), id, second) == rows_released(rows, id, first),
        rows_cut_short(rows_released(rows, id, first), id, second, length) == rows_released(
            rows,
            id,
            first,
        ),
        rows_released(rows_cut_short(rows, id, first, length), id, second) == rows_cut_short(
            rows,
            id,
            first,
            length,
        ),
        rows_cut_short(rows_cut_short(rows, id, first, length), id, second, length)
            == rows_cut_short(rows, id, first, length),
{
}

/// After the sweep at `now` no record is overdue at `now`, so that no
/// kenneling outlives its time by more than the wait between two sweeps.
pub proof fn law_sweep_leaves_none_overdue(world: World, now: u64, at: int)
    requires
        world.store_online,
        world.board_online,
        0 <= at < world.rows.len(),
    ensures
        !swept(world, now).rows[at].overdue(now),
{
}

/// After a whole pass at `now`, with store and platform answering, no
/// record is overdue, and no record in force is without the role that its
/// guild has set.
pub proof fn law_pass_leaves_nothing_undone(world: World, now: u64, at: int)
    requires
        world.store_online,
        world.board_online,
        0 <= at < world.rows.len(),
    ensures
        passed(world, now).rows.len() == world.rows.len(),
        duty_of(passed(world, now).rows[at], now) != Duty::Release,
        !stale_in(passed(world, now), passed(world, now).rows[at], now),
{
}

/// A kenneling that is over, or was given up, stays so: no event leads out
/// of such a state, and none asks for anything to be done.
pub proof fn law_settled_stays(state: Lifecycle, event: Event)
    requires
        state.settled(),
    ensures
        next(state, event) == (state, Action::Nothing),
{
}

/// Every step leaves the state in order, and a record is stored only for a
/// kenneling whose role was granted.
pub proof fn law_step_keeps_order(state: Lifecycle, event: Event)
    requires
        state.wf(),
    ensures
        next(state, event).0.wf(),
        next(state, event).1 is Insert ==> state is Pending && event is Announced,
        next(state, event).1 is Announce ==> event == (Event::Granted { done: true }),
        next(state, event).1 is Sleep ==> state is Pending && next(state, event).0 is Active,
{
}

/// A kenneling that is written as a row reads back as it was.
pub proof fn law_row_reads_back(kenneling: Kenneling)
    requires
        kenneling.wf(),
        kenneling.unwritable() is None,
    ensures
        kenneling.row().fault() is None,
        kenneling.row().kenneling() == kenneling,
{
}

/// An identifier that is written out reads back as it was.
pub proof fn law_id_reads_back(id: u64)
    ensures
        parsed_id(decimal(id as nat)) == Ok::<u64, ParseIdError>(id),
{
    lemma_decimal_reads_back(id as nat);
}

/// A message without a dollar sign holds no mark and goes out as it was
/// written.
pub proof fn law_message_without_marks_stays(
    message: Seq<char>,
    victim_id: UserId,
    author_id: UserId,
    time: Seq<char>,
    return_time: Seq<char>,
)
    requires
        !message.contains('$'),
    ensures
        formatted_message(message, victim_id, author_id, time, return_time) == message,
{
    reveal_strlit("$victim");
    reveal_strlit("$kenneler");
    reveal_strlit("$time");
    reveal_strlit("$return");
    lemma_substituted_without_marks(
        message,
        message_marks(victim_id, author_id, time, return_time),
        0,
    );
}

/// No two marks of a message stand at the same place, so that it does not
/// matter in which order they are looked for.
pub proof fn law_message_marks_do_not_clash(
    message: Seq<char>,
    at: int,
    victim_id: UserId,
    author_id: UserId,
    time: Seq<char>,
    return_time: Seq<char>,
    one: int,
    other: int,
)
    requires
        0 <= one < 4,
        0 <= other < 4,
        stands_at(message, at, message_marks(victim_id, author_id, time, return_time)[one].0),
        stands_at(message, at, message_marks(victim_id, author_id, time, return_time)[other].0),
    ensures
        one == other,
{
    reveal_strlit("$victim");
    reveal_strlit("$kenneler");
    reveal_strlit("$time");
    reveal_strlit("$return");
    let marks = message_marks(victim_id, author_id, time, return_time);
    assert(marks[one].0[1] == message.subrange(at, at + marks[one].0.len())[1]);
    assert(marks[other].0[1] == message.subrange(at, at + marks[other].0.len())[1]);
}

/// The marks of a message can be looked for in any order: a list that holds
/// the same four marks in another order fills every message in the same way.
pub proof fn law_message_marks_in_any_order(
    message: Seq<char>,
    victim_id: UserId,
    author_id: UserId,
    time: Seq<char>,
    return_time: Seq<char>,
    order: Seq<int>,
)
    requires
        order.len() == 4,
        order.no_duplicates(),
        forall|i: int| 0 <= i < 4 ==> 0 <= #[trigger] order[i] < 4,
    ensures
        substituted(
            message,
            Seq::new(
                4,
                |i: int| message_marks(victim_id, author_id, time, return_time)[order[i]],
            ),
        ) == formatted_message(message, victim_id, author_id, time, return_time),
{
    reveal_strlit("$victim");
    reveal_strlit("$kenneler");
    reveal_strlit("$time");
    reveal_strlit("$return");
    let marks = message_marks(victim_id, author_id, time, return_time);
    let other = Seq::new(4, |i: int| marks[order[i]]);
    assert forall|j: int, k: int| 0 <= j < 4 && 0 <= k < 4 && j != k implies apart(
        (#[trigger] marks[j]).0,
        (#[trigger] marks[k]).0,
    ) by {
        assert(marks[j].0[1] != marks[k].0[1]);
    }
    assert forall|j: int, k: int| 0 <= j < 4 && 0 <= k < 4 && j != k implies apart(
        (#[trigger] other[j]).0,
        (#[trigger] other[k]).0,
    ) by {
        assert(order[j] != order[k]);
        assert(apart(marks[order[j]].0, marks[order[k]].0));
    }
    assert forall|k: int| 0 <= k < 4 implies marks.contains(#[trigger] other[k]) by {
        assert(marks[order[k]] == other[k]);
    }
    assert forall|k: int| 0 <= k < 4 implies other.contains(#[trigger] marks[k]) by {
        assert(order[0] != order[1] && order[0] != order[2] && order[0] != order[3] && order[1]
            != order[2] && order[1] != order[3] && order[2] != order[3]);
        let j = if order[0] == k {
            0int
        } else if order[1] == k {
            1int
        } else if order[2] == k {
            2int
        } else {
            3int
        };
        assert(order[j] == k);
        assert(other[j] == marks[k]);
    }
    lemma_order_of_marks_is_free(message, other, marks);
}

/// What is written for a mark is not read again: a message that is one mark
/// and nothing else goes out as the value of that mark, whatever the value
/// holds.
pub proof fn law_mark_gives_its_value(
    victim_id: UserId,
    author_id: UserId,
    time: Seq<char>,
    return_time: Seq<char>,
)
    ensures
        formatted_message("$victim"@, victim_id, author_id, time, return_time) == mention(
            victim_id.0,
        ),
        formatted_message("$kenneler"@, victim_id, author_id, time, return_time) == mention(
            author_id.0,
        ),
        formatted_message("$time"@, victim_id, author_id, time, return_time) == time,
        formatted_message("$return"@, victim_id, author_id, time, return_time) == return_time,
{
    reveal_strlit("$victim");
    reveal_strlit("$kenneler");
    reveal_strlit("$time");
    reveal_strlit("$return");
    let marks = message_marks(victim_id, author_id, time, return_time);
    assert forall|k: int| 0 <= k < 4 implies substituted(#[trigger] marks[k].0, marks)
        == marks[k].1 by {
        let mark = marks[k].0;
        assert(mark.subrange(0, mark.len() as int) == mark);
        assert forall|j: int| 0 <= j < k implies !stands_at(mark, 0, (#[trigger] marks[j]).0) by {
            if stands_at(mark, 0, marks[j].0) {
                assert(mark.subrange(0, marks[j].0.len() as int)[1] == mark[1]);
            }
        }
        reveal_with_fuel(substituted_from, 6);
        assert(mark.skip(mark.len() as int) == Seq::<char>::empty());
        assert(marks[k].1 + Seq::<char>::empty() == marks[k].1);
    }
    assert(marks[0].0 == "$victim"@);
    assert(marks[1].0 == "$kenneler"@);
    assert(marks[2].0 == "$time"@);
    assert(marks[3].0 == "$return"@);
}

/// What holds for a guild is what it set last: the setting stands at a
/// place behind which no setting of that guild follows. A guild has no
/// setting only where none of them is of that guild.
pub proof fn law_last_setting_holds(settings: Seq<Server>, guild_id: GuildId)
    ensures
        match setting_of(settings, guild_id) {
            Some(server) => exists|at: int|
                0 <= at < settings.len() && #[trigger] settings[at] == server && server.guild_id
                    == guild_id && forall|later: int|
                    at < later < settings.len() ==> (#[trigger] settings[later]).guild_id
                        != guild_id,
            None => forall|at: int|
                0 <= at < settings.len() ==> (#[trigger] settings[at]).guild_id != guild_id,
        },
    decreases settings.len(),
{
    if settings.len() > 0 {
        let before = settings.drop_last();
        let last = settings.len() - 1;
        if settings.last().guild_id == guild_id {
            assert(settings[last] == settings.last());
        } else {
            law_last_setting_holds(before, guild_id);
            match setting_of(before, guild_id) {
                Some(server) => {
                    let at = choose|at: int|
                        0 <= at < before.len() && #[trigger] before[at] == server
                            && server.guild_id == guild_id && forall|later: int|
                            at < later < before.len() ==> (#[trigger] before[later]).guild_id
                                != guild_id;
                    assert(settings[at] == server);
                    assert forall|later: int| at < later < settings.len() implies (
                    #[trigger] settings[later]).guild_id != guild_id by {
                        if later < last {
                            assert(before[later] == settings[later]);
                        }
                    }
                },
                None => {
                    assert forall|at: int| 0 <= at < settings.len() implies (
                    #[trigger] settings[at]).guild_id != guild_id by {
                        if at < last {
                            assert(before[at] == settings[at]);
                        }
                    }
                },
            }
        }
    }
}

} // verus!
