//! The five commands, the payload that names each, the levels each one asks
//! for, and the order in which the lines are written to get there.

use vstd::prelude::*;
use crate::signal::{Channel, Drive, Level, Line, PinWrite};
use crate::text::same_text;

verus! {

/// A motion command.
#[derive(Clone, Copy, Debug, PartialEq, Eq, Structural)]
pub enum Command {
    Forward,
    Backward,
    TurnLeft,
    TurnRight,
    Stop,
}

/// The levels a channel has when it runs forward.
pub open spec fn running_forward() -> Channel {
    Channel { forward: Level::High, reverse: Level::Low }
}

/// The levels a channel has when it runs in reverse.
pub open spec fn running_reverse() -> Channel {
    Channel { forward: Level::Low, reverse: Level::High }
}

/// The levels a channel has when it is at rest.
pub open spec fn at_rest() -> Channel {
    Channel { forward: Level::Low, reverse: Level::Low }
}

/// The two writes that bring one channel to `goal`. The line that ends low is
/// written first, so the channel never has both signals high on the way.
pub open spec fn channel_writes(forward: Line, reverse: Line, goal: Channel) -> Seq<PinWrite> {
    if goal.forward == Level::High {
        seq![
            PinWrite { line: reverse, level: goal.reverse },
            PinWrite { line: forward, level: goal.forward },
        ]
    } else {
        seq![
            PinWrite { line: forward, level: goal.forward },
            PinWrite { line: reverse, level: goal.reverse },
        ]
    }
}

/// The four writes that bring both channels to `goal`: channel A, then channel B.
pub open spec fn writes_toward(goal: Drive) -> Seq<PinWrite> {
    channel_writes(Line::AForward, Line::AReverse, goal.a) + channel_writes(
        Line::BForward,
        Line::BReverse,
        goal.b,
    )
}

/// The writes that carry out a sequence of commands, one command after another.
pub open spec fn writes_of(commands: Seq<Command>) -> Seq<PinWrite>
    decreases commands.len(),
{
    if commands.len() == 0 {
        Seq::empty()
    } else {
        writes_of(commands.drop_last()) + commands.last().spec_writes()
    }
}

/// The levels that a sequence of commands leaves behind: those that the last
/// command asks for, or the starting levels if there is no command.
pub open spec fn levels_after(start: Drive, commands: Seq<Command>) -> Drive {
    if commands.len() == 0 {
        start
    } else {
        commands.last().spec_target()
    }
}

impl Command {
    /// The command that a payload names: `W`, `S`, `A`, `D` or `STOP`. Any
    /// other payload, the empty one included, names none.
    pub open spec fn named_by(payload: Seq<char>) -> Option<Command> {
        if payload == "W"@ {
            Some(Command::Forward)
        } else if payload == "S"@ {
            Some(Command::Backward)
        } else if payload == "A"@ {
            Some(Command::TurnLeft)
        } else if payload == "D"@ {
            Some(Command::TurnRight)
        } else if payload == "STOP"@ {
            Some(Command::Stop)
        } else {
            None
        }
    }

    /// The levels that the command asks for on the four lines.
    pub open spec fn spec_target(self) -> Drive {
        match self {
            Command::Forward => Drive { a: running_forward(), b: running_forward() },
            Command::Backward => Drive { a: running_reverse(), b: running_reverse() },
            Command::TurnLeft => Drive { a: running_reverse(), b: running_forward() },
            Command::TurnRight => Drive { a: running_forward(), b: running_reverse() },
            Command::Stop => Drive { a: at_rest(), b: at_rest() },
        }
    }

    /// The writes that carry the command out.
    pub open spec fn spec_writes(self) -> Seq<PinWrite> {
        writes_toward(self.spec_target())
    }

    /// Reads a command from a payload.
    pub fn from_payload(payload: &str) -> (command: Option<Command>)
        ensures
            command == Command::named_by(payload@),
    {
        if same_text(payload, "W") {
            Some(Command::Forward)
        } else if same_text(payload, "S") {
            Some(Command::Backward)
        } else if same_text(payload, "A") {
            Some(Command::TurnLeft)
        } else if same_text(payload, "D") {
            Some(Command::TurnRight)
        } else if same_text(payload, "STOP") {
            Some(Command::Stop)
        } else {
            None
        }
    }

    /// The levels that the command asks for on the four lines.
    #[verifier::when_used_as_spec(spec_target)]
    pub fn target(self) -> (goal: Drive)
        ensures
            goal == self.spec_target(),
    {
        let forward = Channel { forward: Level::High, reverse: Level::Low };
        let reverse = Channel { forward: Level::Low, reverse: Level::High };
        let rest = Channel { forward: Level::Low, reverse: Level::Low };
        match self {
            Command::Forward => Drive { a: forward, b: forward },
            Command::Backward => Drive { a: reverse, b: reverse },
            Command::TurnLeft => Drive { a: reverse, b: forward },
            Command::TurnRight => Drive { a: forward, b: reverse },
            Command::Stop => Drive { a: rest, b: rest },
        }
    }

    /// The writes that carry the command out, in the order to perform them.
    pub fn writes(self) -> (plan: Vec<PinWrite>)
        ensures
            plan@ == self.spec_writes(),
    {
        let goal = self.target();
        let mut plan: Vec<PinWrite> = Vec::new();
        push_channel_writes(&mut plan, Line::AForward, Line::AReverse, goal.a);
        push_channel_writes(&mut plan, Line::BForward, Line::BReverse, goal.b);
        plan
    }

    /// Every command asks for levels at which neither channel has both signals high.
    pub proof fn lemma_target_is_safe(self)
        ensures
            self.spec_target().spec_is_safe(),
    {
    }

    /// Performing a command's writes, from whatever levels, ends at the levels the
    /// command asks for.
    pub proof fn lemma_writes_reach_target(self, start: Drive)
        ensures
            start.after(self.spec_writes()) == self.spec_target(),
    {
        lemma_after_four(start, self.spec_writes());
    }

    /// From safe levels, no state passed through while a command's writes are
    /// performed one by one has both signals of a channel high.
    pub proof fn lemma_writes_safe_throughout(self, start: Drive)
        requires
            start.spec_is_safe(),
        ensures
            start.safe_throughout(self.spec_writes()),
    {
        let plan = self.spec_writes();
        assert forall|done: int| 0 <= done <= plan.len() implies (#[trigger] start.after(
            plan.take(done),
        )).spec_is_safe() by {
            lemma_after_four(start, plan.take(done));
        }
    }
}

/// The five payloads name five different commands, and the empty payload none.
pub proof fn lemma_payloads_name_commands()
    ensures
        Command::named_by("W"@) == Some(Command::Forward),
        Command::named_by("S"@) == Some(Command::Backward),
        Command::named_by("A"@) == Some(Command::TurnLeft),
        Command::named_by("D"@) == Some(Command::TurnRight),
        Command::named_by("STOP"@) == Some(Command::Stop),
        Command::named_by(Seq::empty()) is None,
{
    reveal_strlit("W");
    reveal_strlit("S");
    reveal_strlit("A");
    reveal_strlit("D");
    reveal_strlit("STOP");
    assert("W"@[0] == 'W' && "S"@[0] == 'S' && "A"@[0] == 'A' && "D"@[0] == 'D');
    assert("W"@.len() == 1 && "S"@.len() == 1 && "A"@.len() == 1 && "D"@.len() == 1);
    assert("STOP"@.len() == 4);
    assert(Seq::<char>::empty().len() == 0);
}

/// Whatever commands are carried out in whatever order, starting from safe
/// levels, no channel has both signals high at any moment, not even between two
/// writes of one command, and the levels at the end are those of the last command.
pub proof fn lemma_commands_safe_throughout(start: Drive, commands: Seq<Command>)
    requires
        start.spec_is_safe(),
    ensures
        start.safe_throughout(writes_of(commands)),
        start.after(writes_of(commands)) == levels_after(start, commands),
        levels_after(start, commands).spec_is_safe(),
    decreases commands.len(),
{
    if commands.len() == 0 {
        assert(writes_of(commands).take(0) =~= writes_of(commands));
    } else {
        let earlier = commands.drop_last();
        let last = commands.last();
        lemma_commands_safe_throughout(start, earlier);
        let reached = start.after(writes_of(earlier));
        last.lemma_writes_safe_throughout(reached);
        last.lemma_writes_reach_target(reached);
        start.lemma_safe_throughout_joined(writes_of(earlier), last.spec_writes());
        start.lemma_after_joined(writes_of(earlier), last.spec_writes());
    }
}

/// Carrying out a command a second time, `Stop` in particular, changes nothing:
/// the levels after the writes of two such commands in a row are the levels
/// after the writes of one.
pub proof fn lemma_repeating_changes_nothing(start: Drive, command: Command)
    ensures
        start.after(command.spec_writes()).after(command.spec_writes()) == start.after(
            command.spec_writes(),
        ),
{
    command.lemma_writes_reach_target(start);
    command.lemma_writes_reach_target(start.after(command.spec_writes()));
}

/// Appends the two writes for one channel to `plan`.
fn push_channel_writes(plan: &mut Vec<PinWrite>, forward: Line, reverse: Line, goal: Channel)
    ensures
        final(plan)@ == old(plan)@ + channel_writes(forward, reverse, goal),
{
    if goal.forward == Level::High {
        plan.push(PinWrite { line: reverse, level: goal.reverse });
        plan.push(PinWrite { line: forward, level: goal.forward });
    } else {
        plan.push(PinWrite { line: forward, level: goal.forward });
        plan.push(PinWrite { line: reverse, level: goal.reverse });
    }
    assert(plan@ =~= old(plan)@ + channel_writes(forward, reverse, goal));
}

/// Unfolds `after` on a sequence of at most four writes.
proof fn lemma_after_four(start: Drive, writes: Seq<PinWrite>)
    requires
        writes.len() <= 4,
    ensures
        writes.len() == 0 ==> start.after(writes) == start,
        writes.len() == 1 ==> start.after(writes) == start.spec_with(writes[0]),
        writes.len() == 2 ==> start.after(writes) == start.spec_with(writes[0]).spec_with(
            writes[1],
        ),
        writes.len() == 3 ==> start.after(writes) == start.spec_with(writes[0]).spec_with(
            writes[1],
        ).spec_with(writes[2]),
        writes.len() == 4 ==> start.after(writes) == start.spec_with(writes[0]).spec_with(
            writes[1],
        ).spec_with(writes[2]).spec_with(writes[3]),
    decreases writes.len(),
{
    if writes.len() > 0 {
        lemma_after_four(start, writes.drop_last());
    }
}

} // verus!
