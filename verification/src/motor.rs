//! The actuator: the one owner of the motor channel state.
//!
//! A controller does not touch the platform itself. Each operation moves the
//! channel state to the levels its command asks for and hands back the line
//! writes that carry the move out, in the order in which to perform them. The
//! caller holds the controller exclusively for as long as it takes to perform
//! those writes, so that the four lines change as one step.
//!
//! A controller made for a platform without the hardware is inert: it offers
//! the same operations, and each of them does nothing.

use vstd::prelude::*;
use crate::command::Command;
use crate::signal::{Drive, Line, PinWrite};

verus! {

/// What the platform answered when it was asked for exclusive use of one line.
#[derive(Clone, Copy, Debug, PartialEq, Eq, Structural)]
pub enum Claim {
    Granted,
    AlreadyOwned,
    PermissionDenied,
    DeviceAbsent,
}

/// Why a line could not be claimed.
#[derive(Clone, Copy, Debug, PartialEq, Eq, Structural)]
pub enum ClaimFailure {
    AlreadyOwned,
    PermissionDenied,
    DeviceAbsent,
}

/// A line that the controller needs could not be claimed.
#[derive(Clone, Copy, Debug, PartialEq, Eq, Structural)]
pub struct HardwareInitError {
    pub line: Line,
    pub failure: ClaimFailure,
}

impl Claim {
    /// The failure that the claim reports, if it was not granted.
    pub open spec fn spec_failure(self) -> Option<ClaimFailure> {
        match self {
            Claim::Granted => None,
            Claim::AlreadyOwned => Some(ClaimFailure::AlreadyOwned),
            Claim::PermissionDenied => Some(ClaimFailure::PermissionDenied),
            Claim::DeviceAbsent => Some(ClaimFailure::DeviceAbsent),
        }
    }

    /// The failure that the claim reports, if it was not granted.
    #[verifier::when_used_as_spec(spec_failure)]
    pub fn failure(self) -> (failure: Option<ClaimFailure>)
        ensures
            failure == self.spec_failure(),
    {
        match self {
            Claim::Granted => None,
            Claim::AlreadyOwned => Some(ClaimFailure::AlreadyOwned),
            Claim::PermissionDenied => Some(ClaimFailure::PermissionDenied),
            Claim::DeviceAbsent => Some(ClaimFailure::DeviceAbsent),
        }
    }
}

/// The error for the first line, in the order A forward, A reverse, B forward,
/// B reverse, whose claim was not granted.
pub open spec fn first_refusal(
    a_forward: Claim,
    a_reverse: Claim,
    b_forward: Claim,
    b_reverse: Claim,
) -> Option<HardwareInitError> {
    if let Some(failure) = a_forward.spec_failure() {
        Some(HardwareInitError { line: Line::AForward, failure })
    } else if let Some(failure) = a_reverse.spec_failure() {
        Some(HardwareInitError { line: Line::AReverse, failure })
    } else if let Some(failure) = b_forward.spec_failure() {
        Some(HardwareInitError { line: Line::BForward, failure })
    } else if let Some(failure) = b_reverse.spec_failure() {
        Some(HardwareInitError { line: Line::BReverse, failure })
    } else {
        None
    }
}

/// Drives two motors through four output lines.
#[derive(Debug)]
pub struct MotorController {
    drive: Drive,
    inert: bool,
}

impl View for MotorController {
    type V = Drive;

    /// The levels that the lines were last told to take.
    closed spec fn view(&self) -> Drive {
        self.drive
    }
}

impl MotorController {
    /// Whether the controller has no lines behind it.
    pub closed spec fn spec_is_inert(&self) -> bool {
        self.inert
    }

    /// The invariant of a controller: no channel has both signals high, and a
    /// controller with no lines behind it has every level low.
    pub open spec fn well_formed(&self) -> bool {
        &&& self@.spec_is_safe()
        &&& self.spec_is_inert() ==> self@ == Drive::spec_idle()
    }

    #[verifier::type_invariant]
    spec fn always_well_formed(&self) -> bool {
        self.well_formed()
    }

    /// The writes that an operation hands back for `command`: the command's
    /// writes, or none where no lines are behind the controller.
    pub open spec fn issued(&self, command: Command) -> Seq<PinWrite> {
        if self.spec_is_inert() {
            Seq::empty()
        } else {
            command.spec_writes()
        }
    }

    /// The controller after it has carried out `command`. With lines behind it,
    /// its levels are those that the command asks for; with none, it is as it
    /// was.
    pub closed spec fn obeying(self, command: Command) -> MotorController {
        if self.inert {
            self
        } else {
            MotorController { drive: command.spec_target(), inert: false }
        }
    }

    /// The controller after it has carried out a sequence of commands in order.
    pub open spec fn obeying_all(self, commands: Seq<Command>) -> MotorController
        decreases commands.len(),
    {
        if commands.len() == 0 {
            self
        } else {
            self.obeying_all(commands.drop_last()).obeying(commands.last())
        }
    }

    /// Makes a controller for four lines that the platform was asked for. It
    /// exists only if all four were granted, and starts with every line low.
    pub fn new(a_forward: Claim, a_reverse: Claim, b_forward: Claim, b_reverse: Claim) -> (made:
        Result<MotorController, HardwareInitError>)
        ensures
            match made {
                Ok(controller) => {
                    &&& first_refusal(a_forward, a_reverse, b_forward, b_reverse) is None
                    &&& controller@ == Drive::spec_idle()
                    &&& !controller.spec_is_inert()
                    &&& controller.well_formed()
                },
                Err(error) => first_refusal(a_forward, a_reverse, b_forward, b_reverse) == Some(
                    error,
                ),
            },
    {
        if let Some(failure) = a_forward.failure() {
            return Err(HardwareInitError { line: Line::AForward, failure });
        }
        if let Some(failure) = a_reverse.failure() {
            return Err(HardwareInitError { line: Line::AReverse, failure });
        }
        if let Some(failure) = b_forward.failure() {
            return Err(HardwareInitError { line: Line::BForward, failure });
        }
        if let Some(failure) = b_reverse.failure() {
            return Err(HardwareInitError { line: Line::BReverse, failure });
        }
        Ok(MotorController { drive: Drive::idle(), inert: false })
    }

    /// Makes a controller with no lines behind it, for a platform without the
    /// hardware. Its operations do nothing: they change no level and issue no
    /// writes.
    pub fn inert() -> (controller: MotorController)
        ensures
            controller@ == Drive::spec_idle(),
            controller.spec_is_inert(),
            controller.well_formed(),
    {
        MotorController { drive: Drive::idle(), inert: true }
    }

    /// The levels that the lines were last told to take.
    pub fn drive(&self) -> (drive: Drive)
        ensures
            drive == self@,
    {
        self.drive
    }

    /// Whether the controller has no lines behind it.
    #[verifier::when_used_as_spec(spec_is_inert)]
    pub fn is_inert(&self) -> (inert: bool)
        ensures
            inert == self.spec_is_inert(),
    {
        self.inert
    }

    /// Carries out one command. A controller with lines behind it takes the
    /// levels that the command asks for and hands back the writes that carry
    /// it out; one with none stays as it is and hands back no writes.
    pub fn dispatch(&mut self, command: Command) -> (writes: Vec<PinWrite>)
        ensures
            *final(self) == old(self).obeying(command),
            old(self).spec_is_inert() ==> *final(self) == *old(self),
            !old(self).spec_is_inert() ==> final(self)@ == command.spec_target(),
            final(self).spec_is_inert() == old(self).spec_is_inert(),
            final(self).well_formed(),
            writes@ == old(self).issued(command),
    {
        proof {
            use_type_invariant(&*self);
            command.lemma_target_is_safe();
        }
        if self.inert {
            Vec::new()
        } else {
            self.drive = command.target();
            command.writes()
        }
    }

    /// Both motors forward, where lines are behind the controller.
    pub fn forward(&mut self) -> (writes: Vec<PinWrite>)
        ensures
            *final(self) == old(self).obeying(Command::Forward),
            old(self).spec_is_inert() ==> *final(self) == *old(self),
            !old(self).spec_is_inert() ==> final(self)@ == Command::Forward.spec_target(),
            final(self).spec_is_inert() == old(self).spec_is_inert(),
            final(self).well_formed(),
            writes@ == old(self).issued(Command::Forward),
    {
        self.dispatch(Command::Forward)
    }

    /// Both motors backward, where lines are behind the controller.
    pub fn backward(&mut self) -> (writes: Vec<PinWrite>)
        ensures
            *final(self) == old(self).obeying(Command::Backward),
            old(self).spec_is_inert() ==> *final(self) == *old(self),
            !old(self).spec_is_inert() ==> final(self)@ == Command::Backward.spec_target(),
            final(self).spec_is_inert() == old(self).spec_is_inert(),
            final(self).well_formed(),
            writes@ == old(self).issued(Command::Backward),
    {
        self.dispatch(Command::Backward)
    }

    /// Motor A backward and motor B forward, where lines are behind the controller.
    pub fn turn_left(&mut self) -> (writes: Vec<PinWrite>)
        ensures
            *final(self) == old(self).obeying(Command::TurnLeft),
            old(self).spec_is_inert() ==> *final(self) == *old(self),
            !old(self).spec_is_inert() ==> final(self)@ == Command::TurnLeft.spec_target(),
            final(self).spec_is_inert() == old(self).spec_is_inert(),
            final(self).well_formed(),
            writes@ == old(self).issued(Command::TurnLeft),
    {
        self.dispatch(Command::TurnLeft)
    }

    /// Motor A forward and motor B backward, where lines are behind the controller.
    pub fn turn_right(&mut self) -> (writes: Vec<PinWrite>)
        ensures
            *final(self) == old(self).obeying(Command::TurnRight),
            old(self).spec_is_inert() ==> *final(self) == *old(self),
            !old(self).spec_is_inert() ==> final(self)@ == Command::TurnRight.spec_target(),
            final(self).spec_is_inert() == old(self).spec_is_inert(),
            final(self).well_formed(),
            writes@ == old(self).issued(Command::TurnRight),
    {
        self.dispatch(Command::TurnRight)
    }

    /// Both motors at rest, where lines are behind the controller.
    pub fn stop(&mut self) -> (writes: Vec<PinWrite>)
        ensures
            *final(self) == old(self).obeying(Command::Stop),
            old(self).spec_is_inert() ==> *final(self) == *old(self),
            !old(self).spec_is_inert() ==> final(self)@ == Command::Stop.spec_target(),
            final(self).spec_is_inert() == old(self).spec_is_inert(),
            final(self).well_formed(),
            writes@ == old(self).issued(Command::Stop),
    {
        self.dispatch(Command::Stop)
    }
}

/// Whether `merged` holds the commands of `first` and of `second`, each in its
/// own order, mixed in any way.
pub open spec fn interleaves(merged: Seq<Command>, first: Seq<Command>, second: Seq<Command>) -> bool
    decreases merged.len(),
{
    if merged.len() == 0 {
        first.len() == 0 && second.len() == 0
    } else {
        ||| {
            &&& first.len() > 0
            &&& first.last() == merged.last()
            &&& interleaves(merged.drop_last(), first.drop_last(), second)
        }
        ||| {
            &&& second.len() > 0
            &&& second.last() == merged.last()
            &&& interleaves(merged.drop_last(), first, second.drop_last())
        }
    }
}

/// On a controller with lines behind it a command sets all four lines: the
/// levels afterwards are those in the command's row of the table, whatever
/// they were before. On a controller with none a command is a no-op. Either
/// way the invariant is kept.
pub proof fn lemma_obeying_sets_levels(before: MotorController, command: Command)
    ensures
        !before.spec_is_inert() ==> before.obeying(command)@ == command.spec_target(),
        before.spec_is_inert() ==> before.obeying(command) == before,
        before.obeying(command).spec_is_inert() == before.spec_is_inert(),
        before.well_formed() ==> before.obeying(command).well_formed(),
{
}

/// The invariant holds in every state that the operations reach: after any
/// sequence of commands, in whatever order several sessions issued them, no
/// channel has both signals high. With lines behind the controller the levels
/// are then those of the last command; with none the controller is as it was.
pub proof fn lemma_invariant_holds_after_any_commands(
    before: MotorController,
    commands: Seq<Command>,
)
    requires
        before.well_formed(),
    ensures
        before.obeying_all(commands).well_formed(),
        before.obeying_all(commands).spec_is_inert() == before.spec_is_inert(),
        commands.len() > 0 && !before.spec_is_inert() ==> before.obeying_all(commands)@
            == commands.last().spec_target(),
        commands.len() == 0 || before.spec_is_inert() ==> before.obeying_all(commands) == before,
{
    lemma_last_command_decides(before, commands);
}

/// Carrying out `Stop` twice in a row leaves the controller as carrying it out
/// once does; the same holds of every command.
pub proof fn lemma_repeated_command_is_idempotent(before: MotorController, command: Command)
    ensures
        before.obeying(command).obeying(command) == before.obeying(command),
        before.obeying(Command::Stop).obeying(Command::Stop) == before.obeying(Command::Stop),
{
}

/// When two sessions each issue their commands in order and both end with the
/// same command, the controller ends as after that command alone, however the
/// two sequences were interleaved: with lines behind it, at that command's
/// levels. Two sessions that each send forward and then stop leave it stopped.
pub proof fn lemma_interleaving_ends_with_shared_last(
    before: MotorController,
    merged: Seq<Command>,
    first: Seq<Command>,
    second: Seq<Command>,
)
    requires
        interleaves(merged, first, second),
        first.len() > 0,
        second.len() > 0,
        first.last() == second.last(),
    ensures
        before.obeying_all(merged) == before.obeying(first.last()),
        !before.spec_is_inert() ==> before.obeying_all(merged)@ == first.last().spec_target(),
        before.spec_is_inert() ==> before.obeying_all(merged) == before,
{
    lemma_last_command_decides(before, merged);
}

/// After a sequence of commands the controller is as after the last one alone.
proof fn lemma_last_command_decides(before: MotorController, commands: Seq<Command>)
    ensures
        commands.len() > 0 ==> before.obeying_all(commands) == before.obeying(commands.last()),
        commands.len() == 0 ==> before.obeying_all(commands) == before,
    decreases commands.len(),
{
    if commands.len() > 0 {
        lemma_last_command_decides(before, commands.drop_last());
    }
}

} // verus!
