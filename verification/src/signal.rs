//! The four digital output lines of the motor driver and the levels they carry.

use vstd::prelude::*;

verus! {

/// Level of one digital output line.
#[derive(Clone, Copy, Debug, PartialEq, Eq, Structural)]
pub enum Level {
    Low,
    High,
}

/// One of the four output lines: a forward-enable and a reverse-enable line for
/// each of the two motor channels.
#[derive(Clone, Copy, Debug, PartialEq, Eq, Structural)]
pub enum Line {
    AForward,
    AReverse,
    BForward,
    BReverse,
}

/// The two signals of one motor channel.
#[derive(Clone, Copy, Debug, PartialEq, Eq, Structural)]
pub struct Channel {
    pub forward: Level,
    pub reverse: Level,
}

/// The levels of all four lines: channel A and channel B.
#[derive(Clone, Copy, Debug, PartialEq, Eq, Structural)]
pub struct Drive {
    pub a: Channel,
    pub b: Channel,
}

/// An instruction to put one line at one level.
#[derive(Clone, Copy, Debug, PartialEq, Eq, Structural)]
pub struct PinWrite {
    pub line: Line,
    pub level: Level,
}

impl Line {
    /// Number of the platform pin behind this line.
    pub open spec fn spec_pin(self) -> u8 {
        match self {
            Line::AForward => 17,
            Line::AReverse => 18,
            Line::BForward => 27,
            Line::BReverse => 22,
        }
    }

    /// Number of the platform pin behind this line.
    #[verifier::when_used_as_spec(spec_pin)]
    pub fn pin(self) -> (number: u8)
        ensures
            number == self.spec_pin(),
    {
        match self {
            Line::AForward => 17,
            Line::AReverse => 18,
            Line::BForward => 27,
            Line::BReverse => 22,
        }
    }

    /// No two lines share a pin.
    pub proof fn lemma_pins_distinct(first: Line, second: Line)
        ensures
            first.spec_pin() == second.spec_pin() <==> first == second,
    {
    }
}

impl Channel {
    /// A channel is safe unless both of its signals are high.
    pub open spec fn spec_is_safe(self) -> bool {
        !(self.forward == Level::High && self.reverse == Level::High)
    }

    /// Whether the two signals are not both high.
    #[verifier::when_used_as_spec(spec_is_safe)]
    pub fn is_safe(self) -> (safe: bool)
        ensures
            safe == self.spec_is_safe(),
    {
        !(self.forward == Level::High && self.reverse == Level::High)
    }
}

impl Drive {
    /// All four lines low.
    pub open spec fn spec_idle() -> Drive {
        Drive {
            a: Channel { forward: Level::Low, reverse: Level::Low },
            b: Channel { forward: Level::Low, reverse: Level::Low },
        }
    }

    /// All four lines low.
    #[verifier::when_used_as_spec(spec_idle)]
    pub fn idle() -> (drive: Drive)
        ensures
            drive == Drive::spec_idle(),
    {
        Drive {
            a: Channel { forward: Level::Low, reverse: Level::Low },
            b: Channel { forward: Level::Low, reverse: Level::Low },
        }
    }

    /// Both channels are safe.
    pub open spec fn spec_is_safe(self) -> bool {
        self.a.spec_is_safe() && self.b.spec_is_safe()
    }

    /// Whether neither channel has both signals high.
    #[verifier::when_used_as_spec(spec_is_safe)]
    pub fn is_safe(self) -> (safe: bool)
        ensures
            safe == self.spec_is_safe(),
    {
        self.a.is_safe() && self.b.is_safe()
    }

    /// Level of one line.
    pub open spec fn spec_level(self, line: Line) -> Level {
        match line {
            Line::AForward => self.a.forward,
            Line::AReverse => self.a.reverse,
            Line::BForward => self.b.forward,
            Line::BReverse => self.b.reverse,
        }
    }

    /// Level of one line.
    #[verifier::when_used_as_spec(spec_level)]
    pub fn level(self, line: Line) -> (level: Level)
        ensures
            level == self.spec_level(line),
    {
        match line {
            Line::AForward => self.a.forward,
            Line::AReverse => self.a.reverse,
            Line::BForward => self.b.forward,
            Line::BReverse => self.b.reverse,
        }
    }

    /// The levels after one write: the written line changes, the others stay.
    pub open spec fn spec_with(self, write: PinWrite) -> Drive {
        match write.line {
            Line::AForward => Drive {
                a: Channel { forward: write.level, reverse: self.a.reverse },
                b: self.b,
            },
            Line::AReverse => Drive {
                a: Channel { forward: self.a.forward, reverse: write.level },
                b: self.b,
            },
            Line::BForward => Drive {
                a: self.a,
                b: Channel { forward: write.level, reverse: self.b.reverse },
            },
            Line::BReverse => Drive {
                a: self.a,
                b: Channel { forward: self.b.forward, reverse: write.level },
            },
        }
    }

    /// The levels after one write.
    #[verifier::when_used_as_spec(spec_with)]
    pub fn with(self, write: PinWrite) -> (drive: Drive)
        ensures
            drive == self.spec_with(write),
    {
        match write.line {
            Line::AForward => Drive {
                a: Channel { forward: write.level, reverse: self.a.reverse },
                b: self.b,
            },
            Line::AReverse => Drive {
                a: Channel { forward: self.a.forward, reverse: write.level },
                b: self.b,
            },
            Line::BForward => Drive {
                a: self.a,
                b: Channel { forward: write.level, reverse: self.b.reverse },
            },
            Line::BReverse => Drive {
                a: self.a,
                b: Channel { forward: self.b.forward, reverse: write.level },
            },
        }
    }

    /// The levels after a sequence of writes, applied first to last.
    pub open spec fn after(self, writes: Seq<PinWrite>) -> Drive
        decreases writes.len(),
    {
        if writes.len() == 0 {
            self
        } else {
            self.after(writes.drop_last()).spec_with(writes.last())
        }
    }

    /// Every state passed through while the writes are applied one by one,
    /// the first and the last included, is safe.
    pub open spec fn safe_throughout(self, writes: Seq<PinWrite>) -> bool {
        forall|done: int|
            0 <= done <= writes.len() ==> (#[trigger] self.after(writes.take(done))).spec_is_safe()
    }

    /// Applying two sequences of writes in turn is applying them joined.
    pub proof fn lemma_after_joined(self, first: Seq<PinWrite>, second: Seq<PinWrite>)
        ensures
            self.after(first + second) == self.after(first).after(second),
        decreases second.len(),
    {
        if second.len() == 0 {
            assert(first + second =~= first);
        } else {
            assert((first + second).drop_last() =~= first + second.drop_last());
            assert((first + second).last() == second.last());
            self.lemma_after_joined(first, second.drop_last());
        }
    }

    /// If the first writes are safe throughout, and the second are safe
    /// throughout from where the first end, then so are the two joined.
    pub proof fn lemma_safe_throughout_joined(self, first: Seq<PinWrite>, second: Seq<PinWrite>)
        requires
            self.safe_throughout(first),
            self.after(first).safe_throughout(second),
        ensures
            self.safe_throughout(first + second),
    {
        let joined = first + second;
        assert forall|done: int| 0 <= done <= joined.len() implies (#[trigger] self.after(
            joined.take(done),
        )).spec_is_safe() by {
            if done <= first.len() {
                assert(joined.take(done) =~= first.take(done));
            } else {
                let rest = done - first.len();
                assert(joined.take(done) =~= first + second.take(rest));
                self.lemma_after_joined(first, second.take(rest));
                assert(self.after(first).after(second.take(rest)).spec_is_safe());
            }
        }
    }

    /// A write changes the line it names to the level it names and no other line.
    pub proof fn lemma_write_touches_one_line(self, write: PinWrite, line: Line)
        ensures
            self.spec_with(write).spec_level(line) == if line == write.line {
                write.level
            } else {
                self.spec_level(line)
            },
    {
    }
}

} // verus!
