//! What a word on the command line can stand for.

use vstd::prelude::*;

use crate::client::cli::numbers::{number_in, ranged, read_number, read_ranged, NumberFault};
use crate::client::wire::{
    AnimationStyle, Axis, BooleanState, BorderStyle, ContainerBehaviour, CycleDirection,
    Direction, HidingBehaviour, Layout, MatchingStrategy, MoveBehaviour, OperationBehaviour,
    QueryTarget, RuleIdentifier, Sizing, WindowKind,
};

verus! {

/// What kind of value a word has to spell.
#[derive(Debug, Clone, Copy, PartialEq, Eq, Structural)]
pub enum Kind {
    /// What to ask the daemon for, a [`QueryTarget`].
    Target,
    /// A direction, a [`Direction`].
    Direction,
    /// A way to step through a ring, a [`CycleDirection`].
    Cycle,
    /// An axis, a [`Axis`].
    Axis,
    /// Grow or shrink, a [`Sizing`].
    Sizing,
    /// On or off, a [`BooleanState`].
    State,
    /// A layout, a [`Layout`].
    Layout,
    /// What becomes of a new window, a [`ContainerBehaviour`].
    Container,
    /// What moving past a monitor edge does, a [`MoveBehaviour`].
    Crossing,
    /// How a window is taken off screen, a [`HidingBehaviour`].
    Hiding,
    /// What a command aimed at an unmanaged window does, a [`OperationBehaviour`].
    Operation,
    /// A border shape, a [`BorderStyle`].
    Border,
    /// An easing curve, a [`AnimationStyle`].
    Easing,
    /// A kind of window, a [`WindowKind`].
    Window,
    /// A window property, a [`RuleIdentifier`].
    Identifier,
    /// A way to compare, a [`MatchingStrategy`].
    Strategy,
    /// A zero-based index.
    Index,
    /// A signed 32 bit number.
    Pixels,
    /// A number from 0 to 255.
    Channel,
    /// An unsigned 64 bit number.
    Millis,
    /// An unsigned 32 bit number.
    Rate,
    /// Any text.
    Text,
    /// Any text that is not empty.
    Path,
}

/// What is wrong with a word.
#[derive(Debug, Clone, Copy, PartialEq, Eq, Structural)]
pub enum Fault {
    /// The word is empty where a value is needed.
    Nothing,
    /// The word is not one of the words that can stand here.
    NotAWord,
    /// The word is not the number that was wanted.
    Number(NumberFault),
}

/// What is wrong with a word that has to be one of a few.
pub open spec fn unless_spelled(spelled: bool, text: Seq<char>) -> Option<Fault> {
    if spelled {
        None
    } else if text.len() == 0 {
        Some(Fault::Nothing)
    } else {
        Some(Fault::NotAWord)
    }
}

/// What is wrong with a word that has to be a number.
pub open spec fn unless_read(number: Result<int, NumberFault>) -> Option<Fault> {
    match number {
        Ok(_) => None,
        Err(fault) => Some(Fault::Number(fault)),
    }
}

impl Kind {
    /// The number a word stands for, for the kinds that are numbers.
    pub open spec fn number(self, text: Seq<char>) -> Result<int, NumberFault> {
        match self {
            Kind::Index => number_in(text, 0, usize::MAX as int),
            Kind::Pixels => ranged(text, i32::MIN as int, i32::MAX as int),
            Kind::Channel => ranged(text, 0, 255),
            Kind::Millis => number_in(text, 0, u64::MAX as int),
            Kind::Rate => ranged(text, 0, u32::MAX as int),
            _ => Err(NumberFault::Digit),
        }
    }

    /// What is wrong with a word that has to be of this kind, if anything is.
    pub open spec fn fault(self, text: Seq<char>) -> Option<Fault> {
        match self {
            Kind::Target => unless_spelled(exists|v: QueryTarget| text == #[trigger] v.word(), text),
            Kind::Direction => unless_spelled(exists|v: Direction| text == #[trigger] v.word(), text),
            Kind::Cycle => unless_spelled(exists|v: CycleDirection| text == #[trigger] v.word(), text),
            Kind::Axis => unless_spelled(exists|v: Axis| text == #[trigger] v.word(), text),
            Kind::Sizing => unless_spelled(exists|v: Sizing| text == #[trigger] v.word(), text),
            Kind::State => unless_spelled(exists|v: BooleanState| text == #[trigger] v.word(), text),
            Kind::Layout => unless_spelled(exists|v: Layout| text == #[trigger] v.word(), text),
            Kind::Container => unless_spelled(exists|v: ContainerBehaviour| text == #[trigger] v.word(), text),
            Kind::Crossing => unless_spelled(exists|v: MoveBehaviour| text == #[trigger] v.word(), text),
            Kind::Hiding => unless_spelled(exists|v: HidingBehaviour| text == #[trigger] v.word(), text),
            Kind::Operation => unless_spelled(exists|v: OperationBehaviour| text == #[trigger] v.word(), text),
            Kind::Border => unless_spelled(exists|v: BorderStyle| text == #[trigger] v.word(), text),
            Kind::Easing => unless_spelled(exists|v: AnimationStyle| text == #[trigger] v.word(), text),
            Kind::Window => unless_spelled(exists|v: WindowKind| text == #[trigger] v.word(), text),
            Kind::Identifier => unless_spelled(exists|v: RuleIdentifier| text == #[trigger] v.word(), text),
            Kind::Strategy => unless_spelled(exists|v: MatchingStrategy| text == #[trigger] v.word(), text),
            Kind::Text => None,
            Kind::Path => unless_spelled(text.len() > 0, text),
            _ => unless_read(self.number(text)),
        }
    }

    /// What is wrong with a word that has to be of this kind, if anything is.
    #[must_use]
    pub fn check(self, text: &str) -> (r: Option<Fault>)
        ensures
            r == self.fault(text@),
    {
        match self {
            Kind::Target => spelled(QueryTarget::named(text).is_some(), text),
            Kind::Direction => spelled(Direction::named(text).is_some(), text),
            Kind::Cycle => spelled(CycleDirection::named(text).is_some(), text),
            Kind::Axis => spelled(Axis::named(text).is_some(), text),
            Kind::Sizing => spelled(Sizing::named(text).is_some(), text),
            Kind::State => spelled(BooleanState::named(text).is_some(), text),
            Kind::Layout => spelled(Layout::named(text).is_some(), text),
            Kind::Container => spelled(ContainerBehaviour::named(text).is_some(), text),
            Kind::Crossing => spelled(MoveBehaviour::named(text).is_some(), text),
            Kind::Hiding => spelled(HidingBehaviour::named(text).is_some(), text),
            Kind::Operation => spelled(OperationBehaviour::named(text).is_some(), text),
            Kind::Border => spelled(BorderStyle::named(text).is_some(), text),
            Kind::Easing => spelled(AnimationStyle::named(text).is_some(), text),
            Kind::Window => spelled(WindowKind::named(text).is_some(), text),
            Kind::Identifier => spelled(RuleIdentifier::named(text).is_some(), text),
            Kind::Strategy => spelled(MatchingStrategy::named(text).is_some(), text),
            Kind::Index => {
                match read_number(text, 0, usize::MAX as i128) {
                    Ok(_) => None,
                    Err(fault) => Some(Fault::Number(fault)),
                }
            },
            Kind::Pixels => read(read_ranged(text, i32::MIN as i64, i32::MAX as i64)),
            Kind::Channel => read(read_ranged(text, 0, 255)),
            Kind::Millis => {
                match read_number(text, 0, u64::MAX as i128) {
                    Ok(_) => None,
                    Err(fault) => Some(Fault::Number(fault)),
                }
            },
            Kind::Rate => read(read_ranged(text, 0, u32::MAX as i64)),
            Kind::Text => None,
            Kind::Path => spelled(!text.is_empty(), text),
        }
    }
}

fn spelled(found: bool, text: &str) -> (r: Option<Fault>)
    ensures
        r == unless_spelled(found, text@),
{
    if found {
        None
    } else if text.is_empty() {
        Some(Fault::Nothing)
    } else {
        Some(Fault::NotAWord)
    }
}

fn read(number: Result<i64, NumberFault>) -> (r: Option<Fault>)
    ensures
        r == match number {
            Ok(_) => None::<Fault>,
            Err(fault) => Some(Fault::Number(fault)),
        },
{
    match number {
        Ok(_) => None,
        Err(fault) => Some(Fault::Number(fault)),
    }
}


/// The [`QueryTarget`] a checked word spells.
pub fn target_of(text: &str) -> (r: QueryTarget)
    requires
        Kind::Target.fault(text@) is None,
    ensures
        text@ == r.word(),
{
    match QueryTarget::named(text) {
        Some(v) => v,
        None => {
            assert(false);
            QueryTarget::FocusedMonitorIndex
        },
    }
}

/// The [`Direction`] a checked word spells.
pub fn direction_of(text: &str) -> (r: Direction)
    requires
        Kind::Direction.fault(text@) is None,
    ensures
        text@ == r.word(),
{
    match Direction::named(text) {
        Some(v) => v,
        None => {
            assert(false);
            Direction::Left
        },
    }
}

/// The [`CycleDirection`] a checked word spells.
pub fn cycle_of(text: &str) -> (r: CycleDirection)
    requires
        Kind::Cycle.fault(text@) is None,
    ensures
        text@ == r.word(),
{
    match CycleDirection::named(text) {
        Some(v) => v,
        None => {
            assert(false);
            CycleDirection::Next
        },
    }
}

/// The [`Axis`] a checked word spells.
pub fn axis_of(text: &str) -> (r: Axis)
    requires
        Kind::Axis.fault(text@) is None,
    ensures
        text@ == r.word(),
{
    match Axis::named(text) {
        Some(v) => v,
        None => {
            assert(false);
            Axis::Horizontal
        },
    }
}

/// The [`Sizing`] a checked word spells.
pub fn sizing_of(text: &str) -> (r: Sizing)
    requires
        Kind::Sizing.fault(text@) is None,
    ensures
        text@ == r.word(),
{
    match Sizing::named(text) {
        Some(v) => v,
        None => {
            assert(false);
            Sizing::Increase
        },
    }
}

/// The [`BooleanState`] a checked word spells.
pub fn state_of(text: &str) -> (r: BooleanState)
    requires
        Kind::State.fault(text@) is None,
    ensures
        text@ == r.word(),
{
    match BooleanState::named(text) {
        Some(v) => v,
        None => {
            assert(false);
            BooleanState::Enable
        },
    }
}

/// The [`Layout`] a checked word spells.
pub fn layout_of(text: &str) -> (r: Layout)
    requires
        Kind::Layout.fault(text@) is None,
    ensures
        text@ == r.word(),
{
    match Layout::named(text) {
        Some(v) => v,
        None => {
            assert(false);
            Layout::Bsp
        },
    }
}

/// The [`ContainerBehaviour`] a checked word spells.
pub fn container_of(text: &str) -> (r: ContainerBehaviour)
    requires
        Kind::Container.fault(text@) is None,
    ensures
        text@ == r.word(),
{
    match ContainerBehaviour::named(text) {
        Some(v) => v,
        None => {
            assert(false);
            ContainerBehaviour::Create
        },
    }
}

/// The [`MoveBehaviour`] a checked word spells.
pub fn crossing_of(text: &str) -> (r: MoveBehaviour)
    requires
        Kind::Crossing.fault(text@) is None,
    ensures
        text@ == r.word(),
{
    match MoveBehaviour::named(text) {
        Some(v) => v,
        None => {
            assert(false);
            MoveBehaviour::Swap
        },
    }
}

/// The [`HidingBehaviour`] a checked word spells.
pub fn hiding_of(text: &str) -> (r: HidingBehaviour)
    requires
        Kind::Hiding.fault(text@) is None,
    ensures
        text@ == r.word(),
{
    match HidingBehaviour::named(text) {
        Some(v) => v,
        None => {
            assert(false);
            HidingBehaviour::Hide
        },
    }
}

/// The [`OperationBehaviour`] a checked word spells.
pub fn operation_of(text: &str) -> (r: OperationBehaviour)
    requires
        Kind::Operation.fault(text@) is None,
    ensures
        text@ == r.word(),
{
    match OperationBehaviour::named(text) {
        Some(v) => v,
        None => {
            assert(false);
            OperationBehaviour::Op
        },
    }
}

/// The [`BorderStyle`] a checked word spells.
pub fn border_of(text: &str) -> (r: BorderStyle)
    requires
        Kind::Border.fault(text@) is None,
    ensures
        text@ == r.word(),
{
    match BorderStyle::named(text) {
        Some(v) => v,
        None => {
            assert(false);
            BorderStyle::System
        },
    }
}

/// The [`AnimationStyle`] a checked word spells.
pub fn easing_of(text: &str) -> (r: AnimationStyle)
    requires
        Kind::Easing.fault(text@) is None,
    ensures
        text@ == r.word(),
{
    match AnimationStyle::named(text) {
        Some(v) => v,
        None => {
            assert(false);
            AnimationStyle::Linear
        },
    }
}

/// The [`WindowKind`] a checked word spells.
pub fn window_of(text: &str) -> (r: WindowKind)
    requires
        Kind::Window.fault(text@) is None,
    ensures
        text@ == r.word(),
{
    match WindowKind::named(text) {
        Some(v) => v,
        None => {
            assert(false);
            WindowKind::Single
        },
    }
}

/// The [`RuleIdentifier`] a checked word spells.
pub fn identifier_of(text: &str) -> (r: RuleIdentifier)
    requires
        Kind::Identifier.fault(text@) is None,
    ensures
        text@ == r.word(),
{
    match RuleIdentifier::named(text) {
        Some(v) => v,
        None => {
            assert(false);
            RuleIdentifier::Exe
        },
    }
}

/// The [`MatchingStrategy`] a checked word spells.
pub fn strategy_of(text: &str) -> (r: MatchingStrategy)
    requires
        Kind::Strategy.fault(text@) is None,
    ensures
        text@ == r.word(),
{
    match MatchingStrategy::named(text) {
        Some(v) => v,
        None => {
            assert(false);
            MatchingStrategy::Equals
        },
    }
}

/// The number a checked word stands for.
pub fn index_of(text: &str) -> (r: usize)
    requires
        Kind::Index.fault(text@) is None,
    ensures
        Kind::Index.number(text@) == Ok::<int, NumberFault>(r as int),
{
    match read_number(text, 0, usize::MAX as i128) {
        Ok(value) => value as usize,
        Err(_) => {
            assert(false);
            0
        },
    }
}

/// The number a checked word stands for.
pub fn pixels_of(text: &str) -> (r: i32)
    requires
        Kind::Pixels.fault(text@) is None,
    ensures
        Kind::Pixels.number(text@) == Ok::<int, NumberFault>(r as int),
{
    match read_ranged(text, i32::MIN as i64, i32::MAX as i64) {
        Ok(value) => value as i32,
        Err(_) => {
            assert(false);
            0
        },
    }
}

/// The number a checked word stands for.
pub fn channel_of(text: &str) -> (r: u8)
    requires
        Kind::Channel.fault(text@) is None,
    ensures
        Kind::Channel.number(text@) == Ok::<int, NumberFault>(r as int),
{
    match read_ranged(text, 0, 255) {
        Ok(value) => value as u8,
        Err(_) => {
            assert(false);
            0
        },
    }
}

/// The number a checked word stands for.
pub fn millis_of(text: &str) -> (r: u64)
    requires
        Kind::Millis.fault(text@) is None,
    ensures
        Kind::Millis.number(text@) == Ok::<int, NumberFault>(r as int),
{
    match read_number(text, 0, u64::MAX as i128) {
        Ok(value) => value as u64,
        Err(_) => {
            assert(false);
            0
        },
    }
}

/// The number a checked word stands for.
pub fn rate_of(text: &str) -> (r: u32)
    requires
        Kind::Rate.fault(text@) is None,
    ensures
        Kind::Rate.number(text@) == Ok::<int, NumberFault>(r as int),
{
    match read_ranged(text, 0, u32::MAX as i64) {
        Ok(value) => value as u32,
        Err(_) => {
            assert(false);
            0
        },
    }
}

} // verus!
