//! The small enums a command is made of.
//!
//! Every one of them has one kebab-case spelling, the same on the wire and on
//! the command line.

use vstd::prelude::*;

use crate::text::{append, lower, lowered, owned, same};

verus! {

/// Returned when a string does not name a variant of one of the wire enums.
#[derive(Debug, Clone, PartialEq, Eq)]
pub struct ParseEnumError {
    /// Name of the enum that was being parsed.
    pub kind: &'static str,
    /// The input that did not match.
    pub value: String,
}

impl ParseEnumError {
    /// What the error says: "`value` is not a valid kind".
    pub open spec fn message(self) -> Seq<char> {
        "`"@ + self.value@ + "` is not a valid "@ + self.kind@
    }

    /// What the error says.
    #[must_use]
    pub fn to_string(&self) -> (r: String)
        ensures
            r@ == self.message(),
    {
        let mut r = owned("`");
        append(&mut r, self.value.as_str());
        append(&mut r, "` is not a valid ");
        append(&mut r, self.kind);
        r
    }
}

/// A spatial direction, used for focus, movement and stacking.
#[derive(Debug, Clone, Copy, PartialEq, Eq, Hash, Structural)]
pub enum Direction {
    /// Spelled `left`.
    Left,
    /// Spelled `right`.
    Right,
    /// Spelled `up`.
    Up,
    /// Spelled `down`.
    Down,
}

impl Direction {
    /// The kebab-case spelling used on the wire and on the command line.
    pub open spec fn word(self) -> Seq<char> {
        match self {
            Direction::Left => "left"@,
            Direction::Right => "right"@,
            Direction::Up => "up"@,
            Direction::Down => "down"@,
        }
    }

    /// The kebab-case spelling used on the wire and on the command line.
    #[must_use]
    pub fn as_str(self) -> (r: &'static str)
        ensures
            r@ == self.word(),
    {
        match self {
            Direction::Left => "left",
            Direction::Right => "right",
            Direction::Up => "up",
            Direction::Down => "down",
        }
    }

    /// Every variant, in declaration order.
    pub const ALL: [Self; 4] = [Direction::Left, Direction::Right, Direction::Up, Direction::Down];

    /// The variant spelled exactly like `s`.
    #[must_use]
    pub fn named(s: &str) -> (r: Option<Self>)
        ensures
            match r {
                Some(v) => s@ == v.word(),
                None => forall|v: Self| s@ != #[trigger] v.word(),
            },
    {
        if same(s, "left") {
            Some(Direction::Left)
        } else if same(s, "right") {
            Some(Direction::Right)
        } else if same(s, "up") {
            Some(Direction::Up)
        } else if same(s, "down") {
            Some(Direction::Down)
        } else {
            None
        }
    }

    /// The variant spelled like `s`, whatever the case of its letters.
    ///
    /// # Errors
    ///
    /// Returns [`ParseEnumError`] when no variant is spelled like that.
    pub fn parse(s: &str) -> (r: Result<Self, ParseEnumError>)
        ensures
            match r {
                Ok(v) => lower(s@) == v.word(),
                Err(e) => {
                    &&& forall|v: Self| lower(s@) != #[trigger] v.word()
                    &&& e.kind@ == "Direction"@
                    &&& e.value@ == s@
                },
            },
    {
        match Direction::named(lowered(s).as_str()) {
            Some(v) => Ok(v),
            None => Err(ParseEnumError { kind: "Direction", value: owned(s) }),
        }
    }

    /// The kebab-case spelling used on the wire and on the command line.
    #[must_use]
    pub fn to_string(&self) -> (r: String)
        ensures
            r@ == self.word(),
    {
        owned(self.as_str())
    }
}

impl std::str::FromStr for Direction {
    type Err = ParseEnumError;

    fn from_str(s: &str) -> (r: Result<Self, ParseEnumError>)
        ensures
            match r {
                Ok(v) => lower(s@) == v.word(),
                Err(e) => {
                    &&& forall|v: Self| lower(s@) != #[trigger] v.word()
                    &&& e.kind@ == "Direction"@
                    &&& e.value@ == s@
                },
            },
    {
        Direction::parse(s)
    }
}

/// The axis a resize or a layout flip applies to.
#[derive(Debug, Clone, Copy, PartialEq, Eq, Hash, Structural)]
pub enum Axis {
    /// Spelled `horizontal`.
    Horizontal,
    /// Spelled `vertical`.
    Vertical,
}

impl Axis {
    /// The kebab-case spelling used on the wire and on the command line.
    pub open spec fn word(self) -> Seq<char> {
        match self {
            Axis::Horizontal => "horizontal"@,
            Axis::Vertical => "vertical"@,
        }
    }

    /// The kebab-case spelling used on the wire and on the command line.
    #[must_use]
    pub fn as_str(self) -> (r: &'static str)
        ensures
            r@ == self.word(),
    {
        match self {
            Axis::Horizontal => "horizontal",
            Axis::Vertical => "vertical",
        }
    }

    /// Every variant, in declaration order.
    pub const ALL: [Self; 2] = [Axis::Horizontal, Axis::Vertical];

    /// The variant spelled exactly like `s`.
    #[must_use]
    pub fn named(s: &str) -> (r: Option<Self>)
        ensures
            match r {
                Some(v) => s@ == v.word(),
                None => forall|v: Self| s@ != #[trigger] v.word(),
            },
    {
        if same(s, "horizontal") {
            Some(Axis::Horizontal)
        } else if same(s, "vertical") {
            Some(Axis::Vertical)
        } else {
            None
        }
    }

    /// The variant spelled like `s`, whatever the case of its letters.
    ///
    /// # Errors
    ///
    /// Returns [`ParseEnumError`] when no variant is spelled like that.
    pub fn parse(s: &str) -> (r: Result<Self, ParseEnumError>)
        ensures
            match r {
                Ok(v) => lower(s@) == v.word(),
                Err(e) => {
                    &&& forall|v: Self| lower(s@) != #[trigger] v.word()
                    &&& e.kind@ == "Axis"@
                    &&& e.value@ == s@
                },
            },
    {
        match Axis::named(lowered(s).as_str()) {
            Some(v) => Ok(v),
            None => Err(ParseEnumError { kind: "Axis", value: owned(s) }),
        }
    }

    /// The kebab-case spelling used on the wire and on the command line.
    #[must_use]
    pub fn to_string(&self) -> (r: String)
        ensures
            r@ == self.word(),
    {
        owned(self.as_str())
    }
}

impl std::str::FromStr for Axis {
    type Err = ParseEnumError;

    fn from_str(s: &str) -> (r: Result<Self, ParseEnumError>)
        ensures
            match r {
                Ok(v) => lower(s@) == v.word(),
                Err(e) => {
                    &&& forall|v: Self| lower(s@) != #[trigger] v.word()
                    &&& e.kind@ == "Axis"@
                    &&& e.value@ == s@
                },
            },
    {
        Axis::parse(s)
    }
}

/// Whether a resize grows or shrinks along its axis.
#[derive(Debug, Clone, Copy, PartialEq, Eq, Hash, Structural)]
pub enum Sizing {
    /// Spelled `increase`.
    Increase,
    /// Spelled `decrease`.
    Decrease,
}

impl Sizing {
    /// The kebab-case spelling used on the wire and on the command line.
    pub open spec fn word(self) -> Seq<char> {
        match self {
            Sizing::Increase => "increase"@,
            Sizing::Decrease => "decrease"@,
        }
    }

    /// The kebab-case spelling used on the wire and on the command line.
    #[must_use]
    pub fn as_str(self) -> (r: &'static str)
        ensures
            r@ == self.word(),
    {
        match self {
            Sizing::Increase => "increase",
            Sizing::Decrease => "decrease",
        }
    }

    /// Every variant, in declaration order.
    pub const ALL: [Self; 2] = [Sizing::Increase, Sizing::Decrease];

    /// The variant spelled exactly like `s`.
    #[must_use]
    pub fn named(s: &str) -> (r: Option<Self>)
        ensures
            match r {
                Some(v) => s@ == v.word(),
                None => forall|v: Self| s@ != #[trigger] v.word(),
            },
    {
        if same(s, "increase") {
            Some(Sizing::Increase)
        } else if same(s, "decrease") {
            Some(Sizing::Decrease)
        } else {
            None
        }
    }

    /// The variant spelled like `s`, whatever the case of its letters.
    ///
    /// # Errors
    ///
    /// Returns [`ParseEnumError`] when no variant is spelled like that.
    pub fn parse(s: &str) -> (r: Result<Self, ParseEnumError>)
        ensures
            match r {
                Ok(v) => lower(s@) == v.word(),
                Err(e) => {
                    &&& forall|v: Self| lower(s@) != #[trigger] v.word()
                    &&& e.kind@ == "Sizing"@
                    &&& e.value@ == s@
                },
            },
    {
        match Sizing::named(lowered(s).as_str()) {
            Some(v) => Ok(v),
            None => Err(ParseEnumError { kind: "Sizing", value: owned(s) }),
        }
    }

    /// The kebab-case spelling used on the wire and on the command line.
    #[must_use]
    pub fn to_string(&self) -> (r: String)
        ensures
            r@ == self.word(),
    {
        owned(self.as_str())
    }
}

impl std::str::FromStr for Sizing {
    type Err = ParseEnumError;

    fn from_str(s: &str) -> (r: Result<Self, ParseEnumError>)
        ensures
            match r {
                Ok(v) => lower(s@) == v.word(),
                Err(e) => {
                    &&& forall|v: Self| lower(s@) != #[trigger] v.word()
                    &&& e.kind@ == "Sizing"@
                    &&& e.value@ == s@
                },
            },
    {
        Sizing::parse(s)
    }
}

/// Which way to step through a ring: layouts, workspaces, monitors, stacks.
#[derive(Debug, Clone, Copy, PartialEq, Eq, Hash, Structural)]
pub enum CycleDirection {
    /// Spelled `next`.
    Next,
    /// Spelled `previous`.
    Previous,
}

impl CycleDirection {
    /// The kebab-case spelling used on the wire and on the command line.
    pub open spec fn word(self) -> Seq<char> {
        match self {
            CycleDirection::Next => "next"@,
            CycleDirection::Previous => "previous"@,
        }
    }

    /// The kebab-case spelling used on the wire and on the command line.
    #[must_use]
    pub fn as_str(self) -> (r: &'static str)
        ensures
            r@ == self.word(),
    {
        match self {
            CycleDirection::Next => "next",
            CycleDirection::Previous => "previous",
        }
    }

    /// Every variant, in declaration order.
    pub const ALL: [Self; 2] = [CycleDirection::Next, CycleDirection::Previous];

    /// The variant spelled exactly like `s`.
    #[must_use]
    pub fn named(s: &str) -> (r: Option<Self>)
        ensures
            match r {
                Some(v) => s@ == v.word(),
                None => forall|v: Self| s@ != #[trigger] v.word(),
            },
    {
        if same(s, "next") {
            Some(CycleDirection::Next)
        } else if same(s, "previous") {
            Some(CycleDirection::Previous)
        } else {
            None
        }
    }

    /// The variant spelled like `s`, whatever the case of its letters.
    ///
    /// # Errors
    ///
    /// Returns [`ParseEnumError`] when no variant is spelled like that.
    pub fn parse(s: &str) -> (r: Result<Self, ParseEnumError>)
        ensures
            match r {
                Ok(v) => lower(s@) == v.word(),
                Err(e) => {
                    &&& forall|v: Self| lower(s@) != #[trigger] v.word()
                    &&& e.kind@ == "CycleDirection"@
                    &&& e.value@ == s@
                },
            },
    {
        match CycleDirection::named(lowered(s).as_str()) {
            Some(v) => Ok(v),
            None => Err(ParseEnumError { kind: "CycleDirection", value: owned(s) }),
        }
    }

    /// The kebab-case spelling used on the wire and on the command line.
    #[must_use]
    pub fn to_string(&self) -> (r: String)
        ensures
            r@ == self.word(),
    {
        owned(self.as_str())
    }
}

impl std::str::FromStr for CycleDirection {
    type Err = ParseEnumError;

    fn from_str(s: &str) -> (r: Result<Self, ParseEnumError>)
        ensures
            match r {
                Ok(v) => lower(s@) == v.word(),
                Err(e) => {
                    &&& forall|v: Self| lower(s@) != #[trigger] v.word()
                    &&& e.kind@ == "CycleDirection"@
                    &&& e.value@ == s@
                },
            },
    {
        CycleDirection::parse(s)
    }
}

/// An on/off switch as spelled on the command line.
#[derive(Debug, Clone, Copy, PartialEq, Eq, Hash, Structural)]
pub enum BooleanState {
    /// Spelled `enable`.
    Enable,
    /// Spelled `disable`.
    Disable,
}

impl BooleanState {
    /// The kebab-case spelling used on the wire and on the command line.
    pub open spec fn word(self) -> Seq<char> {
        match self {
            BooleanState::Enable => "enable"@,
            BooleanState::Disable => "disable"@,
        }
    }

    /// The kebab-case spelling used on the wire and on the command line.
    #[must_use]
    pub fn as_str(self) -> (r: &'static str)
        ensures
            r@ == self.word(),
    {
        match self {
            BooleanState::Enable => "enable",
            BooleanState::Disable => "disable",
        }
    }

    /// Every variant, in declaration order.
    pub const ALL: [Self; 2] = [BooleanState::Enable, BooleanState::Disable];

    /// The variant spelled exactly like `s`.
    #[must_use]
    pub fn named(s: &str) -> (r: Option<Self>)
        ensures
            match r {
                Some(v) => s@ == v.word(),
                None => forall|v: Self| s@ != #[trigger] v.word(),
            },
    {
        if same(s, "enable") {
            Some(BooleanState::Enable)
        } else if same(s, "disable") {
            Some(BooleanState::Disable)
        } else {
            None
        }
    }

    /// The variant spelled like `s`, whatever the case of its letters.
    ///
    /// # Errors
    ///
    /// Returns [`ParseEnumError`] when no variant is spelled like that.
    pub fn parse(s: &str) -> (r: Result<Self, ParseEnumError>)
        ensures
            match r {
                Ok(v) => lower(s@) == v.word(),
                Err(e) => {
                    &&& forall|v: Self| lower(s@) != #[trigger] v.word()
                    &&& e.kind@ == "BooleanState"@
                    &&& e.value@ == s@
                },
            },
    {
        match BooleanState::named(lowered(s).as_str()) {
            Some(v) => Ok(v),
            None => Err(ParseEnumError { kind: "BooleanState", value: owned(s) }),
        }
    }

    /// The kebab-case spelling used on the wire and on the command line.
    #[must_use]
    pub fn to_string(&self) -> (r: String)
        ensures
            r@ == self.word(),
    {
        owned(self.as_str())
    }
}

impl std::str::FromStr for BooleanState {
    type Err = ParseEnumError;

    fn from_str(s: &str) -> (r: Result<Self, ParseEnumError>)
        ensures
            match r {
                Ok(v) => lower(s@) == v.word(),
                Err(e) => {
                    &&& forall|v: Self| lower(s@) != #[trigger] v.word()
                    &&& e.kind@ == "BooleanState"@
                    &&& e.value@ == s@
                },
            },
    {
        BooleanState::parse(s)
    }
}

impl BooleanState {
    /// `true` for [`BooleanState::Enable`].
    #[must_use]
    #[verifier::allow_in_spec]
    pub fn is_enabled(self) -> bool
        returns
            self == BooleanState::Enable,
    {
        matches!(self, BooleanState::Enable)
    }
}

/// The layouts Mochi knows about. The arrangement itself lives in
/// [`layout`](crate::layout).
#[derive(Debug, Clone, Copy, PartialEq, Eq, Hash, Structural)]
pub enum Layout {
    /// Spelled `bsp`.
    Bsp,
    /// Spelled `columns`.
    Columns,
    /// Spelled `rows`.
    Rows,
    /// Spelled `vertical-stack`.
    VerticalStack,
    /// Spelled `horizontal-stack`.
    HorizontalStack,
    /// Spelled `ultrawide-vertical-stack`.
    UltrawideVerticalStack,
    /// Spelled `grid`.
    Grid,
}

impl Layout {
    /// The kebab-case spelling used on the wire and on the command line.
    pub open spec fn word(self) -> Seq<char> {
        match self {
            Layout::Bsp => "bsp"@,
            Layout::Columns => "columns"@,
            Layout::Rows => "rows"@,
            Layout::VerticalStack => "vertical-stack"@,
            Layout::HorizontalStack => "horizontal-stack"@,
            Layout::UltrawideVerticalStack => "ultrawide-vertical-stack"@,
            Layout::Grid => "grid"@,
        }
    }

    /// The kebab-case spelling used on the wire and on the command line.
    #[must_use]
    pub fn as_str(self) -> (r: &'static str)
        ensures
            r@ == self.word(),
    {
        match self {
            Layout::Bsp => "bsp",
            Layout::Columns => "columns",
            Layout::Rows => "rows",
            Layout::VerticalStack => "vertical-stack",
            Layout::HorizontalStack => "horizontal-stack",
            Layout::UltrawideVerticalStack => "ultrawide-vertical-stack",
            Layout::Grid => "grid",
        }
    }

    /// Every variant, in declaration order.
    pub const ALL: [Self; 7] = [
        Layout::Bsp,
        Layout::Columns,
        Layout::Rows,
        Layout::VerticalStack,
        Layout::HorizontalStack,
        Layout::UltrawideVerticalStack,
        Layout::Grid,
    ];

    /// The variant spelled exactly like `s`.
    #[must_use]
    pub fn named(s: &str) -> (r: Option<Self>)
        ensures
            match r {
                Some(v) => s@ == v.word(),
                None => forall|v: Self| s@ != #[trigger] v.word(),
            },
    {
        if same(s, "bsp") {
            Some(Layout::Bsp)
        } else if same(s, "columns") {
            Some(Layout::Columns)
        } else if same(s, "rows") {
            Some(Layout::Rows)
        } else if same(s, "vertical-stack") {
            Some(Layout::VerticalStack)
        } else if same(s, "horizontal-stack") {
            Some(Layout::HorizontalStack)
        } else if same(s, "ultrawide-vertical-stack") {
            Some(Layout::UltrawideVerticalStack)
        } else if same(s, "grid") {
            Some(Layout::Grid)
        } else {
            None
        }
    }

    /// The variant spelled like `s`, whatever the case of its letters.
    ///
    /// # Errors
    ///
    /// Returns [`ParseEnumError`] when no variant is spelled like that.
    pub fn parse(s: &str) -> (r: Result<Self, ParseEnumError>)
        ensures
            match r {
                Ok(v) => lower(s@) == v.word(),
                Err(e) => {
                    &&& forall|v: Self| lower(s@) != #[trigger] v.word()
                    &&& e.kind@ == "Layout"@
                    &&& e.value@ == s@
                },
            },
    {
        match Layout::named(lowered(s).as_str()) {
            Some(v) => Ok(v),
            None => Err(ParseEnumError { kind: "Layout", value: owned(s) }),
        }
    }

    /// The kebab-case spelling used on the wire and on the command line.
    #[must_use]
    pub fn to_string(&self) -> (r: String)
        ensures
            r@ == self.word(),
    {
        owned(self.as_str())
    }
}

impl std::str::FromStr for Layout {
    type Err = ParseEnumError;

    fn from_str(s: &str) -> (r: Result<Self, ParseEnumError>)
        ensures
            match r {
                Ok(v) => lower(s@) == v.word(),
                Err(e) => {
                    &&& forall|v: Self| lower(s@) != #[trigger] v.word()
                    &&& e.kind@ == "Layout"@
                    &&& e.value@ == s@
                },
            },
    {
        Layout::parse(s)
    }
}

/// Whether a new window joins the focused container or gets one of its own.
#[derive(Debug, Clone, Copy, PartialEq, Eq, Hash, Structural)]
pub enum ContainerBehaviour {
    /// Spelled `create`.
    Create,
    /// Spelled `append`.
    Append,
}

impl ContainerBehaviour {
    /// The kebab-case spelling used on the wire and on the command line.
    pub open spec fn word(self) -> Seq<char> {
        match self {
            ContainerBehaviour::Create => "create"@,
            ContainerBehaviour::Append => "append"@,
        }
    }

    /// The kebab-case spelling used on the wire and on the command line.
    #[must_use]
    pub fn as_str(self) -> (r: &'static str)
        ensures
            r@ == self.word(),
    {
        match self {
            ContainerBehaviour::Create => "create",
            ContainerBehaviour::Append => "append",
        }
    }

    /// Every variant, in declaration order.
    pub const ALL: [Self; 2] = [ContainerBehaviour::Create, ContainerBehaviour::Append];

    /// The variant spelled exactly like `s`.
    #[must_use]
    pub fn named(s: &str) -> (r: Option<Self>)
        ensures
            match r {
                Some(v) => s@ == v.word(),
                None => forall|v: Self| s@ != #[trigger] v.word(),
            },
    {
        if same(s, "create") {
            Some(ContainerBehaviour::Create)
        } else if same(s, "append") {
            Some(ContainerBehaviour::Append)
        } else {
            None
        }
    }

    /// The variant spelled like `s`, whatever the case of its letters.
    ///
    /// # Errors
    ///
    /// Returns [`ParseEnumError`] when no variant is spelled like that.
    pub fn parse(s: &str) -> (r: Result<Self, ParseEnumError>)
        ensures
            match r {
                Ok(v) => lower(s@) == v.word(),
                Err(e) => {
                    &&& forall|v: Self| lower(s@) != #[trigger] v.word()
                    &&& e.kind@ == "ContainerBehaviour"@
                    &&& e.value@ == s@
                },
            },
    {
        match ContainerBehaviour::named(lowered(s).as_str()) {
            Some(v) => Ok(v),
            None => Err(ParseEnumError { kind: "ContainerBehaviour", value: owned(s) }),
        }
    }

    /// The kebab-case spelling used on the wire and on the command line.
    #[must_use]
    pub fn to_string(&self) -> (r: String)
        ensures
            r@ == self.word(),
    {
        owned(self.as_str())
    }
}

impl std::str::FromStr for ContainerBehaviour {
    type Err = ParseEnumError;

    fn from_str(s: &str) -> (r: Result<Self, ParseEnumError>)
        ensures
            match r {
                Ok(v) => lower(s@) == v.word(),
                Err(e) => {
                    &&& forall|v: Self| lower(s@) != #[trigger] v.word()
                    &&& e.kind@ == "ContainerBehaviour"@
                    &&& e.value@ == s@
                },
            },
    {
        ContainerBehaviour::parse(s)
    }
}

/// What moving a container past a monitor edge does.
#[derive(Debug, Clone, Copy, PartialEq, Eq, Hash, Structural)]
pub enum MoveBehaviour {
    /// Spelled `swap`.
    Swap,
    /// Spelled `insert`.
    Insert,
    /// Spelled `no-op`.
    NoOp,
}

impl MoveBehaviour {
    /// The kebab-case spelling used on the wire and on the command line.
    pub open spec fn word(self) -> Seq<char> {
        match self {
            MoveBehaviour::Swap => "swap"@,
            MoveBehaviour::Insert => "insert"@,
            MoveBehaviour::NoOp => "no-op"@,
        }
    }

    /// The kebab-case spelling used on the wire and on the command line.
    #[must_use]
    pub fn as_str(self) -> (r: &'static str)
        ensures
            r@ == self.word(),
    {
        match self {
            MoveBehaviour::Swap => "swap",
            MoveBehaviour::Insert => "insert",
            MoveBehaviour::NoOp => "no-op",
        }
    }

    /// Every variant, in declaration order.
    pub const ALL: [Self; 3] = [MoveBehaviour::Swap, MoveBehaviour::Insert, MoveBehaviour::NoOp];

    /// The variant spelled exactly like `s`.
    #[must_use]
    pub fn named(s: &str) -> (r: Option<Self>)
        ensures
            match r {
                Some(v) => s@ == v.word(),
                None => forall|v: Self| s@ != #[trigger] v.word(),
            },
    {
        if same(s, "swap") {
            Some(MoveBehaviour::Swap)
        } else if same(s, "insert") {
            Some(MoveBehaviour::Insert)
        } else if same(s, "no-op") {
            Some(MoveBehaviour::NoOp)
        } else {
            None
        }
    }

    /// The variant spelled like `s`, whatever the case of its letters.
    ///
    /// # Errors
    ///
    /// Returns [`ParseEnumError`] when no variant is spelled like that.
    pub fn parse(s: &str) -> (r: Result<Self, ParseEnumError>)
        ensures
            match r {
                Ok(v) => lower(s@) == v.word(),
                Err(e) => {
                    &&& forall|v: Self| lower(s@) != #[trigger] v.word()
                    &&& e.kind@ == "MoveBehaviour"@
                    &&& e.value@ == s@
                },
            },
    {
        match MoveBehaviour::named(lowered(s).as_str()) {
            Some(v) => Ok(v),
            None => Err(ParseEnumError { kind: "MoveBehaviour", value: owned(s) }),
        }
    }

    /// The kebab-case spelling used on the wire and on the command line.
    #[must_use]
    pub fn to_string(&self) -> (r: String)
        ensures
            r@ == self.word(),
    {
        owned(self.as_str())
    }
}

impl std::str::FromStr for MoveBehaviour {
    type Err = ParseEnumError;

    fn from_str(s: &str) -> (r: Result<Self, ParseEnumError>)
        ensures
            match r {
                Ok(v) => lower(s@) == v.word(),
                Err(e) => {
                    &&& forall|v: Self| lower(s@) != #[trigger] v.word()
                    &&& e.kind@ == "MoveBehaviour"@
                    &&& e.value@ == s@
                },
            },
    {
        MoveBehaviour::parse(s)
    }
}

/// How a window on an inactive workspace is taken off screen.
#[derive(Debug, Clone, Copy, PartialEq, Eq, Hash, Structural)]
pub enum HidingBehaviour {
    /// Spelled `hide`.
    Hide,
    /// Spelled `minimize`.
    Minimize,
    /// Spelled `cloak`.
    Cloak,
}

impl HidingBehaviour {
    /// The kebab-case spelling used on the wire and on the command line.
    pub open spec fn word(self) -> Seq<char> {
        match self {
            HidingBehaviour::Hide => "hide"@,
            HidingBehaviour::Minimize => "minimize"@,
            HidingBehaviour::Cloak => "cloak"@,
        }
    }

    /// The kebab-case spelling used on the wire and on the command line.
    #[must_use]
    pub fn as_str(self) -> (r: &'static str)
        ensures
            r@ == self.word(),
    {
        match self {
            HidingBehaviour::Hide => "hide",
            HidingBehaviour::Minimize => "minimize",
            HidingBehaviour::Cloak => "cloak",
        }
    }

    /// Every variant, in declaration order.
    pub const ALL: [Self; 3] = [
        HidingBehaviour::Hide,
        HidingBehaviour::Minimize,
        HidingBehaviour::Cloak,
    ];

    /// The variant spelled exactly like `s`.
    #[must_use]
    pub fn named(s: &str) -> (r: Option<Self>)
        ensures
            match r {
                Some(v) => s@ == v.word(),
                None => forall|v: Self| s@ != #[trigger] v.word(),
            },
    {
        if same(s, "hide") {
            Some(HidingBehaviour::Hide)
        } else if same(s, "minimize") {
            Some(HidingBehaviour::Minimize)
        } else if same(s, "cloak") {
            Some(HidingBehaviour::Cloak)
        } else {
            None
        }
    }

    /// The variant spelled like `s`, whatever the case of its letters.
    ///
    /// # Errors
    ///
    /// Returns [`ParseEnumError`] when no variant is spelled like that.
    pub fn parse(s: &str) -> (r: Result<Self, ParseEnumError>)
        ensures
            match r {
                Ok(v) => lower(s@) == v.word(),
                Err(e) => {
                    &&& forall|v: Self| lower(s@) != #[trigger] v.word()
                    &&& e.kind@ == "HidingBehaviour"@
                    &&& e.value@ == s@
                },
            },
    {
        match HidingBehaviour::named(lowered(s).as_str()) {
            Some(v) => Ok(v),
            None => Err(ParseEnumError { kind: "HidingBehaviour", value: owned(s) }),
        }
    }

    /// The kebab-case spelling used on the wire and on the command line.
    #[must_use]
    pub fn to_string(&self) -> (r: String)
        ensures
            r@ == self.word(),
    {
        owned(self.as_str())
    }
}

impl std::str::FromStr for HidingBehaviour {
    type Err = ParseEnumError;

    fn from_str(s: &str) -> (r: Result<Self, ParseEnumError>)
        ensures
            match r {
                Ok(v) => lower(s@) == v.word(),
                Err(e) => {
                    &&& forall|v: Self| lower(s@) != #[trigger] v.word()
                    &&& e.kind@ == "HidingBehaviour"@
                    &&& e.value@ == s@
                },
            },
    {
        HidingBehaviour::parse(s)
    }
}

/// What a command aimed at a window Mochi does not manage does.
#[derive(Debug, Clone, Copy, PartialEq, Eq, Hash, Structural)]
pub enum OperationBehaviour {
    /// Spelled `op`.
    Op,
    /// Spelled `no-op`.
    NoOp,
}

impl OperationBehaviour {
    /// The kebab-case spelling used on the wire and on the command line.
    pub open spec fn word(self) -> Seq<char> {
        match self {
            OperationBehaviour::Op => "op"@,
            OperationBehaviour::NoOp => "no-op"@,
        }
    }

    /// The kebab-case spelling used on the wire and on the command line.
    #[must_use]
    pub fn as_str(self) -> (r: &'static str)
        ensures
            r@ == self.word(),
    {
        match self {
            OperationBehaviour::Op => "op",
            OperationBehaviour::NoOp => "no-op",
        }
    }

    /// Every variant, in declaration order.
    pub const ALL: [Self; 2] = [OperationBehaviour::Op, OperationBehaviour::NoOp];

    /// The variant spelled exactly like `s`.
    #[must_use]
    pub fn named(s: &str) -> (r: Option<Self>)
        ensures
            match r {
                Some(v) => s@ == v.word(),
                None => forall|v: Self| s@ != #[trigger] v.word(),
            },
    {
        if same(s, "op") {
            Some(OperationBehaviour::Op)
        } else if same(s, "no-op") {
            Some(OperationBehaviour::NoOp)
        } else {
            None
        }
    }

    /// The variant spelled like `s`, whatever the case of its letters.
    ///
    /// # Errors
    ///
    /// Returns [`ParseEnumError`] when no variant is spelled like that.
    pub fn parse(s: &str) -> (r: Result<Self, ParseEnumError>)
        ensures
            match r {
                Ok(v) => lower(s@) == v.word(),
                Err(e) => {
                    &&& forall|v: Self| lower(s@) != #[trigger] v.word()
                    &&& e.kind@ == "OperationBehaviour"@
                    &&& e.value@ == s@
                },
            },
    {
        match OperationBehaviour::named(lowered(s).as_str()) {
            Some(v) => Ok(v),
            None => Err(ParseEnumError { kind: "OperationBehaviour", value: owned(s) }),
        }
    }

    /// The kebab-case spelling used on the wire and on the command line.
    #[must_use]
    pub fn to_string(&self) -> (r: String)
        ensures
            r@ == self.word(),
    {
        owned(self.as_str())
    }
}

impl std::str::FromStr for OperationBehaviour {
    type Err = ParseEnumError;

    fn from_str(s: &str) -> (r: Result<Self, ParseEnumError>)
        ensures
            match r {
                Ok(v) => lower(s@) == v.word(),
                Err(e) => {
                    &&& forall|v: Self| lower(s@) != #[trigger] v.word()
                    &&& e.kind@ == "OperationBehaviour"@
                    &&& e.value@ == s@
                },
            },
    {
        OperationBehaviour::parse(s)
    }
}

/// Border shape.
#[derive(Debug, Clone, Copy, PartialEq, Eq, Hash, Structural)]
pub enum BorderStyle {
    /// Spelled `system`.
    System,
    /// Spelled `rounded`.
    Rounded,
    /// Spelled `square`.
    Square,
}

impl BorderStyle {
    /// The kebab-case spelling used on the wire and on the command line.
    pub open spec fn word(self) -> Seq<char> {
        match self {
            BorderStyle::System => "system"@,
            BorderStyle::Rounded => "rounded"@,
            BorderStyle::Square => "square"@,
        }
    }

    /// The kebab-case spelling used on the wire and on the command line.
    #[must_use]
    pub fn as_str(self) -> (r: &'static str)
        ensures
            r@ == self.word(),
    {
        match self {
            BorderStyle::System => "system",
            BorderStyle::Rounded => "rounded",
            BorderStyle::Square => "square",
        }
    }

    /// Every variant, in declaration order.
    pub const ALL: [Self; 3] = [BorderStyle::System, BorderStyle::Rounded, BorderStyle::Square];

    /// The variant spelled exactly like `s`.
    #[must_use]
    pub fn named(s: &str) -> (r: Option<Self>)
        ensures
            match r {
                Some(v) => s@ == v.word(),
                None => forall|v: Self| s@ != #[trigger] v.word(),
            },
    {
        if same(s, "system") {
            Some(BorderStyle::System)
        } else if same(s, "rounded") {
            Some(BorderStyle::Rounded)
        } else if same(s, "square") {
            Some(BorderStyle::Square)
        } else {
            None
        }
    }

    /// The variant spelled like `s`, whatever the case of its letters.
    ///
    /// # Errors
    ///
    /// Returns [`ParseEnumError`] when no variant is spelled like that.
    pub fn parse(s: &str) -> (r: Result<Self, ParseEnumError>)
        ensures
            match r {
                Ok(v) => lower(s@) == v.word(),
                Err(e) => {
                    &&& forall|v: Self| lower(s@) != #[trigger] v.word()
                    &&& e.kind@ == "BorderStyle"@
                    &&& e.value@ == s@
                },
            },
    {
        match BorderStyle::named(lowered(s).as_str()) {
            Some(v) => Ok(v),
            None => Err(ParseEnumError { kind: "BorderStyle", value: owned(s) }),
        }
    }

    /// The kebab-case spelling used on the wire and on the command line.
    #[must_use]
    pub fn to_string(&self) -> (r: String)
        ensures
            r@ == self.word(),
    {
        owned(self.as_str())
    }
}

impl std::str::FromStr for BorderStyle {
    type Err = ParseEnumError;

    fn from_str(s: &str) -> (r: Result<Self, ParseEnumError>)
        ensures
            match r {
                Ok(v) => lower(s@) == v.word(),
                Err(e) => {
                    &&& forall|v: Self| lower(s@) != #[trigger] v.word()
                    &&& e.kind@ == "BorderStyle"@
                    &&& e.value@ == s@
                },
            },
    {
        BorderStyle::parse(s)
    }
}

/// Easing curve for move and resize animations.
#[derive(Debug, Clone, Copy, PartialEq, Eq, Hash, Structural)]
pub enum AnimationStyle {
    /// Spelled `linear`.
    Linear,
    /// Spelled `ease-in-sine`.
    EaseInSine,
    /// Spelled `ease-out-sine`.
    EaseOutSine,
    /// Spelled `ease-in-out-sine`.
    EaseInOutSine,
    /// Spelled `ease-in-quad`.
    EaseInQuad,
    /// Spelled `ease-out-quad`.
    EaseOutQuad,
    /// Spelled `ease-in-out-quad`.
    EaseInOutQuad,
    /// Spelled `ease-in-cubic`.
    EaseInCubic,
    /// Spelled `ease-out-cubic`.
    EaseOutCubic,
    /// Spelled `ease-in-out-cubic`.
    EaseInOutCubic,
}

impl AnimationStyle {
    /// The kebab-case spelling used on the wire and on the command line.
    pub open spec fn word(self) -> Seq<char> {
        match self {
            AnimationStyle::Linear => "linear"@,
            AnimationStyle::EaseInSine => "ease-in-sine"@,
            AnimationStyle::EaseOutSine => "ease-out-sine"@,
            AnimationStyle::EaseInOutSine => "ease-in-out-sine"@,
            AnimationStyle::EaseInQuad => "ease-in-quad"@,
            AnimationStyle::EaseOutQuad => "ease-out-quad"@,
            AnimationStyle::EaseInOutQuad => "ease-in-out-quad"@,
            AnimationStyle::EaseInCubic => "ease-in-cubic"@,
            AnimationStyle::EaseOutCubic => "ease-out-cubic"@,
            AnimationStyle::EaseInOutCubic => "ease-in-out-cubic"@,
        }
    }

    /// The kebab-case spelling used on the wire and on the command line.
    #[must_use]
    pub fn as_str(self) -> (r: &'static str)
        ensures
            r@ == self.word(),
    {
        match self {
            AnimationStyle::Linear => "linear",
            AnimationStyle::EaseInSine => "ease-in-sine",
            AnimationStyle::EaseOutSine => "ease-out-sine",
            AnimationStyle::EaseInOutSine => "ease-in-out-sine",
            AnimationStyle::EaseInQuad => "ease-in-quad",
            AnimationStyle::EaseOutQuad => "ease-out-quad",
            AnimationStyle::EaseInOutQuad => "ease-in-out-quad",
            AnimationStyle::EaseInCubic => "ease-in-cubic",
            AnimationStyle::EaseOutCubic => "ease-out-cubic",
            AnimationStyle::EaseInOutCubic => "ease-in-out-cubic",
        }
    }

    /// Every variant, in declaration order.
    pub const ALL: [Self; 10] = [
        AnimationStyle::Linear,
        AnimationStyle::EaseInSine,
        AnimationStyle::EaseOutSine,
        AnimationStyle::EaseInOutSine,
        AnimationStyle::EaseInQuad,
        AnimationStyle::EaseOutQuad,
        AnimationStyle::EaseInOutQuad,
        AnimationStyle::EaseInCubic,
        AnimationStyle::EaseOutCubic,
        AnimationStyle::EaseInOutCubic,
    ];

    /// The variant spelled exactly like `s`.
    #[must_use]
    pub fn named(s: &str) -> (r: Option<Self>)
        ensures
            match r {
                Some(v) => s@ == v.word(),
                None => forall|v: Self| s@ != #[trigger] v.word(),
            },
    {
        if same(s, "linear") {
            Some(AnimationStyle::Linear)
        } else if same(s, "ease-in-sine") {
            Some(AnimationStyle::EaseInSine)
        } else if same(s, "ease-out-sine") {
            Some(AnimationStyle::EaseOutSine)
        } else if same(s, "ease-in-out-sine") {
            Some(AnimationStyle::EaseInOutSine)
        } else if same(s, "ease-in-quad") {
            Some(AnimationStyle::EaseInQuad)
        } else if same(s, "ease-out-quad") {
            Some(AnimationStyle::EaseOutQuad)
        } else if same(s, "ease-in-out-quad") {
            Some(AnimationStyle::EaseInOutQuad)
        } else if same(s, "ease-in-cubic") {
            Some(AnimationStyle::EaseInCubic)
        } else if same(s, "ease-out-cubic") {
            Some(AnimationStyle::EaseOutCubic)
        } else if same(s, "ease-in-out-cubic") {
            Some(AnimationStyle::EaseInOutCubic)
        } else {
            None
        }
    }

    /// The variant spelled like `s`, whatever the case of its letters.
    ///
    /// # Errors
    ///
    /// Returns [`ParseEnumError`] when no variant is spelled like that.
    pub fn parse(s: &str) -> (r: Result<Self, ParseEnumError>)
        ensures
            match r {
                Ok(v) => lower(s@) == v.word(),
                Err(e) => {
                    &&& forall|v: Self| lower(s@) != #[trigger] v.word()
                    &&& e.kind@ == "AnimationStyle"@
                    &&& e.value@ == s@
                },
            },
    {
        match AnimationStyle::named(lowered(s).as_str()) {
            Some(v) => Ok(v),
            None => Err(ParseEnumError { kind: "AnimationStyle", value: owned(s) }),
        }
    }

    /// The kebab-case spelling used on the wire and on the command line.
    #[must_use]
    pub fn to_string(&self) -> (r: String)
        ensures
            r@ == self.word(),
    {
        owned(self.as_str())
    }
}

impl std::str::FromStr for AnimationStyle {
    type Err = ParseEnumError;

    fn from_str(s: &str) -> (r: Result<Self, ParseEnumError>)
        ensures
            match r {
                Ok(v) => lower(s@) == v.word(),
                Err(e) => {
                    &&& forall|v: Self| lower(s@) != #[trigger] v.word()
                    &&& e.kind@ == "AnimationStyle"@
                    &&& e.value@ == s@
                },
            },
    {
        AnimationStyle::parse(s)
    }
}

/// Which kind of window a border colour applies to.
#[derive(Debug, Clone, Copy, PartialEq, Eq, Hash, Structural)]
pub enum WindowKind {
    /// Spelled `single`.
    Single,
    /// Spelled `stack`.
    Stack,
    /// Spelled `monocle`.
    Monocle,
    /// Spelled `floating`.
    Floating,
    /// Spelled `unfocused`.
    Unfocused,
}

impl WindowKind {
    /// The kebab-case spelling used on the wire and on the command line.
    pub open spec fn word(self) -> Seq<char> {
        match self {
            WindowKind::Single => "single"@,
            WindowKind::Stack => "stack"@,
            WindowKind::Monocle => "monocle"@,
            WindowKind::Floating => "floating"@,
            WindowKind::Unfocused => "unfocused"@,
        }
    }

    /// The kebab-case spelling used on the wire and on the command line.
    #[must_use]
    pub fn as_str(self) -> (r: &'static str)
        ensures
            r@ == self.word(),
    {
        match self {
            WindowKind::Single => "single",
            WindowKind::Stack => "stack",
            WindowKind::Monocle => "monocle",
            WindowKind::Floating => "floating",
            WindowKind::Unfocused => "unfocused",
        }
    }

    /// Every variant, in declaration order.
    pub const ALL: [Self; 5] = [
        WindowKind::Single,
        WindowKind::Stack,
        WindowKind::Monocle,
        WindowKind::Floating,
        WindowKind::Unfocused,
    ];

    /// The variant spelled exactly like `s`.
    #[must_use]
    pub fn named(s: &str) -> (r: Option<Self>)
        ensures
            match r {
                Some(v) => s@ == v.word(),
                None => forall|v: Self| s@ != #[trigger] v.word(),
            },
    {
        if same(s, "single") {
            Some(WindowKind::Single)
        } else if same(s, "stack") {
            Some(WindowKind::Stack)
        } else if same(s, "monocle") {
            Some(WindowKind::Monocle)
        } else if same(s, "floating") {
            Some(WindowKind::Floating)
        } else if same(s, "unfocused") {
            Some(WindowKind::Unfocused)
        } else {
            None
        }
    }

    /// The variant spelled like `s`, whatever the case of its letters.
    ///
    /// # Errors
    ///
    /// Returns [`ParseEnumError`] when no variant is spelled like that.
    pub fn parse(s: &str) -> (r: Result<Self, ParseEnumError>)
        ensures
            match r {
                Ok(v) => lower(s@) == v.word(),
                Err(e) => {
                    &&& forall|v: Self| lower(s@) != #[trigger] v.word()
                    &&& e.kind@ == "WindowKind"@
                    &&& e.value@ == s@
                },
            },
    {
        match WindowKind::named(lowered(s).as_str()) {
            Some(v) => Ok(v),
            None => Err(ParseEnumError { kind: "WindowKind", value: owned(s) }),
        }
    }

    /// The kebab-case spelling used on the wire and on the command line.
    #[must_use]
    pub fn to_string(&self) -> (r: String)
        ensures
            r@ == self.word(),
    {
        owned(self.as_str())
    }
}

impl std::str::FromStr for WindowKind {
    type Err = ParseEnumError;

    fn from_str(s: &str) -> (r: Result<Self, ParseEnumError>)
        ensures
            match r {
                Ok(v) => lower(s@) == v.word(),
                Err(e) => {
                    &&& forall|v: Self| lower(s@) != #[trigger] v.word()
                    &&& e.kind@ == "WindowKind"@
                    &&& e.value@ == s@
                },
            },
    {
        WindowKind::parse(s)
    }
}

/// The window property a rule matches on.
#[derive(Debug, Clone, Copy, PartialEq, Eq, Hash, Structural)]
pub enum RuleIdentifier {
    /// Spelled `exe`.
    Exe,
    /// Spelled `class`.
    Class,
    /// Spelled `title`.
    Title,
    /// Spelled `path`.
    Path,
}

impl RuleIdentifier {
    /// The kebab-case spelling used on the wire and on the command line.
    pub open spec fn word(self) -> Seq<char> {
        match self {
            RuleIdentifier::Exe => "exe"@,
            RuleIdentifier::Class => "class"@,
            RuleIdentifier::Title => "title"@,
            RuleIdentifier::Path => "path"@,
        }
    }

    /// The kebab-case spelling used on the wire and on the command line.
    #[must_use]
    pub fn as_str(self) -> (r: &'static str)
        ensures
            r@ == self.word(),
    {
        match self {
            RuleIdentifier::Exe => "exe",
            RuleIdentifier::Class => "class",
            RuleIdentifier::Title => "title",
            RuleIdentifier::Path => "path",
        }
    }

    /// Every variant, in declaration order.
    pub const ALL: [Self; 4] = [
        RuleIdentifier::Exe,
        RuleIdentifier::Class,
        RuleIdentifier::Title,
        RuleIdentifier::Path,
    ];

    /// The variant spelled exactly like `s`.
    #[must_use]
    pub fn named(s: &str) -> (r: Option<Self>)
        ensures
            match r {
                Some(v) => s@ == v.word(),
                None => forall|v: Self| s@ != #[trigger] v.word(),
            },
    {
        if same(s, "exe") {
            Some(RuleIdentifier::Exe)
        } else if same(s, "class") {
            Some(RuleIdentifier::Class)
        } else if same(s, "title") {
            Some(RuleIdentifier::Title)
        } else if same(s, "path") {
            Some(RuleIdentifier::Path)
        } else {
            None
        }
    }

    /// The variant spelled like `s`, whatever the case of its letters.
    ///
    /// # Errors
    ///
    /// Returns [`ParseEnumError`] when no variant is spelled like that.
    pub fn parse(s: &str) -> (r: Result<Self, ParseEnumError>)
        ensures
            match r {
                Ok(v) => lower(s@) == v.word(),
                Err(e) => {
                    &&& forall|v: Self| lower(s@) != #[trigger] v.word()
                    &&& e.kind@ == "RuleIdentifier"@
                    &&& e.value@ == s@
                },
            },
    {
        match RuleIdentifier::named(lowered(s).as_str()) {
            Some(v) => Ok(v),
            None => Err(ParseEnumError { kind: "RuleIdentifier", value: owned(s) }),
        }
    }

    /// The kebab-case spelling used on the wire and on the command line.
    #[must_use]
    pub fn to_string(&self) -> (r: String)
        ensures
            r@ == self.word(),
    {
        owned(self.as_str())
    }
}

impl std::str::FromStr for RuleIdentifier {
    type Err = ParseEnumError;

    fn from_str(s: &str) -> (r: Result<Self, ParseEnumError>)
        ensures
            match r {
                Ok(v) => lower(s@) == v.word(),
                Err(e) => {
                    &&& forall|v: Self| lower(s@) != #[trigger] v.word()
                    &&& e.kind@ == "RuleIdentifier"@
                    &&& e.value@ == s@
                },
            },
    {
        RuleIdentifier::parse(s)
    }
}

/// How the `id` of a rule is compared against the window property.
#[derive(Debug, Clone, Copy, PartialEq, Eq, Hash, Structural)]
pub enum MatchingStrategy {
    /// Spelled `equals`.
    Equals,
    /// Spelled `contains`.
    Contains,
    /// Spelled `starts-with`.
    StartsWith,
    /// Spelled `ends-with`.
    EndsWith,
    /// Spelled `regex`.
    Regex,
}

impl MatchingStrategy {
    /// The kebab-case spelling used on the wire and on the command line.
    pub open spec fn word(self) -> Seq<char> {
        match self {
            MatchingStrategy::Equals => "equals"@,
            MatchingStrategy::Contains => "contains"@,
            MatchingStrategy::StartsWith => "starts-with"@,
            MatchingStrategy::EndsWith => "ends-with"@,
            MatchingStrategy::Regex => "regex"@,
        }
    }

    /// The kebab-case spelling used on the wire and on the command line.
    #[must_use]
    pub fn as_str(self) -> (r: &'static str)
        ensures
            r@ == self.word(),
    {
        match self {
            MatchingStrategy::Equals => "equals",
            MatchingStrategy::Contains => "contains",
            MatchingStrategy::StartsWith => "starts-with",
            MatchingStrategy::EndsWith => "ends-with",
            MatchingStrategy::Regex => "regex",
        }
    }

    /// Every variant, in declaration order.
    pub const ALL: [Self; 5] = [
        MatchingStrategy::Equals,
        MatchingStrategy::Contains,
        MatchingStrategy::StartsWith,
        MatchingStrategy::EndsWith,
        MatchingStrategy::Regex,
    ];

    /// The variant spelled exactly like `s`.
    #[must_use]
    pub fn named(s: &str) -> (r: Option<Self>)
        ensures
            match r {
                Some(v) => s@ == v.word(),
                None => forall|v: Self| s@ != #[trigger] v.word(),
            },
    {
        if same(s, "equals") {
            Some(MatchingStrategy::Equals)
        } else if same(s, "contains") {
            Some(MatchingStrategy::Contains)
        } else if same(s, "starts-with") {
            Some(MatchingStrategy::StartsWith)
        } else if same(s, "ends-with") {
            Some(MatchingStrategy::EndsWith)
        } else if same(s, "regex") {
            Some(MatchingStrategy::Regex)
        } else {
            None
        }
    }

    /// The variant spelled like `s`, whatever the case of its letters.
    ///
    /// # Errors
    ///
    /// Returns [`ParseEnumError`] when no variant is spelled like that.
    pub fn parse(s: &str) -> (r: Result<Self, ParseEnumError>)
        ensures
            match r {
                Ok(v) => lower(s@) == v.word(),
                Err(e) => {
                    &&& forall|v: Self| lower(s@) != #[trigger] v.word()
                    &&& e.kind@ == "MatchingStrategy"@
                    &&& e.value@ == s@
                },
            },
    {
        match MatchingStrategy::named(lowered(s).as_str()) {
            Some(v) => Ok(v),
            None => Err(ParseEnumError { kind: "MatchingStrategy", value: owned(s) }),
        }
    }

    /// The kebab-case spelling used on the wire and on the command line.
    #[must_use]
    pub fn to_string(&self) -> (r: String)
        ensures
            r@ == self.word(),
    {
        owned(self.as_str())
    }
}

impl std::str::FromStr for MatchingStrategy {
    type Err = ParseEnumError;

    fn from_str(s: &str) -> (r: Result<Self, ParseEnumError>)
        ensures
            match r {
                Ok(v) => lower(s@) == v.word(),
                Err(e) => {
                    &&& forall|v: Self| lower(s@) != #[trigger] v.word()
                    &&& e.kind@ == "MatchingStrategy"@
                    &&& e.value@ == s@
                },
            },
    {
        MatchingStrategy::parse(s)
    }
}

/// A single scalar the daemon can answer without dumping the whole state.
#[derive(Debug, Clone, Copy, PartialEq, Eq, Hash, Structural)]
pub enum QueryTarget {
    /// Spelled `focused-monitor-index`.
    FocusedMonitorIndex,
    /// Spelled `focused-workspace-index`.
    FocusedWorkspaceIndex,
    /// Spelled `focused-container-index`.
    FocusedContainerIndex,
    /// Spelled `focused-window-index`.
    FocusedWindowIndex,
    /// Spelled `focused-workspace-name`.
    FocusedWorkspaceName,
    /// Spelled `monitor-count`.
    MonitorCount,
    /// Spelled `window-count`.
    WindowCount,
    /// Spelled `paused`.
    Paused,
    /// Spelled `dry-run`.
    DryRun,
    /// Spelled `config-path`.
    ConfigPath,
    /// Spelled `version`.
    Version,
}

impl QueryTarget {
    /// The kebab-case spelling used on the wire and on the command line.
    pub open spec fn word(self) -> Seq<char> {
        match self {
            QueryTarget::FocusedMonitorIndex => "focused-monitor-index"@,
            QueryTarget::FocusedWorkspaceIndex => "focused-workspace-index"@,
            QueryTarget::FocusedContainerIndex => "focused-container-index"@,
            QueryTarget::FocusedWindowIndex => "focused-window-index"@,
            QueryTarget::FocusedWorkspaceName => "focused-workspace-name"@,
            QueryTarget::MonitorCount => "monitor-count"@,
            QueryTarget::WindowCount => "window-count"@,
            QueryTarget::Paused => "paused"@,
            QueryTarget::DryRun => "dry-run"@,
            QueryTarget::ConfigPath => "config-path"@,
            QueryTarget::Version => "version"@,
        }
    }

    /// The kebab-case spelling used on the wire and on the command line.
    #[must_use]
    pub fn as_str(self) -> (r: &'static str)
        ensures
            r@ == self.word(),
    {
        match self {
            QueryTarget::FocusedMonitorIndex => "focused-monitor-index",
            QueryTarget::FocusedWorkspaceIndex => "focused-workspace-index",
            QueryTarget::FocusedContainerIndex => "focused-container-index",
            QueryTarget::FocusedWindowIndex => "focused-window-index",
            QueryTarget::FocusedWorkspaceName => "focused-workspace-name",
            QueryTarget::MonitorCount => "monitor-count",
            QueryTarget::WindowCount => "window-count",
            QueryTarget::Paused => "paused",
            QueryTarget::DryRun => "dry-run",
            QueryTarget::ConfigPath => "config-path",
            QueryTarget::Version => "version",
        }
    }

    /// Every variant, in declaration order.
    pub const ALL: [Self; 11] = [
        QueryTarget::FocusedMonitorIndex,
        QueryTarget::FocusedWorkspaceIndex,
        QueryTarget::FocusedContainerIndex,
        QueryTarget::FocusedWindowIndex,
        QueryTarget::FocusedWorkspaceName,
        QueryTarget::MonitorCount,
        QueryTarget::WindowCount,
        QueryTarget::Paused,
        QueryTarget::DryRun,
        QueryTarget::ConfigPath,
        QueryTarget::Version,
    ];

    /// The variant spelled exactly like `s`.
    #[must_use]
    pub fn named(s: &str) -> (r: Option<Self>)
        ensures
            match r {
                Some(v) => s@ == v.word(),
                None => forall|v: Self| s@ != #[trigger] v.word(),
            },
    {
        if same(s, "focused-monitor-index") {
            Some(QueryTarget::FocusedMonitorIndex)
        } else if same(s, "focused-workspace-index") {
            Some(QueryTarget::FocusedWorkspaceIndex)
        } else if same(s, "focused-container-index") {
            Some(QueryTarget::FocusedContainerIndex)
        } else if same(s, "focused-window-index") {
            Some(QueryTarget::FocusedWindowIndex)
        } else if same(s, "focused-workspace-name") {
            Some(QueryTarget::FocusedWorkspaceName)
        } else if same(s, "monitor-count") {
            Some(QueryTarget::MonitorCount)
        } else if same(s, "window-count") {
            Some(QueryTarget::WindowCount)
        } else if same(s, "paused") {
            Some(QueryTarget::Paused)
        } else if same(s, "dry-run") {
            Some(QueryTarget::DryRun)
        } else if same(s, "config-path") {
            Some(QueryTarget::ConfigPath)
        } else if same(s, "version") {
            Some(QueryTarget::Version)
        } else {
            None
        }
    }

    /// The variant spelled like `s`, whatever the case of its letters.
    ///
    /// # Errors
    ///
    /// Returns [`ParseEnumError`] when no variant is spelled like that.
    pub fn parse(s: &str) -> (r: Result<Self, ParseEnumError>)
        ensures
            match r {
                Ok(v) => lower(s@) == v.word(),
                Err(e) => {
                    &&& forall|v: Self| lower(s@) != #[trigger] v.word()
                    &&& e.kind@ == "QueryTarget"@
                    &&& e.value@ == s@
                },
            },
    {
        match QueryTarget::named(lowered(s).as_str()) {
            Some(v) => Ok(v),
            None => Err(ParseEnumError { kind: "QueryTarget", value: owned(s) }),
        }
    }

    /// The kebab-case spelling used on the wire and on the command line.
    #[must_use]
    pub fn to_string(&self) -> (r: String)
        ensures
            r@ == self.word(),
    {
        owned(self.as_str())
    }
}

impl std::str::FromStr for QueryTarget {
    type Err = ParseEnumError;

    fn from_str(s: &str) -> (r: Result<Self, ParseEnumError>)
        ensures
            match r {
                Ok(v) => lower(s@) == v.word(),
                Err(e) => {
                    &&& forall|v: Self| lower(s@) != #[trigger] v.word()
                    &&& e.kind@ == "QueryTarget"@
                    &&& e.value@ == s@
                },
            },
    {
        QueryTarget::parse(s)
    }
}

// -- laws ------------------------------------------------------------------

/// No two variants of [`Direction`] share a spelling, every variant is in
/// [`Direction::ALL`], and every spelling is in lower case already, so a variant
/// comes back from its own spelling.
pub proof fn direction_words_are_distinct(a: Direction, b: Direction)
    ensures
        a.word() == b.word() ==> a == b,
        lower(a.word()) == a.word(),
        Direction::ALL@.contains(a),
{
    reveal_strlit("left");
    reveal_strlit("right");
    reveal_strlit("up");
    reveal_strlit("down");
    assert("down"@[0] == 'd');
    assert("left"@[0] == 'l');
    assert(lower(a.word()) =~= a.word());
    let all = Direction::ALL@;
    assert(all[0] == Direction::Left);
    assert(all[1] == Direction::Right);
    assert(all[2] == Direction::Up);
    assert(all[3] == Direction::Down);
}

/// No two variants of [`Axis`] share a spelling, every variant is in
/// [`Axis::ALL`], and every spelling is in lower case already, so a variant
/// comes back from its own spelling.
pub proof fn axis_words_are_distinct(a: Axis, b: Axis)
    ensures
        a.word() == b.word() ==> a == b,
        lower(a.word()) == a.word(),
        Axis::ALL@.contains(a),
{
    reveal_strlit("horizontal");
    reveal_strlit("vertical");
    assert(lower(a.word()) =~= a.word());
    let all = Axis::ALL@;
    assert(all[0] == Axis::Horizontal);
    assert(all[1] == Axis::Vertical);
}

/// No two variants of [`Sizing`] share a spelling, every variant is in
/// [`Sizing::ALL`], and every spelling is in lower case already, so a variant
/// comes back from its own spelling.
pub proof fn sizing_words_are_distinct(a: Sizing, b: Sizing)
    ensures
        a.word() == b.word() ==> a == b,
        lower(a.word()) == a.word(),
        Sizing::ALL@.contains(a),
{
    reveal_strlit("increase");
    reveal_strlit("decrease");
    assert("decrease"@[0] == 'd');
    assert("increase"@[0] == 'i');
    assert(lower(a.word()) =~= a.word());
    let all = Sizing::ALL@;
    assert(all[0] == Sizing::Increase);
    assert(all[1] == Sizing::Decrease);
}

/// No two variants of [`CycleDirection`] share a spelling, every variant is in
/// [`CycleDirection::ALL`], and every spelling is in lower case already, so a variant
/// comes back from its own spelling.
pub proof fn cycle_direction_words_are_distinct(a: CycleDirection, b: CycleDirection)
    ensures
        a.word() == b.word() ==> a == b,
        lower(a.word()) == a.word(),
        CycleDirection::ALL@.contains(a),
{
    reveal_strlit("next");
    reveal_strlit("previous");
    assert(lower(a.word()) =~= a.word());
    let all = CycleDirection::ALL@;
    assert(all[0] == CycleDirection::Next);
    assert(all[1] == CycleDirection::Previous);
}

/// No two variants of [`BooleanState`] share a spelling, every variant is in
/// [`BooleanState::ALL`], and every spelling is in lower case already, so a variant
/// comes back from its own spelling.
pub proof fn boolean_state_words_are_distinct(a: BooleanState, b: BooleanState)
    ensures
        a.word() == b.word() ==> a == b,
        lower(a.word()) == a.word(),
        BooleanState::ALL@.contains(a),
{
    reveal_strlit("enable");
    reveal_strlit("disable");
    assert(lower(a.word()) =~= a.word());
    let all = BooleanState::ALL@;
    assert(all[0] == BooleanState::Enable);
    assert(all[1] == BooleanState::Disable);
}

/// No two variants of [`Layout`] share a spelling, every variant is in
/// [`Layout::ALL`], and every spelling is in lower case already, so a variant
/// comes back from its own spelling.
pub proof fn layout_words_are_distinct(a: Layout, b: Layout)
    ensures
        a.word() == b.word() ==> a == b,
        lower(a.word()) == a.word(),
        Layout::ALL@.contains(a),
{
    reveal_strlit("bsp");
    reveal_strlit("columns");
    reveal_strlit("rows");
    reveal_strlit("vertical-stack");
    reveal_strlit("horizontal-stack");
    reveal_strlit("ultrawide-vertical-stack");
    reveal_strlit("grid");
    assert("grid"@[0] == 'g');
    assert("rows"@[0] == 'r');
    assert(lower(a.word()) =~= a.word());
    let all = Layout::ALL@;
    assert(all[0] == Layout::Bsp);
    assert(all[1] == Layout::Columns);
    assert(all[2] == Layout::Rows);
    assert(all[3] == Layout::VerticalStack);
    assert(all[4] == Layout::HorizontalStack);
    assert(all[5] == Layout::UltrawideVerticalStack);
    assert(all[6] == Layout::Grid);
}

/// No two variants of [`ContainerBehaviour`] share a spelling, every variant is in
/// [`ContainerBehaviour::ALL`], and every spelling is in lower case already, so a variant
/// comes back from its own spelling.
pub proof fn container_behaviour_words_are_distinct(a: ContainerBehaviour, b: ContainerBehaviour)
    ensures
        a.word() == b.word() ==> a == b,
        lower(a.word()) == a.word(),
        ContainerBehaviour::ALL@.contains(a),
{
    reveal_strlit("create");
    reveal_strlit("append");
    assert("append"@[0] == 'a');
    assert("create"@[0] == 'c');
    assert(lower(a.word()) =~= a.word());
    let all = ContainerBehaviour::ALL@;
    assert(all[0] == ContainerBehaviour::Create);
    assert(all[1] == ContainerBehaviour::Append);
}

/// No two variants of [`MoveBehaviour`] share a spelling, every variant is in
/// [`MoveBehaviour::ALL`], and every spelling is in lower case already, so a variant
/// comes back from its own spelling.
pub proof fn move_behaviour_words_are_distinct(a: MoveBehaviour, b: MoveBehaviour)
    ensures
        a.word() == b.word() ==> a == b,
        lower(a.word()) == a.word(),
        MoveBehaviour::ALL@.contains(a),
{
    reveal_strlit("swap");
    reveal_strlit("insert");
    reveal_strlit("no-op");
    assert(lower(a.word()) =~= a.word());
    let all = MoveBehaviour::ALL@;
    assert(all[0] == MoveBehaviour::Swap);
    assert(all[1] == MoveBehaviour::Insert);
    assert(all[2] == MoveBehaviour::NoOp);
}

/// No two variants of [`HidingBehaviour`] share a spelling, every variant is in
/// [`HidingBehaviour::ALL`], and every spelling is in lower case already, so a variant
/// comes back from its own spelling.
pub proof fn hiding_behaviour_words_are_distinct(a: HidingBehaviour, b: HidingBehaviour)
    ensures
        a.word() == b.word() ==> a == b,
        lower(a.word()) == a.word(),
        HidingBehaviour::ALL@.contains(a),
{
    reveal_strlit("hide");
    reveal_strlit("minimize");
    reveal_strlit("cloak");
    assert(lower(a.word()) =~= a.word());
    let all = HidingBehaviour::ALL@;
    assert(all[0] == HidingBehaviour::Hide);
    assert(all[1] == HidingBehaviour::Minimize);
    assert(all[2] == HidingBehaviour::Cloak);
}

/// No two variants of [`OperationBehaviour`] share a spelling, every variant is in
/// [`OperationBehaviour::ALL`], and every spelling is in lower case already, so a variant
/// comes back from its own spelling.
pub proof fn operation_behaviour_words_are_distinct(a: OperationBehaviour, b: OperationBehaviour)
    ensures
        a.word() == b.word() ==> a == b,
        lower(a.word()) == a.word(),
        OperationBehaviour::ALL@.contains(a),
{
    reveal_strlit("op");
    reveal_strlit("no-op");
    assert(lower(a.word()) =~= a.word());
    let all = OperationBehaviour::ALL@;
    assert(all[0] == OperationBehaviour::Op);
    assert(all[1] == OperationBehaviour::NoOp);
}

/// No two variants of [`BorderStyle`] share a spelling, every variant is in
/// [`BorderStyle::ALL`], and every spelling is in lower case already, so a variant
/// comes back from its own spelling.
pub proof fn border_style_words_are_distinct(a: BorderStyle, b: BorderStyle)
    ensures
        a.word() == b.word() ==> a == b,
        lower(a.word()) == a.word(),
        BorderStyle::ALL@.contains(a),
{
    reveal_strlit("system");
    reveal_strlit("rounded");
    reveal_strlit("square");
    assert("square"@[1] == 'q');
    assert("system"@[1] == 'y');
    assert(lower(a.word()) =~= a.word());
    let all = BorderStyle::ALL@;
    assert(all[0] == BorderStyle::System);
    assert(all[1] == BorderStyle::Rounded);
    assert(all[2] == BorderStyle::Square);
}

/// No two variants of [`AnimationStyle`] share a spelling, every variant is in
/// [`AnimationStyle::ALL`], and every spelling is in lower case already, so a variant
/// comes back from its own spelling.
pub proof fn animation_style_words_are_distinct(a: AnimationStyle, b: AnimationStyle)
    ensures
        a.word() == b.word() ==> a == b,
        lower(a.word()) == a.word(),
        AnimationStyle::ALL@.contains(a),
{
    reveal_strlit("linear");
    reveal_strlit("ease-in-sine");
    reveal_strlit("ease-out-sine");
    reveal_strlit("ease-in-out-sine");
    reveal_strlit("ease-in-quad");
    reveal_strlit("ease-out-quad");
    reveal_strlit("ease-in-out-quad");
    reveal_strlit("ease-in-cubic");
    reveal_strlit("ease-out-cubic");
    reveal_strlit("ease-in-out-cubic");
    assert("ease-in-cubic"@[5] == 'i');
    assert("ease-in-out-quad"@[12] == 'q');
    assert("ease-in-out-sine"@[12] == 's');
    assert("ease-in-quad"@[8] == 'q');
    assert("ease-in-sine"@[8] == 's');
    assert("ease-out-quad"@[5] == 'o');
    assert("ease-out-quad"@[9] == 'q');
    assert("ease-out-sine"@[5] == 'o');
    assert("ease-out-sine"@[9] == 's');
    assert(lower(a.word()) =~= a.word());
    let all = AnimationStyle::ALL@;
    assert(all[0] == AnimationStyle::Linear);
    assert(all[1] == AnimationStyle::EaseInSine);
    assert(all[2] == AnimationStyle::EaseOutSine);
    assert(all[3] == AnimationStyle::EaseInOutSine);
    assert(all[4] == AnimationStyle::EaseInQuad);
    assert(all[5] == AnimationStyle::EaseOutQuad);
    assert(all[6] == AnimationStyle::EaseInOutQuad);
    assert(all[7] == AnimationStyle::EaseInCubic);
    assert(all[8] == AnimationStyle::EaseOutCubic);
    assert(all[9] == AnimationStyle::EaseInOutCubic);
}

/// No two variants of [`WindowKind`] share a spelling, every variant is in
/// [`WindowKind::ALL`], and every spelling is in lower case already, so a variant
/// comes back from its own spelling.
pub proof fn window_kind_words_are_distinct(a: WindowKind, b: WindowKind)
    ensures
        a.word() == b.word() ==> a == b,
        lower(a.word()) == a.word(),
        WindowKind::ALL@.contains(a),
{
    reveal_strlit("single");
    reveal_strlit("stack");
    reveal_strlit("monocle");
    reveal_strlit("floating");
    reveal_strlit("unfocused");
    assert(lower(a.word()) =~= a.word());
    let all = WindowKind::ALL@;
    assert(all[0] == WindowKind::Single);
    assert(all[1] == WindowKind::Stack);
    assert(all[2] == WindowKind::Monocle);
    assert(all[3] == WindowKind::Floating);
    assert(all[4] == WindowKind::Unfocused);
}

/// No two variants of [`RuleIdentifier`] share a spelling, every variant is in
/// [`RuleIdentifier::ALL`], and every spelling is in lower case already, so a variant
/// comes back from its own spelling.
pub proof fn rule_identifier_words_are_distinct(a: RuleIdentifier, b: RuleIdentifier)
    ensures
        a.word() == b.word() ==> a == b,
        lower(a.word()) == a.word(),
        RuleIdentifier::ALL@.contains(a),
{
    reveal_strlit("exe");
    reveal_strlit("class");
    reveal_strlit("title");
    reveal_strlit("path");
    assert("class"@[0] == 'c');
    assert("title"@[0] == 't');
    assert(lower(a.word()) =~= a.word());
    let all = RuleIdentifier::ALL@;
    assert(all[0] == RuleIdentifier::Exe);
    assert(all[1] == RuleIdentifier::Class);
    assert(all[2] == RuleIdentifier::Title);
    assert(all[3] == RuleIdentifier::Path);
}

/// No two variants of [`MatchingStrategy`] share a spelling, every variant is in
/// [`MatchingStrategy::ALL`], and every spelling is in lower case already, so a variant
/// comes back from its own spelling.
pub proof fn matching_strategy_words_are_distinct(a: MatchingStrategy, b: MatchingStrategy)
    ensures
        a.word() == b.word() ==> a == b,
        lower(a.word()) == a.word(),
        MatchingStrategy::ALL@.contains(a),
{
    reveal_strlit("equals");
    reveal_strlit("contains");
    reveal_strlit("starts-with");
    reveal_strlit("ends-with");
    reveal_strlit("regex");
    assert(lower(a.word()) =~= a.word());
    let all = MatchingStrategy::ALL@;
    assert(all[0] == MatchingStrategy::Equals);
    assert(all[1] == MatchingStrategy::Contains);
    assert(all[2] == MatchingStrategy::StartsWith);
    assert(all[3] == MatchingStrategy::EndsWith);
    assert(all[4] == MatchingStrategy::Regex);
}

/// No two variants of [`QueryTarget`] share a spelling, every variant is in
/// [`QueryTarget::ALL`], and every spelling is in lower case already, so a variant
/// comes back from its own spelling.
pub proof fn query_target_words_are_distinct(a: QueryTarget, b: QueryTarget)
    ensures
        a.word() == b.word() ==> a == b,
        lower(a.word()) == a.word(),
        QueryTarget::ALL@.contains(a),
{
    reveal_strlit("focused-monitor-index");
    reveal_strlit("focused-workspace-index");
    reveal_strlit("focused-container-index");
    reveal_strlit("focused-window-index");
    reveal_strlit("focused-workspace-name");
    reveal_strlit("monitor-count");
    reveal_strlit("window-count");
    reveal_strlit("paused");
    reveal_strlit("dry-run");
    reveal_strlit("config-path");
    reveal_strlit("version");
    assert("dry-run"@[0] == 'd');
    assert("focused-container-index"@[8] == 'c');
    assert("focused-workspace-index"@[8] == 'w');
    assert("version"@[0] == 'v');
    assert(lower(a.word()) =~= a.word());
    let all = QueryTarget::ALL@;
    assert(all[0] == QueryTarget::FocusedMonitorIndex);
    assert(all[1] == QueryTarget::FocusedWorkspaceIndex);
    assert(all[2] == QueryTarget::FocusedContainerIndex);
    assert(all[3] == QueryTarget::FocusedWindowIndex);
    assert(all[4] == QueryTarget::FocusedWorkspaceName);
    assert(all[5] == QueryTarget::MonitorCount);
    assert(all[6] == QueryTarget::WindowCount);
    assert(all[7] == QueryTarget::Paused);
    assert(all[8] == QueryTarget::DryRun);
    assert(all[9] == QueryTarget::ConfigPath);
    assert(all[10] == QueryTarget::Version);
}

} // verus!
