//! The toolkit's enumerations as the integers by which scripts name them.
//!
//! Each enumeration is numbered from zero in the order of its variants. An
//! integer that numbers no variant is refused as
//! [`Error::ConversionFailed`].

use vstd::prelude::*;

verus! {

/// Why an integer is no member of an enumeration.
#[derive(Clone, Copy, Debug, PartialEq, Eq, Structural)]
pub enum Error {
    /// The integer numbers no variant.
    ConversionFailed,
}

/// The direction in which a container lays out its children.
#[derive(Clone, Copy, Debug, PartialEq, Eq, Structural)]
pub enum Orientation {
    Horizontal,
    Vertical,
}

impl Orientation {
    /// The number of this variant.
    pub open spec fn code(self) -> i32 {
        match self {
            Orientation::Horizontal => 0,
            Orientation::Vertical => 1,
        }
    }

    /// The variant that `value` numbers.
    pub open spec fn of(value: i32) -> Result<Orientation, Error> {
        if value == 0 {
            Ok(Orientation::Horizontal)
        } else if value == 1 {
            Ok(Orientation::Vertical)
        } else {
            Err(Error::ConversionFailed)
        }
    }
}

impl TryFrom<i32> for Orientation {
    type Error = Error;

    fn try_from(value: i32) -> (r: Result<Self, Error>) {
        match value {
            0 => Ok(Orientation::Horizontal),
            1 => Ok(Orientation::Vertical),
            _ => Err(Error::ConversionFailed),
        }
    }
}

impl vstd::std_specs::convert::TryFromSpecImpl<i32> for Orientation {
    open spec fn obeys_try_from_spec() -> bool {
        true
    }

    open spec fn try_from_spec(value: i32) -> Result<Self, Error> {
        Orientation::of(value)
    }
}

impl From<Orientation> for i32 {
    fn from(value: Orientation) -> (r: i32) {
        match value {
            Orientation::Horizontal => 0,
            Orientation::Vertical => 1,
        }
    }
}

impl vstd::std_specs::convert::FromSpecImpl<Orientation> for i32 {
    open spec fn obeys_from_spec() -> bool {
        true
    }

    open spec fn from_spec(value: Orientation) -> i32 {
        value.code()
    }
}

/// A variant is found again under its number, and an integer that numbers
/// a variant is that variant's number.
pub proof fn law_orientation_codes(variant: Orientation, value: i32)
    ensures
        Orientation::of(variant.code()) == Ok::<Orientation, Error>(variant),
        Orientation::of(value) matches Ok(found) ==> found.code() == value,
        Orientation::of(value) is Ok <==> 0 <= value < 2,
{
}

/// Where a text that does not fit is cut.
#[derive(Clone, Copy, Debug, PartialEq, Eq, Structural)]
pub enum EllipsizeMode {
    Never,
    Start,
    Middle,
    End,
}

impl EllipsizeMode {
    /// The number of this variant.
    pub open spec fn code(self) -> i32 {
        match self {
            EllipsizeMode::Never => 0,
            EllipsizeMode::Start => 1,
            EllipsizeMode::Middle => 2,
            EllipsizeMode::End => 3,
        }
    }

    /// The variant that `value` numbers.
    pub open spec fn of(value: i32) -> Result<EllipsizeMode, Error> {
        if value == 0 {
            Ok(EllipsizeMode::Never)
        } else if value == 1 {
            Ok(EllipsizeMode::Start)
        } else if value == 2 {
            Ok(EllipsizeMode::Middle)
        } else if value == 3 {
            Ok(EllipsizeMode::End)
        } else {
            Err(Error::ConversionFailed)
        }
    }
}

impl TryFrom<i32> for EllipsizeMode {
    type Error = Error;

    fn try_from(value: i32) -> (r: Result<Self, Error>) {
        match value {
            0 => Ok(EllipsizeMode::Never),
            1 => Ok(EllipsizeMode::Start),
            2 => Ok(EllipsizeMode::Middle),
            3 => Ok(EllipsizeMode::End),
            _ => Err(Error::ConversionFailed),
        }
    }
}

impl vstd::std_specs::convert::TryFromSpecImpl<i32> for EllipsizeMode {
    open spec fn obeys_try_from_spec() -> bool {
        true
    }

    open spec fn try_from_spec(value: i32) -> Result<Self, Error> {
        EllipsizeMode::of(value)
    }
}

impl From<EllipsizeMode> for i32 {
    fn from(value: EllipsizeMode) -> (r: i32) {
        match value {
            EllipsizeMode::Never => 0,
            EllipsizeMode::Start => 1,
            EllipsizeMode::Middle => 2,
            EllipsizeMode::End => 3,
        }
    }
}

impl vstd::std_specs::convert::FromSpecImpl<EllipsizeMode> for i32 {
    open spec fn obeys_from_spec() -> bool {
        true
    }

    open spec fn from_spec(value: EllipsizeMode) -> i32 {
        value.code()
    }
}

/// A variant is found again under its number, and an integer that numbers
/// a variant is that variant's number.
pub proof fn law_ellipsize_mode_codes(variant: EllipsizeMode, value: i32)
    ensures
        EllipsizeMode::of(variant.code()) == Ok::<EllipsizeMode, Error>(variant),
        EllipsizeMode::of(value) matches Ok(found) ==> found.code() == value,
        EllipsizeMode::of(value) is Ok <==> 0 <= value < 4,
{
}

/// How a drawing operation is composed with what is there.
#[derive(Clone, Copy, Debug, PartialEq, Eq, Structural)]
pub enum Operator {
    Clear,
    Source,
    Over,
    In,
    Out,
    Atop,
    Dest,
    DestOver,
    DestIn,
    DestOut,
    DestAtop,
    Xor,
    Add,
    Saturate,
    Multiply,
    Screen,
    Overlay,
    Darken,
    Lighten,
    ColorDodge,
    ColorBurn,
    HardLight,
    SoftLight,
    Difference,
    Exclusion,
    HslHue,
    HslSaturation,
    HslColor,
    HslLuminosity,
}

impl Operator {
    /// The number of this variant.
    pub open spec fn code(self) -> i32 {
        match self {
            Operator::Clear => 0,
            Operator::Source => 1,
            Operator::Over => 2,
            Operator::In => 3,
            Operator::Out => 4,
            Operator::Atop => 5,
            Operator::Dest => 6,
            Operator::DestOver => 7,
            Operator::DestIn => 8,
            Operator::DestOut => 9,
            Operator::DestAtop => 10,
            Operator::Xor => 11,
            Operator::Add => 12,
            Operator::Saturate => 13,
            Operator::Multiply => 14,
            Operator::Screen => 15,
            Operator::Overlay => 16,
            Operator::Darken => 17,
            Operator::Lighten => 18,
            Operator::ColorDodge => 19,
            Operator::ColorBurn => 20,
            Operator::HardLight => 21,
            Operator::SoftLight => 22,
            Operator::Difference => 23,
            Operator::Exclusion => 24,
            Operator::HslHue => 25,
            Operator::HslSaturation => 26,
            Operator::HslColor => 27,
            Operator::HslLuminosity => 28,
        }
    }

    /// The variant that `value` numbers.
    pub open spec fn of(value: i32) -> Result<Operator, Error> {
        if value == 0 {
            Ok(Operator::Clear)
        } else if value == 1 {
            Ok(Operator::Source)
        } else if value == 2 {
            Ok(Operator::Over)
        } else if value == 3 {
            Ok(Operator::In)
        } else if value == 4 {
            Ok(Operator::Out)
        } else if value == 5 {
            Ok(Operator::Atop)
        } else if value == 6 {
            Ok(Operator::Dest)
        } else if value == 7 {
            Ok(Operator::DestOver)
        } else if value == 8 {
            Ok(Operator::DestIn)
        } else if value == 9 {
            Ok(Operator::DestOut)
        } else if value == 10 {
            Ok(Operator::DestAtop)
        } else if value == 11 {
            Ok(Operator::Xor)
        } else if value == 12 {
            Ok(Operator::Add)
        } else if value == 13 {
            Ok(Operator::Saturate)
        } else if value == 14 {
            Ok(Operator::Multiply)
        } else if value == 15 {
            Ok(Operator::Screen)
        } else if value == 16 {
            Ok(Operator::Overlay)
        } else if value == 17 {
            Ok(Operator::Darken)
        } else if value == 18 {
            Ok(Operator::Lighten)
        } else if value == 19 {
            Ok(Operator::ColorDodge)
        } else if value == 20 {
            Ok(Operator::ColorBurn)
        } else if value == 21 {
            Ok(Operator::HardLight)
        } else if value == 22 {
            Ok(Operator::SoftLight)
        } else if value == 23 {
            Ok(Operator::Difference)
        } else if value == 24 {
            Ok(Operator::Exclusion)
        } else if value == 25 {
            Ok(Operator::HslHue)
        } else if value == 26 {
            Ok(Operator::HslSaturation)
        } else if value == 27 {
            Ok(Operator::HslColor)
        } else if value == 28 {
            Ok(Operator::HslLuminosity)
        } else {
            Err(Error::ConversionFailed)
        }
    }
}

impl TryFrom<i32> for Operator {
    type Error = Error;

    fn try_from(value: i32) -> (r: Result<Self, Error>) {
        match value {
            0 => Ok(Operator::Clear),
            1 => Ok(Operator::Source),
            2 => Ok(Operator::Over),
            3 => Ok(Operator::In),
            4 => Ok(Operator::Out),
            5 => Ok(Operator::Atop),
            6 => Ok(Operator::Dest),
            7 => Ok(Operator::DestOver),
            8 => Ok(Operator::DestIn),
            9 => Ok(Operator::DestOut),
            10 => Ok(Operator::DestAtop),
            11 => Ok(Operator::Xor),
            12 => Ok(Operator::Add),
            13 => Ok(Operator::Saturate),
            14 => Ok(Operator::Multiply),
            15 => Ok(Operator::Screen),
            16 => Ok(Operator::Overlay),
            17 => Ok(Operator::Darken),
            18 => Ok(Operator::Lighten),
            19 => Ok(Operator::ColorDodge),
            20 => Ok(Operator::ColorBurn),
            21 => Ok(Operator::HardLight),
            22 => Ok(Operator::SoftLight),
            23 => Ok(Operator::Difference),
            24 => Ok(Operator::Exclusion),
            25 => Ok(Operator::HslHue),
            26 => Ok(Operator::HslSaturation),
            27 => Ok(Operator::HslColor),
            28 => Ok(Operator::HslLuminosity),
            _ => Err(Error::ConversionFailed),
        }
    }
}

impl vstd::std_specs::convert::TryFromSpecImpl<i32> for Operator {
    open spec fn obeys_try_from_spec() -> bool {
        true
    }

    open spec fn try_from_spec(value: i32) -> Result<Self, Error> {
        Operator::of(value)
    }
}

impl From<Operator> for i32 {
    fn from(value: Operator) -> (r: i32) {
        match value {
            Operator::Clear => 0,
            Operator::Source => 1,
            Operator::Over => 2,
            Operator::In => 3,
            Operator::Out => 4,
            Operator::Atop => 5,
            Operator::Dest => 6,
            Operator::DestOver => 7,
            Operator::DestIn => 8,
            Operator::DestOut => 9,
            Operator::DestAtop => 10,
            Operator::Xor => 11,
            Operator::Add => 12,
            Operator::Saturate => 13,
            Operator::Multiply => 14,
            Operator::Screen => 15,
            Operator::Overlay => 16,
            Operator::Darken => 17,
            Operator::Lighten => 18,
            Operator::ColorDodge => 19,
            Operator::ColorBurn => 20,
            Operator::HardLight => 21,
            Operator::SoftLight => 22,
            Operator::Difference => 23,
            Operator::Exclusion => 24,
            Operator::HslHue => 25,
            Operator::HslSaturation => 26,
            Operator::HslColor => 27,
            Operator::HslLuminosity => 28,
        }
    }
}

impl vstd::std_specs::convert::FromSpecImpl<Operator> for i32 {
    open spec fn obeys_from_spec() -> bool {
        true
    }

    open spec fn from_spec(value: Operator) -> i32 {
        value.code()
    }
}

/// A variant is found again under its number, and an integer that numbers
/// a variant is that variant's number.
pub proof fn law_operator_codes(variant: Operator, value: i32)
    ensures
        Operator::of(variant.code()) == Ok::<Operator, Error>(variant),
        Operator::of(value) matches Ok(found) ==> found.code() == value,
        Operator::of(value) is Ok <==> 0 <= value < 29,
{
}

/// The layer of the desktop shell on which a surface lies.
#[derive(Clone, Copy, Debug, PartialEq, Eq, Structural)]
pub enum Layer {
    Background,
    Bottom,
    Top,
    Overlay,
}

impl Layer {
    /// The number of this variant.
    pub open spec fn code(self) -> i32 {
        match self {
            Layer::Background => 0,
            Layer::Bottom => 1,
            Layer::Top => 2,
            Layer::Overlay => 3,
        }
    }

    /// The variant that `value` numbers.
    pub open spec fn of(value: i32) -> Result<Layer, Error> {
        if value == 0 {
            Ok(Layer::Background)
        } else if value == 1 {
            Ok(Layer::Bottom)
        } else if value == 2 {
            Ok(Layer::Top)
        } else if value == 3 {
            Ok(Layer::Overlay)
        } else {
            Err(Error::ConversionFailed)
        }
    }
}

impl TryFrom<i32> for Layer {
    type Error = Error;

    fn try_from(value: i32) -> (r: Result<Self, Error>) {
        match value {
            0 => Ok(Layer::Background),
            1 => Ok(Layer::Bottom),
            2 => Ok(Layer::Top),
            3 => Ok(Layer::Overlay),
            _ => Err(Error::ConversionFailed),
        }
    }
}

impl vstd::std_specs::convert::TryFromSpecImpl<i32> for Layer {
    open spec fn obeys_try_from_spec() -> bool {
        true
    }

    open spec fn try_from_spec(value: i32) -> Result<Self, Error> {
        Layer::of(value)
    }
}

impl From<Layer> for i32 {
    fn from(value: Layer) -> (r: i32) {
        match value {
            Layer::Background => 0,
            Layer::Bottom => 1,
            Layer::Top => 2,
            Layer::Overlay => 3,
        }
    }
}

impl vstd::std_specs::convert::FromSpecImpl<Layer> for i32 {
    open spec fn obeys_from_spec() -> bool {
        true
    }

    open spec fn from_spec(value: Layer) -> i32 {
        value.code()
    }
}

/// A variant is found again under its number, and an integer that numbers
/// a variant is that variant's number.
pub proof fn law_layer_codes(variant: Layer, value: i32)
    ensures
        Layer::of(variant.code()) == Ok::<Layer, Error>(variant),
        Layer::of(value) matches Ok(found) ==> found.code() == value,
        Layer::of(value) is Ok <==> 0 <= value < 4,
{
}

/// An edge of the screen to which a surface is anchored.
#[derive(Clone, Copy, Debug, PartialEq, Eq, Structural)]
pub enum Edge {
    Left,
    Right,
    Top,
    Bottom,
}

impl Edge {
    /// The number of this variant.
    pub open spec fn code(self) -> i32 {
        match self {
            Edge::Left => 0,
            Edge::Right => 1,
            Edge::Top => 2,
            Edge::Bottom => 3,
        }
    }

    /// The variant that `value` numbers.
    pub open spec fn of(value: i32) -> Result<Edge, Error> {
        if value == 0 {
            Ok(Edge::Left)
        } else if value == 1 {
            Ok(Edge::Right)
        } else if value == 2 {
            Ok(Edge::Top)
        } else if value == 3 {
            Ok(Edge::Bottom)
        } else {
            Err(Error::ConversionFailed)
        }
    }
}

impl TryFrom<i32> for Edge {
    type Error = Error;

    fn try_from(value: i32) -> (r: Result<Self, Error>) {
        match value {
            0 => Ok(Edge::Left),
            1 => Ok(Edge::Right),
            2 => Ok(Edge::Top),
            3 => Ok(Edge::Bottom),
            _ => Err(Error::ConversionFailed),
        }
    }
}

impl vstd::std_specs::convert::TryFromSpecImpl<i32> for Edge {
    open spec fn obeys_try_from_spec() -> bool {
        true
    }

    open spec fn try_from_spec(value: i32) -> Result<Self, Error> {
        Edge::of(value)
    }
}

impl From<Edge> for i32 {
    fn from(value: Edge) -> (r: i32) {
        match value {
            Edge::Left => 0,
            Edge::Right => 1,
            Edge::Top => 2,
            Edge::Bottom => 3,
        }
    }
}

impl vstd::std_specs::convert::FromSpecImpl<Edge> for i32 {
    open spec fn obeys_from_spec() -> bool {
        true
    }

    open spec fn from_spec(value: Edge) -> i32 {
        value.code()
    }
}

/// A variant is found again under its number, and an integer that numbers
/// a variant is that variant's number.
pub proof fn law_edge_codes(variant: Edge, value: i32)
    ensures
        Edge::of(variant.code()) == Ok::<Edge, Error>(variant),
        Edge::of(value) matches Ok(found) ==> found.code() == value,
        Edge::of(value) is Ok <==> 0 <= value < 4,
{
}

/// How a surface of the desktop shell takes keyboard input.
#[derive(Clone, Copy, Debug, PartialEq, Eq, Structural)]
pub enum KeyboardMode {
    Never,
    Exclusive,
    OnDemand,
}

impl KeyboardMode {
    /// The number of this variant.
    pub open spec fn code(self) -> i32 {
        match self {
            KeyboardMode::Never => 0,
            KeyboardMode::Exclusive => 1,
            KeyboardMode::OnDemand => 2,
        }
    }

    /// The variant that `value` numbers.
    pub open spec fn of(value: i32) -> Result<KeyboardMode, Error> {
        if value == 0 {
            Ok(KeyboardMode::Never)
        } else if value == 1 {
            Ok(KeyboardMode::Exclusive)
        } else if value == 2 {
            Ok(KeyboardMode::OnDemand)
        } else {
            Err(Error::ConversionFailed)
        }
    }
}

impl TryFrom<i32> for KeyboardMode {
    type Error = Error;

    fn try_from(value: i32) -> (r: Result<Self, Error>) {
        match value {
            0 => Ok(KeyboardMode::Never),
            1 => Ok(KeyboardMode::Exclusive),
            2 => Ok(KeyboardMode::OnDemand),
            _ => Err(Error::ConversionFailed),
        }
    }
}

impl vstd::std_specs::convert::TryFromSpecImpl<i32> for KeyboardMode {
    open spec fn obeys_try_from_spec() -> bool {
        true
    }

    open spec fn try_from_spec(value: i32) -> Result<Self, Error> {
        KeyboardMode::of(value)
    }
}

impl From<KeyboardMode> for i32 {
    fn from(value: KeyboardMode) -> (r: i32) {
        match value {
            KeyboardMode::Never => 0,
            KeyboardMode::Exclusive => 1,
            KeyboardMode::OnDemand => 2,
        }
    }
}

impl vstd::std_specs::convert::FromSpecImpl<KeyboardMode> for i32 {
    open spec fn obeys_from_spec() -> bool {
        true
    }

    open spec fn from_spec(value: KeyboardMode) -> i32 {
        value.code()
    }
}

/// A variant is found again under its number, and an integer that numbers
/// a variant is that variant's number.
pub proof fn law_keyboard_mode_codes(variant: KeyboardMode, value: i32)
    ensures
        KeyboardMode::of(variant.code()) == Ok::<KeyboardMode, Error>(variant),
        KeyboardMode::of(value) matches Ok(found) ==> found.code() == value,
        KeyboardMode::of(value) is Ok <==> 0 <= value < 3,
{
}

/// How a widget fills the space it is given.
#[derive(Clone, Copy, Debug, PartialEq, Eq, Structural)]
pub enum Align {
    Fill,
    Start,
    End,
    Center,
    Baseline,
}

impl Align {
    /// The number of this variant.
    pub open spec fn code(self) -> i32 {
        match self {
            Align::Fill => 0,
            Align::Start => 1,
            Align::End => 2,
            Align::Center => 3,
            Align::Baseline => 4,
        }
    }

    /// The variant that `value` numbers.
    pub open spec fn of(value: i32) -> Result<Align, Error> {
        if value == 0 {
            Ok(Align::Fill)
        } else if value == 1 {
            Ok(Align::Start)
        } else if value == 2 {
            Ok(Align::End)
        } else if value == 3 {
            Ok(Align::Center)
        } else if value == 4 {
            Ok(Align::Baseline)
        } else {
            Err(Error::ConversionFailed)
        }
    }
}

impl TryFrom<i32> for Align {
    type Error = Error;

    fn try_from(value: i32) -> (r: Result<Self, Error>) {
        match value {
            0 => Ok(Align::Fill),
            1 => Ok(Align::Start),
            2 => Ok(Align::End),
            3 => Ok(Align::Center),
            4 => Ok(Align::Baseline),
            _ => Err(Error::ConversionFailed),
        }
    }
}

impl vstd::std_specs::convert::TryFromSpecImpl<i32> for Align {
    open spec fn obeys_try_from_spec() -> bool {
        true
    }

    open spec fn try_from_spec(value: i32) -> Result<Self, Error> {
        Align::of(value)
    }
}

impl From<Align> for i32 {
    fn from(value: Align) -> (r: i32) {
        match value {
            Align::Fill => 0,
            Align::Start => 1,
            Align::End => 2,
            Align::Center => 3,
            Align::Baseline => 4,
        }
    }
}

impl vstd::std_specs::convert::FromSpecImpl<Align> for i32 {
    open spec fn obeys_from_spec() -> bool {
        true
    }

    open spec fn from_spec(value: Align) -> i32 {
        value.code()
    }
}

/// A variant is found again under its number, and an integer that numbers
/// a variant is that variant's number.
pub proof fn law_align_codes(variant: Align, value: i32)
    ensures
        Align::of(variant.code()) == Ok::<Align, Error>(variant),
        Align::of(value) matches Ok(found) ==> found.code() == value,
        Align::of(value) is Ok <==> 0 <= value < 5,
{
}

/// How a revealer shows and hides its child.
#[derive(Clone, Copy, Debug, PartialEq, Eq, Structural)]
pub enum RevealerTransitionType {
    Instant,
    Crossfade,
    SlideRight,
    SlideLeft,
    SlideUp,
    SlideDown,
    SwingRight,
    SwingLeft,
    SwingUp,
    SwingDown,
}

impl RevealerTransitionType {
    /// The number of this variant.
    pub open spec fn code(self) -> i32 {
        match self {
            RevealerTransitionType::Instant => 0,
            RevealerTransitionType::Crossfade => 1,
            RevealerTransitionType::SlideRight => 2,
            RevealerTransitionType::SlideLeft => 3,
            RevealerTransitionType::SlideUp => 4,
            RevealerTransitionType::SlideDown => 5,
            RevealerTransitionType::SwingRight => 6,
            RevealerTransitionType::SwingLeft => 7,
            RevealerTransitionType::SwingUp => 8,
            RevealerTransitionType::SwingDown => 9,
        }
    }

    /// The variant that `value` numbers.
    pub open spec fn of(value: i32) -> Result<RevealerTransitionType, Error> {
        if value == 0 {
            Ok(RevealerTransitionType::Instant)
        } else if value == 1 {
            Ok(RevealerTransitionType::Crossfade)
        } else if value == 2 {
            Ok(RevealerTransitionType::SlideRight)
        } else if value == 3 {
            Ok(RevealerTransitionType::SlideLeft)
        } else if value == 4 {
            Ok(RevealerTransitionType::SlideUp)
        } else if value == 5 {
            Ok(RevealerTransitionType::SlideDown)
        } else if value == 6 {
            Ok(RevealerTransitionType::SwingRight)
        } else if value == 7 {
            Ok(RevealerTransitionType::SwingLeft)
        } else if value == 8 {
            Ok(RevealerTransitionType::SwingUp)
        } else if value == 9 {
            Ok(RevealerTransitionType::SwingDown)
        } else {
            Err(Error::ConversionFailed)
        }
    }
}

impl TryFrom<i32> for RevealerTransitionType {
    type Error = Error;

    fn try_from(value: i32) -> (r: Result<Self, Error>) {
        match value {
            0 => Ok(RevealerTransitionType::Instant),
            1 => Ok(RevealerTransitionType::Crossfade),
            2 => Ok(RevealerTransitionType::SlideRight),
            3 => Ok(RevealerTransitionType::SlideLeft),
            4 => Ok(RevealerTransitionType::SlideUp),
            5 => Ok(RevealerTransitionType::SlideDown),
            6 => Ok(RevealerTransitionType::SwingRight),
            7 => Ok(RevealerTransitionType::SwingLeft),
            8 => Ok(RevealerTransitionType::SwingUp),
            9 => Ok(RevealerTransitionType::SwingDown),
            _ => Err(Error::ConversionFailed),
        }
    }
}

impl vstd::std_specs::convert::TryFromSpecImpl<i32> for RevealerTransitionType {
    open spec fn obeys_try_from_spec() -> bool {
        true
    }

    open spec fn try_from_spec(value: i32) -> Result<Self, Error> {
        RevealerTransitionType::of(value)
    }
}

impl From<RevealerTransitionType> for i32 {
    fn from(value: RevealerTransitionType) -> (r: i32) {
        match value {
            RevealerTransitionType::Instant => 0,
            RevealerTransitionType::Crossfade => 1,
            RevealerTransitionType::SlideRight => 2,
            RevealerTransitionType::SlideLeft => 3,
            RevealerTransitionType::SlideUp => 4,
            RevealerTransitionType::SlideDown => 5,
            RevealerTransitionType::SwingRight => 6,
            RevealerTransitionType::SwingLeft => 7,
            RevealerTransitionType::SwingUp => 8,
            RevealerTransitionType::SwingDown => 9,
        }
    }
}

impl vstd::std_specs::convert::FromSpecImpl<RevealerTransitionType> for i32 {
    open spec fn obeys_from_spec() -> bool {
        true
    }

    open spec fn from_spec(value: RevealerTransitionType) -> i32 {
        value.code()
    }
}

/// A variant is found again under its number, and an integer that numbers
/// a variant is that variant's number.
pub proof fn law_revealer_transition_type_codes(variant: RevealerTransitionType, value: i32)
    ensures
        RevealerTransitionType::of(variant.code()) == Ok::<RevealerTransitionType, Error>(variant),
        RevealerTransitionType::of(value) matches Ok(found) ==> found.code() == value,
        RevealerTransitionType::of(value) is Ok <==> 0 <= value < 10,
{
}

} // verus!
