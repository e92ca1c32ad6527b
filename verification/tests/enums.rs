use cbar::luaapi::enums::{
    Align, Edge, EllipsizeMode, Error, KeyboardMode, Layer, Operator, Orientation,
    RevealerTransitionType,
};

#[test]
fn orientation_codes() {
    assert_eq!(Orientation::try_from(0), Ok(Orientation::Horizontal));
    assert_eq!(Orientation::try_from(1), Ok(Orientation::Vertical));
    assert_eq!(Orientation::try_from(2), Err(Error::ConversionFailed));
    assert_eq!(Orientation::try_from(-1), Err(Error::ConversionFailed));
    assert_eq!(i32::from(Orientation::Vertical), 1);
}

#[test]
fn ellipsize_mode_codes() {
    assert_eq!(EllipsizeMode::try_from(0), Ok(EllipsizeMode::Never));
    assert_eq!(EllipsizeMode::try_from(1), Ok(EllipsizeMode::Start));
    assert_eq!(EllipsizeMode::try_from(2), Ok(EllipsizeMode::Middle));
    assert_eq!(EllipsizeMode::try_from(3), Ok(EllipsizeMode::End));
    assert_eq!(EllipsizeMode::try_from(4), Err(Error::ConversionFailed));
}

#[test]
fn operator_codes() {
    assert_eq!(Operator::try_from(0), Ok(Operator::Clear));
    assert_eq!(Operator::try_from(2), Ok(Operator::Over));
    assert_eq!(Operator::try_from(13), Ok(Operator::Saturate));
    assert_eq!(Operator::try_from(14), Ok(Operator::Multiply));
    assert_eq!(Operator::try_from(28), Ok(Operator::HslLuminosity));
    assert_eq!(Operator::try_from(29), Err(Error::ConversionFailed));
    assert_eq!(Operator::try_from(i32::MAX), Err(Error::ConversionFailed));
    assert_eq!(Operator::try_from(i32::MIN), Err(Error::ConversionFailed));
}

#[test]
fn shell_codes() {
    assert_eq!(Layer::try_from(0), Ok(Layer::Background));
    assert_eq!(Layer::try_from(3), Ok(Layer::Overlay));
    assert_eq!(Layer::try_from(4), Err(Error::ConversionFailed));
    assert_eq!(Edge::try_from(0), Ok(Edge::Left));
    assert_eq!(Edge::try_from(1), Ok(Edge::Right));
    assert_eq!(Edge::try_from(2), Ok(Edge::Top));
    assert_eq!(Edge::try_from(3), Ok(Edge::Bottom));
    assert_eq!(Edge::try_from(4), Err(Error::ConversionFailed));
    assert_eq!(KeyboardMode::try_from(0), Ok(KeyboardMode::Never));
    assert_eq!(KeyboardMode::try_from(1), Ok(KeyboardMode::Exclusive));
    assert_eq!(KeyboardMode::try_from(2), Ok(KeyboardMode::OnDemand));
    assert_eq!(KeyboardMode::try_from(3), Err(Error::ConversionFailed));
}

#[test]
fn align_and_transition_codes() {
    assert_eq!(Align::try_from(0), Ok(Align::Fill));
    assert_eq!(Align::try_from(4), Ok(Align::Baseline));
    assert_eq!(Align::try_from(5), Err(Error::ConversionFailed));
    assert_eq!(RevealerTransitionType::try_from(0), Ok(RevealerTransitionType::Instant));
    assert_eq!(RevealerTransitionType::try_from(1), Ok(RevealerTransitionType::Crossfade));
    assert_eq!(RevealerTransitionType::try_from(9), Ok(RevealerTransitionType::SwingDown));
    assert_eq!(RevealerTransitionType::try_from(10), Err(Error::ConversionFailed));
}

#[test]
fn every_code_comes_back() {
    for code in 0..2 {
        assert_eq!(i32::from(Orientation::try_from(code).unwrap()), code);
    }
    for code in 0..4 {
        assert_eq!(i32::from(EllipsizeMode::try_from(code).unwrap()), code);
        assert_eq!(i32::from(Layer::try_from(code).unwrap()), code);
        assert_eq!(i32::from(Edge::try_from(code).unwrap()), code);
    }
    for code in 0..29 {
        assert_eq!(i32::from(Operator::try_from(code).unwrap()), code);
    }
    for code in 0..3 {
        assert_eq!(i32::from(KeyboardMode::try_from(code).unwrap()), code);
    }
    for code in 0..5 {
        assert_eq!(i32::from(Align::try_from(code).unwrap()), code);
    }
    for code in 0..10 {
        assert_eq!(i32::from(RevealerTransitionType::try_from(code).unwrap()), code);
    }
}
