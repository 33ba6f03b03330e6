use emberclick::button::MouseButton;

#[test]
fn labels_name_the_buttons() {
    assert_eq!(MouseButton::Left.label(), "Left");
    assert_eq!(MouseButton::Right.label(), "Right");
    assert_eq!(MouseButton::Middle.label(), "Middle");
}

#[test]
fn codes_of_the_buttons() {
    assert_eq!(MouseButton::Left.code(), 0);
    assert_eq!(MouseButton::Right.code(), 1);
    assert_eq!(MouseButton::Middle.code(), 2);
}

#[test]
fn code_round_trip() {
    for b in [MouseButton::Left, MouseButton::Right, MouseButton::Middle] {
        assert_eq!(MouseButton::from_code(b.code()), b);
    }
}

#[test]
fn unknown_codes_mean_the_left_button() {
    assert_eq!(MouseButton::from_code(3), MouseButton::Left);
    assert_eq!(MouseButton::from_code(255), MouseButton::Left);
}
