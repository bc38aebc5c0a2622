use naqi_menu::accel::accelerator_is_valid;

#[test]
fn observed_accelerators_are_valid() {
    assert!(accelerator_is_valid("CmdOrCtrl+E"));
    assert!(accelerator_is_valid("CmdOrCtrl+Shift+S"));
    assert!(accelerator_is_valid("CmdOrCtrl+Shift+O"));
    assert!(accelerator_is_valid("CmdOrCtrl+Shift+L"));
    assert!(accelerator_is_valid("CmdOrCtrl+Shift+M"));
    assert!(accelerator_is_valid("CmdOrCtrl+Shift+R"));
    assert!(accelerator_is_valid("CmdOrCtrl+Shift+X"));
    assert!(accelerator_is_valid("CmdOrCtrl+,"));
    assert!(accelerator_is_valid("CmdOrCtrl+/"));
}

#[test]
fn bare_keys_are_valid() {
    assert!(accelerator_is_valid("E"));
    assert!(accelerator_is_valid(","));
    assert!(accelerator_is_valid("+"));
    assert!(accelerator_is_valid("Space"));
    assert!(accelerator_is_valid("Enter"));
}

#[test]
fn modifier_with_named_key_is_valid() {
    assert!(accelerator_is_valid("CmdOrCtrl+Space"));
    assert!(accelerator_is_valid("Alt+Shift+Tab"));
}

#[test]
fn malformed_accelerators_are_rejected() {
    assert!(!accelerator_is_valid(""));
    assert!(!accelerator_is_valid("CmdOrCtrl+"));
    assert!(!accelerator_is_valid("Bogus+E"));
    assert!(!accelerator_is_valid("+E"));
    assert!(!accelerator_is_valid("Shift"));
    assert!(!accelerator_is_valid("CmdOrCtrl+Bogus"));
    assert!(!accelerator_is_valid("E+CmdOrCtrl"));
}

#[test]
fn trailing_plus_key_is_valid() {
    assert!(accelerator_is_valid("Shift++"));
}
