use systemd_gui::dispatch::{
    clicked, completed, initial_toggle_label, BackendCall, Control, Effect, Operation,
    DISABLE_LABEL, ENABLE_LABEL,
};
use systemd_gui::unit::UnitState;
use systemd_gui::unit_name::get_unit_name;

/// Stands for one button of a row: its label is all it holds. Returns the
/// call that was made and the error that was shown.
fn click(
    control: Control,
    label: &mut String,
    unit_file: &str,
    reply: Option<String>,
) -> (BackendCall, Option<String>) {
    let call = clicked(control, label, unit_file);
    match completed(call.operation, reply) {
        Effect::SetLabel(next) => {
            *label = next;
            (call, None)
        }
        Effect::ShowError(message) => (call, Some(message)),
        Effect::Nothing => (call, None),
    }
}

#[test]
fn labels_are_of_equal_width() {
    assert_eq!(DISABLE_LABEL, "Disable");
    assert_eq!(ENABLE_LABEL, " Enable");
    assert_eq!(DISABLE_LABEL.len(), ENABLE_LABEL.len());
}

#[test]
fn enabled_unit_starts_with_disable() {
    assert_eq!(initial_toggle_label(UnitState::Enabled), Some(String::from("Disable")));
}

#[test]
fn disabled_unit_starts_with_enable() {
    assert_eq!(initial_toggle_label(UnitState::Disabled), Some(String::from(" Enable")));
}

#[test]
fn unit_in_another_state_has_no_toggle() {
    assert_eq!(initial_toggle_label(UnitState::Other), None);
}

#[test]
fn disable_label_asks_to_disable() {
    let call = clicked(Control::Toggle, "Disable", "/etc/systemd/system/foo.service");
    assert_eq!(call.operation, Operation::Disable);
    assert_eq!(call.unit, "foo.service");
}

#[test]
fn enable_label_asks_to_enable() {
    let call = clicked(Control::Toggle, " Enable", "/etc/systemd/system/foo.service");
    assert_eq!(call.operation, Operation::Enable);
    assert_eq!(call.unit, "foo.service");
}

#[test]
fn any_other_label_asks_to_enable() {
    for label in ["", "Enable", "disable", "Disable ", " Disable", "DISABLE", "Start"] {
        let call = clicked(Control::Toggle, label, "foo.service");
        assert_eq!(call.operation, Operation::Enable);
    }
}

#[test]
fn start_and_stop_name_the_unit_without_directory() {
    let start = clicked(Control::Start, "Start", "/usr/lib/systemd/system/cups.socket");
    assert_eq!(
        start,
        BackendCall { operation: Operation::Start, unit: String::from("cups.socket") }
    );
    let stop = clicked(Control::Stop, "Stop", "/usr/lib/systemd/system/cups.socket");
    assert_eq!(stop, BackendCall { operation: Operation::Stop, unit: String::from("cups.socket") });
}

#[test]
fn start_and_stop_do_not_go_by_their_label() {
    for label in ["Disable", " Enable", "", "Start", "Stop"] {
        assert_eq!(clicked(Control::Start, label, "a.service").operation, Operation::Start);
        assert_eq!(clicked(Control::Stop, label, "a.service").operation, Operation::Stop);
    }
}

#[test]
fn calls_keep_the_extension() {
    assert_eq!(clicked(Control::Toggle, "Disable", "/a/b.timer").unit, "b.timer");
    assert_eq!(clicked(Control::Start, "Start", "/a/b.timer").unit, "b.timer");
    assert_eq!(clicked(Control::Stop, "Stop", "b.timer").unit, "b.timer");
}

#[test]
fn success_flips_the_label() {
    assert_eq!(completed(Operation::Disable, None), Effect::SetLabel(String::from(" Enable")));
    assert_eq!(completed(Operation::Enable, None), Effect::SetLabel(String::from("Disable")));
}

#[test]
fn success_of_start_and_stop_does_nothing() {
    assert_eq!(completed(Operation::Start, None), Effect::Nothing);
    assert_eq!(completed(Operation::Stop, None), Effect::Nothing);
}

#[test]
fn error_is_shown_verbatim() {
    let message = "Failed to disable unit: Access denied\n  (code 13) ";
    for operation in [Operation::Enable, Operation::Disable, Operation::Start, Operation::Stop] {
        assert_eq!(
            completed(operation, Some(String::from(message))),
            Effect::ShowError(String::from(message))
        );
    }
}

#[test]
fn empty_error_message_is_still_an_error() {
    assert_eq!(completed(Operation::Disable, Some(String::new())), Effect::ShowError(String::new()));
    assert_eq!(completed(Operation::Start, Some(String::new())), Effect::ShowError(String::new()));
}

#[test]
fn failed_toggle_keeps_its_label() {
    let mut label = String::from("Disable");
    let (call, shown) = click(
        Control::Toggle,
        &mut label,
        "/etc/systemd/system/foo.service",
        Some(String::from("no such unit")),
    );
    assert_eq!(call.operation, Operation::Disable);
    assert_eq!(shown, Some(String::from("no such unit")));
    assert_eq!(label, "Disable");

    let mut label = String::from(" Enable");
    let (call, shown) = click(
        Control::Toggle,
        &mut label,
        "/etc/systemd/system/foo.service",
        Some(String::from("masked")),
    );
    assert_eq!(call.operation, Operation::Enable);
    assert_eq!(shown, Some(String::from("masked")));
    assert_eq!(label, " Enable");
}

#[test]
fn start_and_stop_never_set_a_label() {
    for reply in [None, Some(String::from("failed")), Some(String::new())] {
        for control in [Control::Start, Control::Stop] {
            for shown in ["Start", "Stop", "Disable", " Enable"] {
                let mut label = String::from(shown);
                let (_, error) = click(control, &mut label, "/a/b.service", reply.clone());
                assert_eq!(label, shown);
                assert_eq!(error, reply);
            }
        }
    }
}

#[test]
fn toggle_alternates_on_success() {
    let mut label = initial_toggle_label(UnitState::Enabled).unwrap();
    let (first, _) = click(Control::Toggle, &mut label, "foo.service", None);
    assert_eq!(first.operation, Operation::Disable);
    assert_eq!(label, " Enable");
    let (second, _) = click(Control::Toggle, &mut label, "foo.service", None);
    assert_eq!(second.operation, Operation::Enable);
    assert_eq!(label, "Disable");
    let (third, _) = click(Control::Toggle, &mut label, "foo.service", None);
    assert_eq!(third.operation, Operation::Disable);
    assert_eq!(label, " Enable");
}

#[test]
fn enabled_foo_service_is_disabled_by_one_click() {
    let name = "/etc/systemd/system/foo.service";
    assert_eq!(get_unit_name(name), "foo");
    let mut label = initial_toggle_label(UnitState::Enabled).unwrap();
    assert_eq!(label, "Disable");
    let (call, shown) = click(Control::Toggle, &mut label, name, None);
    assert_eq!(
        call,
        BackendCall { operation: Operation::Disable, unit: String::from("foo.service") }
    );
    assert_eq!(shown, None);
    assert_eq!(label, " Enable");
}
