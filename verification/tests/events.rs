use i3title::events::EventContainer;
use i3title::events::WindowChangeKind;
use i3title::events::event_output;

fn container(name: Option<&str>, focused: bool) -> EventContainer {
    EventContainer { name: name.map(|s| s.to_string()), focused }
}

#[test]
fn focus_change_shows_the_new_name() {
    let r = event_output(WindowChangeKind::Focus, container(Some("terminal"), true));
    assert_eq!(r, Some("terminal".to_string()));
}

#[test]
fn focus_change_on_unfocused_descriptor_still_shows_name() {
    let r = event_output(WindowChangeKind::Focus, container(Some("terminal"), false));
    assert_eq!(r, Some("terminal".to_string()));
}

#[test]
fn focus_change_without_name_shows_nothing() {
    assert_eq!(event_output(WindowChangeKind::Focus, container(None, true)), None);
}

#[test]
fn title_change_on_focused_container_shows_name() {
    let r = event_output(WindowChangeKind::Title, container(Some("new title"), true));
    assert_eq!(r, Some("new title".to_string()));
}

#[test]
fn title_change_on_unfocused_container_shows_nothing() {
    assert_eq!(event_output(WindowChangeKind::Title, container(Some("new title"), false)), None);
}

#[test]
fn other_changes_show_nothing() {
    assert_eq!(event_output(WindowChangeKind::Other, container(Some("name"), true)), None);
}
