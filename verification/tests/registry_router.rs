use bathbot::commands::help::{Component, SelectMenuOption};
use bathbot::impls::command_count::CommandCountPagination;
use bathbot::{
    ActiveMessages, ComponentAction, ComponentEvent, IActiveMessage, MessageIdentity, ModalEvent,
    Owner, PageChange, RouteOutcome, Sweeper, begin_pagination, route_component, route_modal,
    route_render_failure,
};

fn listing(n: u32) -> CommandCountPagination {
    let counts: Vec<(String, u32)> = (0..n).map(|i| (format!("cmd{i}"), i)).collect();
    CommandCountPagination::new(counts, 1_700_000_000).unwrap()
}

fn msg(id: u64) -> MessageIdentity {
    MessageIdentity { channel_id: 7, message_id: id }
}

#[test]
fn begin_stores_one_live_entry() {
    let mut reg: ActiveMessages<CommandCountPagination> = ActiveMessages::new();
    let (_page, _controls, replaced) =
        begin_pagination(&mut reg, listing(40), msg(1), Owner::User(11), 1000, 60);
    assert!(replaced.is_none());
    assert_eq!(reg.len(), 1);
}

#[test]
fn second_begin_replaces_and_closes_the_first() {
    // Two sequential begins for one message identity leave exactly one live
    // entry, and the first instance receives a close before removal.
    let mut reg: ActiveMessages<CommandCountPagination> = ActiveMessages::new();
    let first = listing(40);
    let second = listing(10);
    let (_, _, replaced) = begin_pagination(&mut reg, first, msg(1), Owner::User(11), 1000, 60);
    assert!(replaced.is_none());
    let (_, _, replaced) = begin_pagination(&mut reg, second, msg(1), Owner::User(11), 1001, 60);
    let old = replaced.expect("the first instance must be handed back");
    assert!(old.closed, "the first instance must be closed before removal");
    assert_eq!(reg.len(), 1);
    assert_eq!(reg.entries[0].instance.cmd_counts.len(), 10);
}

#[test]
fn event_for_unknown_message_is_stale_and_mutates_nothing() {
    let mut reg: ActiveMessages<CommandCountPagination> = ActiveMessages::new();
    begin_pagination(&mut reg, listing(40), msg(1), Owner::User(11), 1000, 60);
    let before = reg.entries[0].instance.pages.get_index();
    let event = ComponentEvent {
        message: msg(2),
        actor: 11,
        action: ComponentAction::Nav(PageChange::Next),
    };
    let out = route_component(&mut reg, &event, 1001);
    assert!(matches!(out, RouteOutcome::Stale));
    assert_eq!(reg.len(), 1);
    assert_eq!(reg.entries[0].instance.pages.get_index(), before);
}

#[test]
fn event_for_expired_message_is_stale_and_mutates_nothing() {
    let mut reg: ActiveMessages<CommandCountPagination> = ActiveMessages::new();
    begin_pagination(&mut reg, listing(40), msg(1), Owner::User(11), 1000, 60);
    let event = ComponentEvent {
        message: msg(1),
        actor: 11,
        action: ComponentAction::Nav(PageChange::Next),
    };
    let out = route_component(&mut reg, &event, 1061);
    assert!(matches!(out, RouteOutcome::Stale));
    assert_eq!(reg.entries[0].instance.pages.get_index(), 0);
    assert_eq!(reg.entries[0].last_interaction_at, 1000);
}

#[test]
fn non_owner_event_changes_nothing_then_owner_advances() {
    // Owner A begins a message; user B's click is rejected with the cursor
    // unchanged; A's click advances by one page.
    let mut reg: ActiveMessages<CommandCountPagination> = ActiveMessages::new();
    begin_pagination(&mut reg, listing(40), msg(1), Owner::User(1), 1000, 60);
    let b_click = ComponentEvent {
        message: msg(1),
        actor: 2,
        action: ComponentAction::Nav(PageChange::Next),
    };
    let out = route_component(&mut reg, &b_click, 1001);
    assert!(matches!(out, RouteOutcome::NotOwner));
    assert_eq!(reg.entries[0].instance.pages.get_index(), 0);
    let a_click = ComponentEvent {
        message: msg(1),
        actor: 1,
        action: ComponentAction::Nav(PageChange::Next),
    };
    let out = route_component(&mut reg, &a_click, 1002);
    match out {
        RouteOutcome::Updated(page, controls) => {
            assert!(page.description.starts_with("`cmd15`: 15\n"));
            assert!(!controls.to_first.disabled);
            assert!(!controls.to_next.disabled);
        },
        _ => panic!("owner navigation must update"),
    }
    assert_eq!(reg.entries[0].instance.pages.get_index(), 15);
    assert_eq!(reg.entries[0].last_interaction_at, 1002);
}

#[test]
fn rerendering_twice_without_state_change_is_identical() {
    let m = listing(40);
    let a = m.build_page();
    let b = m.build_page();
    assert_eq!(a.description, b.description);
    assert_eq!(a.footer, b.footer);
}

#[test]
fn anyone_owner_lets_everyone_navigate() {
    let mut reg: ActiveMessages<CommandCountPagination> = ActiveMessages::new();
    begin_pagination(&mut reg, listing(40), msg(1), Owner::Anyone, 1000, 60);
    let event = ComponentEvent {
        message: msg(1),
        actor: 999,
        action: ComponentAction::Nav(PageChange::Last),
    };
    let out = route_component(&mut reg, &event, 1001);
    assert!(matches!(out, RouteOutcome::Updated(..)));
    assert_eq!(reg.entries[0].instance.pages.get_index(), 30);
}

#[test]
fn unknown_control_is_ignored_without_mutation() {
    let mut reg: ActiveMessages<CommandCountPagination> = ActiveMessages::new();
    begin_pagination(&mut reg, listing(40), msg(1), Owner::User(1), 1000, 60);
    let event = ComponentEvent { message: msg(1), actor: 1, action: ComponentAction::Other };
    let out = route_component(&mut reg, &event, 1005);
    assert!(matches!(out, RouteOutcome::Ignored));
    assert_eq!(reg.entries[0].instance.pages.get_index(), 0);
    assert_eq!(reg.entries[0].last_interaction_at, 1000);
}

#[test]
fn modal_jump_applies_valid_page() {
    let mut reg: ActiveMessages<CommandCountPagination> = ActiveMessages::new();
    begin_pagination(&mut reg, listing(40), msg(1), Owner::User(1), 1000, 60);
    let event = ModalEvent { message: msg(1), actor: 1, input: "3".to_string() };
    let out = route_modal(&mut reg, &event, 1001);
    assert!(matches!(out, RouteOutcome::Updated(..)));
    assert_eq!(reg.entries[0].instance.pages.get_index(), 30);
}

#[test]
fn modal_jump_rejects_invalid_input_and_out_of_range() {
    let mut reg: ActiveMessages<CommandCountPagination> = ActiveMessages::new();
    begin_pagination(&mut reg, listing(40), msg(1), Owner::User(1), 1000, 60);
    for input in ["abc", "", "2x", "0", "4", "99"] {
        let event = ModalEvent { message: msg(1), actor: 1, input: input.to_string() };
        let out = route_modal(&mut reg, &event, 1001);
        assert!(matches!(out, RouteOutcome::Rejected(_)), "input {input:?} must be rejected");
        assert_eq!(reg.entries[0].instance.pages.get_index(), 0);
    }
}

#[test]
fn removal_is_idempotent() {
    let mut reg: ActiveMessages<CommandCountPagination> = ActiveMessages::new();
    begin_pagination(&mut reg, listing(40), msg(1), Owner::User(1), 1000, 60);
    assert!(reg.remove(msg(1)).is_some());
    assert!(reg.remove(msg(1)).is_none());
    assert_eq!(reg.len(), 0);
}

#[test]
fn sweeper_expires_idle_entry_and_later_event_is_stale() {
    // An entry created with a 60-second deadline and not touched for 61
    // seconds is swept; a following component event for it is stale.
    let mut reg: ActiveMessages<CommandCountPagination> = ActiveMessages::new();
    begin_pagination(&mut reg, listing(40), msg(1), Owner::User(1), 1000, 60);
    let mut sweeper = Sweeper::new(5, 1000);
    let removed = sweeper.tick(&mut reg, 1060);
    assert_eq!(removed.len(), 0, "at exactly the deadline the entry stays");
    let removed = sweeper.tick(&mut reg, 1066);
    assert_eq!(removed.len(), 1);
    assert_eq!(reg.len(), 0);
    let event = ComponentEvent {
        message: msg(1),
        actor: 1,
        action: ComponentAction::Nav(PageChange::Next),
    };
    let out = route_component(&mut reg, &event, 1067);
    assert!(matches!(out, RouteOutcome::Stale));
}

#[test]
fn sweeper_keeps_recently_touched_entries() {
    let mut reg: ActiveMessages<CommandCountPagination> = ActiveMessages::new();
    begin_pagination(&mut reg, listing(40), msg(1), Owner::User(1), 1000, 60);
    begin_pagination(&mut reg, listing(40), msg(2), Owner::User(1), 1030, 60);
    assert!(reg.touch(msg(1), 1050));
    let removed = reg.sweep(1105);
    assert_eq!(removed.len(), 1);
    assert_eq!(removed[0].message, msg(2));
    assert_eq!(reg.len(), 1);
    assert_eq!(reg.entries[0].message, msg(1));
}

#[test]
fn sweeper_is_not_due_before_its_interval() {
    let mut reg: ActiveMessages<CommandCountPagination> = ActiveMessages::new();
    begin_pagination(&mut reg, listing(40), msg(1), Owner::User(1), 1000, 60);
    let mut sweeper = Sweeper::new(30, 1000);
    assert!(!sweeper.due(1029));
    let removed = sweeper.tick(&mut reg, 1029);
    assert_eq!(removed.len(), 0);
    assert!(sweeper.due(1030));
}

#[test]
fn transient_render_failure_keeps_entry_terminal_removes_it() {
    let mut reg: ActiveMessages<CommandCountPagination> = ActiveMessages::new();
    begin_pagination(&mut reg, listing(40), msg(1), Owner::User(1), 1000, 60);
    let out = route_render_failure(&mut reg, msg(1), false);
    assert!(matches!(out, RouteOutcome::Ignored));
    assert_eq!(reg.len(), 1);
    let out = route_render_failure(&mut reg, msg(1), true);
    assert!(matches!(out, RouteOutcome::Closed));
    assert_eq!(reg.len(), 0);
}

#[test]
fn controls_reflect_cursor_bounds() {
    let m = listing(40);
    let controls = m.build_components();
    assert!(controls.to_first.disabled);
    assert!(controls.to_previous.disabled);
    assert!(!controls.to_next.disabled);
    assert!(!controls.to_last.disabled);
    assert!(!controls.jump.disabled);
    let mut m = listing(40);
    m.pages.advance(PageChange::Last, 1);
    let controls = m.build_components();
    assert!(!controls.to_first.disabled);
    assert!(controls.to_next.disabled);
    assert!(controls.to_last.disabled);
    let single = listing(5);
    let controls = single.build_components();
    assert!(controls.to_first.disabled);
    assert!(controls.to_next.disabled);
    assert!(controls.jump.disabled);
}

#[test]
fn select_menu_types_construct() {
    // The component model types used by the help menu hold plain values.
    let choice = SelectMenuOption {
        default: false,
        description: Some("desc".to_string()),
        label: "top".to_string(),
        value: "top".to_string(),
    };
    assert_eq!(choice.value, "top");
    let c = bathbot::commands::help::back_button(true);
    match c {
        Component::Button(b) => {
            assert!(b.disabled);
            assert_eq!(b.custom_id.as_deref(), Some("help_back"));
            assert_eq!(b.label.as_deref(), Some("Back"));
        },
        _ => panic!("back button must be a button"),
    }
}
