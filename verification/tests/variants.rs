use bathbot::impls::command_count::CommandCountPagination;
use bathbot::impls::medal_count::MedalCountPagination;
use bathbot::impls::medals_missing::{MedalType, MedalsMissingPagination};
use bathbot::{ComponentAction, ComponentOutcome, IActiveMessage, PageChange, PageError};

fn medal(name: &str) -> MedalType {
    MedalType::Medal {
        name: name.to_string(),
        url: format!("https://osekai.net/medals/?medal={}", name.replace(' ', "+")),
    }
}

fn missing_listing() -> MedalsMissingPagination {
    let medals = vec![
        MedalType::Group("Skill".to_string()),
        medal("Rising Star"),
        medal("Constellation Prize"),
        MedalType::Group("Dedication".to_string()),
        MedalType::Group("Hush-Hush".to_string()),
        medal("Obsessed"),
    ];
    MedalsMissingPagination::new("wanne".to_string(), 2211396, "DE".to_string(), medals, 300)
        .unwrap()
}

#[test]
fn missing_medals_renders_groups_and_rows() {
    let m = missing_listing();
    let page = m.build_page();
    let expected = "__**Skill:**__\n\
        - [Rising Star](https://osekai.net/medals/?medal=Rising+Star)\n\
        - [Constellation Prize](https://osekai.net/medals/?medal=Constellation+Prize)\n\
        __**Dedication:**__\nAll medals acquired\n\
        __**Hush-Hush:**__\n\
        - [Obsessed](https://osekai.net/medals/?medal=Obsessed)\n";
    assert_eq!(page.description, expected);
    assert_eq!(page.footer, "Page 1/1 | Missing 6/300 medals");
}

#[test]
fn missing_medals_group_closing_the_listing_is_complete() {
    let medals = vec![medal("A"), MedalType::Group("Empty Tail".to_string())];
    let m =
        MedalsMissingPagination::new("u".to_string(), 1, "BE".to_string(), medals, 2).unwrap();
    let page = m.build_page();
    assert_eq!(
        page.description,
        "- [A](https://osekai.net/medals/?medal=A)\n__**Empty Tail:**__\nAll medals acquired"
    );
}

#[test]
fn missing_medals_author_line_links_the_profile() {
    let m = missing_listing();
    let author = m.author();
    assert_eq!(author.name, "wanne");
    assert_eq!(author.url.as_deref(), Some("https://osu.ppy.sh/u/2211396"));
    assert_eq!(author.icon_url, "https://osu.ppy.sh/images/flags/DE.png");
}

#[test]
fn missing_medals_navigation_through_the_shared_handler() {
    let medals: Vec<MedalType> = (0..40).map(|i| medal(&format!("M{i}"))).collect();
    let mut m =
        MedalsMissingPagination::new("u".to_string(), 1, "BE".to_string(), medals, 40).unwrap();
    let out = m.handle_component(ComponentAction::Nav(PageChange::Next));
    assert_eq!(out, ComponentOutcome::Update);
    assert_eq!(m.pages.get_index(), 15);
    let page = m.build_page();
    assert!(page.description.starts_with("- [M15](https://osekai.net/medals/?medal=M15)\n"));
    assert_eq!(page.footer, "Page 2/3 | Missing 40/40 medals");
    let out = m.handle_component(ComponentAction::Other);
    assert_eq!(out, ComponentOutcome::Ignore);
    assert_eq!(m.pages.get_index(), 15);
}

#[test]
fn missing_medals_modal_jump() {
    let medals: Vec<MedalType> = (0..40).map(|i| medal(&format!("M{i}"))).collect();
    let mut m =
        MedalsMissingPagination::new("u".to_string(), 1, "BE".to_string(), medals, 40).unwrap();
    assert_eq!(m.handle_modal("3"), Ok(()));
    assert_eq!(m.pages.get_index(), 30);
    assert_eq!(m.handle_modal("9"), Err(PageError::JumpOutOfRange));
    assert_eq!(m.pages.get_index(), 30);
    assert_eq!(m.handle_modal("three"), Err(PageError::InvalidJumpInput));
    assert_eq!(m.pages.get_index(), 30);
}

#[test]
fn command_counts_render_window_rows() {
    let counts = vec![
        ("top".to_string(), 907u32),
        ("recent".to_string(), 83),
        ("map".to_string(), 0),
    ];
    let m = CommandCountPagination::new(counts, 1_700_000_000).unwrap();
    let page = m.build_page();
    assert_eq!(page.description, "`top`: 907\n`recent`: 83\n`map`: 0\n");
    assert_eq!(page.footer, "Page 1/1 | Booted up 1700000000");
}

#[test]
fn medal_count_ranking_renders_global_ranks() {
    let ranking: Vec<(String, u32)> =
        (0..25).map(|i| (format!("player{i}"), 500 - i)).collect();
    let mut m = MedalCountPagination::new(ranking, Some(17)).unwrap();
    let page = m.build_page();
    assert!(page.description.starts_with("1) player0: 500\n"));
    assert_eq!(page.footer, "Page 1/3");
    assert_eq!(m.jump_to_author(), Ok(()));
    assert_eq!(m.pages.get_index(), 10);
    let page = m.build_page();
    assert!(page.description.starts_with("11) player10: 490\n"));
    assert!(page.description.contains("18) player17: 483\n"));
}

#[test]
fn medal_count_without_author_position_rejects_the_jump() {
    let ranking: Vec<(String, u32)> = (0..25).map(|i| (format!("p{i}"), i)).collect();
    let mut m = MedalCountPagination::new(ranking, None).unwrap();
    assert_eq!(m.jump_to_author(), Err(PageError::ItemOutOfRange));
    assert_eq!(m.pages.get_index(), 0);
}

#[test]
fn closing_marks_the_instance_closed() {
    let mut m = missing_listing();
    assert!(!m.closed);
    m.close();
    assert!(m.closed);
}
