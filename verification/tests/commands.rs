use bathbot::arguments::RankArgs;
use bathbot::commands::embed_builder::{
    MissAnalyzerCheck, ScoreEmbedBuilder, ScoreEmbedBuilderDefault, ScoreEmbedBuilderEdit,
    ScoreEmbedDataPersonalBest,
};
use bathbot::commands::help::{
    CommandIter, Component, MyCommand, MyCommandOption, MyCommandOptionKind, Parts,
    backtrack_subcommand, continue_subcommand, define_help, help_menu_update, option_fields,
    parse_select_menu, split_spaces,
};
use bathbot::commands::minesweeper::{Cell, Difficulty, Minesweeper, board_message};
use bathbot::commands::server_leaderboard::{
    ServerLeaderboard, ServerLeaderboardOsu, UserModeStatsColumn,
};
use bathbot::embeds::{ConfigEmbed, DiscordUser, EmbedsSize, ProfileSize, UserConfig};
use bathbot::{GameMode, GarbageCollectMap, RankStatus, mapset_cover, parse_usize, push_u64};

#[test]
fn parse_usize_accepts_digit_strings() {
    assert_eq!(parse_usize("0"), Some(0));
    assert_eq!(parse_usize("42"), Some(42));
    assert_eq!(parse_usize("007"), Some(7));
}

#[test]
fn parse_usize_rejects_everything_else() {
    assert_eq!(parse_usize(""), None);
    assert_eq!(parse_usize("-1"), None);
    assert_eq!(parse_usize("1a"), None);
    assert_eq!(parse_usize(" 1"), None);
    assert_eq!(parse_usize("99999999999999999999999999999999"), None);
}

#[test]
fn push_u64_writes_decimal_digits() {
    let mut s = String::from("n=");
    push_u64(&mut s, 0);
    push_u64(&mut s, 12305);
    assert_eq!(s, "n=012305");
}

#[test]
fn mapset_cover_builds_the_asset_url() {
    assert_eq!(
        mapset_cover(197337),
        "https://assets.ppy.sh/beatmaps/197337/covers/cover.jpg"
    );
}

#[test]
fn rank_args_plain_number() {
    let args = vec!["badewanne3".to_string(), "42".to_string()];
    let parsed = RankArgs::new(args).unwrap();
    assert_eq!(parsed.name.as_deref(), Some("badewanne3"));
    assert_eq!(parsed.country, None);
    assert_eq!(parsed.rank, 42);
}

#[test]
fn rank_args_country_acronym() {
    let parsed = RankArgs::new(vec!["be10".to_string()]).unwrap();
    assert_eq!(parsed.name, None);
    assert_eq!(parsed.country.as_deref(), Some("BE"));
    assert_eq!(parsed.rank, 10);
}

#[test]
fn rank_args_rejections() {
    assert!(RankArgs::new(vec![]).unwrap_err().starts_with("No rank argument found"));
    assert!(RankArgs::new(vec!["xy".to_string()]).unwrap_err().starts_with("Could not parse rank"));
    assert!(
        RankArgs::new(vec!["abcd".to_string()]).unwrap_err().starts_with("Could not parse rank")
    );
    assert!(
        RankArgs::new(vec!["1e10".to_string()])
            .unwrap_err()
            .starts_with("Could not parse country")
    );
}

#[test]
fn garbage_collect_map_queues_unranked_maps_once() {
    let mut queue: Vec<u32> = Vec::new();
    GarbageCollectMap::new(RankStatus::Ranked, 1).execute(&mut queue);
    GarbageCollectMap::new(RankStatus::Loved, 2).execute(&mut queue);
    GarbageCollectMap::new(RankStatus::Approved, 3).execute(&mut queue);
    assert!(queue.is_empty());
    GarbageCollectMap::new(RankStatus::Graveyard, 4).execute(&mut queue);
    GarbageCollectMap::new(RankStatus::Pending, 5).execute(&mut queue);
    GarbageCollectMap::new(RankStatus::Graveyard, 4).execute(&mut queue);
    assert_eq!(queue, vec![4, 5]);
}

#[test]
fn server_leaderboard_country_filter() {
    let cmd = ServerLeaderboard::Osu(ServerLeaderboardOsu {
        kind: UserModeStatsColumn::Pp,
        country: Some("BE".to_string()),
    });
    assert_eq!(cmd.country(), Some("BE"));
    let cmd = ServerLeaderboard::Osu(ServerLeaderboardOsu {
        kind: UserModeStatsColumn::Pp,
        country: None,
    });
    assert_eq!(cmd.country(), None);
}

#[test]
fn miss_analyzer_check_keeps_guild_only_when_asked() {
    assert_eq!(MissAnalyzerCheck::new(Some(5), true).guild_id, Some(5));
    assert_eq!(MissAnalyzerCheck::new(Some(5), false).guild_id, None);
    assert_eq!(MissAnalyzerCheck::without().guild_id, None);
}

#[test]
fn personal_best_from_index_formats_one_based() {
    let pb = ScoreEmbedDataPersonalBest::from_index(70);
    assert_eq!(pb.idx, Some(70));
    assert_eq!(pb.formatted, "Personal Best #71");
}

#[test]
fn builder_subcommands_construct() {
    let edit = ScoreEmbedBuilder::Edit(ScoreEmbedBuilderEdit);
    let default = ScoreEmbedBuilder::Default(ScoreEmbedBuilderDefault);
    assert!(matches!(edit, ScoreEmbedBuilder::Edit(_)));
    assert!(matches!(default, ScoreEmbedBuilder::Default(_)));
}

#[test]
fn config_embed_renders_the_panel() {
    let user = DiscordUser { id: 77, name: "wanne".to_string(), discriminator: 123, avatar: None };
    let config = UserConfig {
        username: None,
        mode: None,
        profile_size: None,
        embeds_size: EmbedsSize::InitialMaximized,
        show_retries: None,
    };
    let embed = ConfigEmbed::new(&user, config, None);
    assert_eq!(embed.title, "Current user configuration:");
    assert_eq!(embed.author.name, "wanne");
    assert_eq!(embed.author.icon_url, "https://cdn.discordapp.com/embed/avatars/123.png");
    let expected = "```\nosu!: -\nTwitch: -\n\nMode:  | Profile: | Embeds:\n\
        >none  | >compact |  always minimized\n\
        \u{20}osu   |  medium  |  always maximized\n\
        \u{20}taiko |  full    | >initial maximized\n\
        \u{20}ctb   |----------|\n\
        \u{20}mania | Retries: |\n       | >show    |\n       |  hide    |\n```";
    assert_eq!(embed.description, expected);
}

#[test]
fn config_embed_marks_the_chosen_lines() {
    let user = DiscordUser {
        id: 2,
        name: "w".to_string(),
        discriminator: 1,
        avatar: Some(bathbot::embeds::Avatar { hash: "abc".to_string(), animated: true }),
    };
    let config = UserConfig {
        username: Some("peppy".to_string()),
        mode: Some(GameMode::TKO),
        profile_size: Some(ProfileSize::Full),
        embeds_size: EmbedsSize::AlwaysMaximized,
        show_retries: Some(false),
    };
    let embed = ConfigEmbed::new(&user, config, Some("twitchy".to_string()));
    assert_eq!(embed.author.icon_url, "https://cdn.discordapp.com/avatars/2/abc.gif");
    assert!(embed.description.contains("osu!: peppy\n"));
    assert!(embed.description.contains("Twitch: twitchy\n"));
    assert!(embed.description.contains(">taiko |"));
    assert!(embed.description.contains(">full    |"));
    assert!(embed.description.contains(">always maximized\n"));
    assert!(embed.description.contains(">hide    |"));
    assert!(embed.description.contains(" show    |"));
}

#[test]
fn minesweeper_dimensions_per_difficulty() {
    assert_eq!(Difficulty::Easy.create().dim(), (6, 6));
    assert_eq!(Difficulty::Medium.create().dim(), (8, 8));
    assert_eq!(Difficulty::Hard.create().dim(), (9, 11));
}

#[test]
fn minesweeper_places_the_requested_mines_and_numbers_the_rest() {
    let game = Minesweeper::new(8, 8, 12);
    let (w, h) = game.dim();
    let mut mines = 0u32;
    for x in 0..w {
        for y in 0..h {
            match game.field.get(x, y) {
                Cell::Mine => mines += 1,
                Cell::Num(n) => assert!(n <= 8),
                Cell::Undecided => panic!("no cell may stay undecided"),
            }
        }
    }
    assert_eq!(mines, 12);
}

#[test]
fn minesweeper_numbers_count_neighbouring_mines() {
    let game = Minesweeper::new(6, 6, 6);
    let (w, h) = game.dim();
    for x in 0..w {
        for y in 0..h {
            if let Cell::Num(n) = game.field.get(x, y) {
                let mut expect = 0u8;
                for cx in x.saturating_sub(1)..=(x + 1).min(w - 1) {
                    for cy in y.saturating_sub(1)..=(y + 1).min(h - 1) {
                        if !(cx == x && cy == y) && matches!(game.field.get(cx, cy), Cell::Mine) {
                            expect += 1;
                        }
                    }
                }
                assert_eq!(n, expect);
            }
        }
    }
}

fn sample_commands() -> Vec<MyCommand> {
    let leaderboard = MyCommandOption {
        name: "leaderboard".to_string(),
        description: "Show the map leaderboard".to_string(),
        help: None,
        autocomplete: false,
        kind: MyCommandOptionKind::SubCommand { options: vec![] },
    };
    let amount = MyCommandOption {
        name: "amount".to_string(),
        description: "How many entries".to_string(),
        help: Some("How many leaderboard entries to show".to_string()),
        autocomplete: false,
        kind: MyCommandOptionKind::Integer { required: true },
    };
    let top = MyCommandOption {
        name: "top".to_string(),
        description: "Show top plays".to_string(),
        help: None,
        autocomplete: false,
        kind: MyCommandOptionKind::SubCommand { options: vec![amount] },
    };
    vec![
        MyCommand {
            name: "osu".to_string(),
            description: "osu! commands".to_string(),
            help: None,
            authority: false,
            options: vec![leaderboard, top],
        },
        MyCommand {
            name: "owner".to_string(),
            description: "Owner commands".to_string(),
            help: None,
            authority: true,
            options: vec![],
        },
    ]
}

#[test]
fn define_help_describes_the_help_command() {
    let cmd = define_help();
    assert_eq!(cmd.name, "help");
    assert!(!cmd.authority);
    assert_eq!(cmd.options.len(), 1);
    assert_eq!(cmd.options[0].name, "command");
    assert!(cmd.options[0].autocomplete);
    assert!(matches!(cmd.options[0].kind, MyCommandOptionKind::String { required: false }));
}

#[test]
fn option_fields_lists_plain_options_only() {
    let commands = sample_commands();
    let fields = option_fields(&commands[0].options);
    assert!(fields.is_empty(), "subcommands contribute no fields");
    let top = &commands[0].options[1];
    if let MyCommandOptionKind::SubCommand { options } = &top.kind {
        let fields = option_fields(options);
        assert_eq!(fields.len(), 1);
        assert_eq!(fields[0].name, "amount (required)");
        assert_eq!(fields[0].value, "How many leaderboard entries to show");
        assert!(fields[0].inline);
    } else {
        panic!("top must be a subcommand");
    }
}

#[test]
fn parse_select_menu_offers_the_subcommands() {
    let commands = sample_commands();
    let rows = parse_select_menu(&commands[0].options).expect("two subcommands exist");
    assert_eq!(rows.len(), 1);
    match &rows[0] {
        Component::ActionRow(row) => match &row.components[0] {
            Component::SelectMenu(menu) => {
                assert_eq!(menu.custom_id, "help_menu");
                let values: Vec<&str> = menu.options.iter().map(|o| o.value.as_str()).collect();
                assert_eq!(values, vec!["leaderboard", "top"]);
            },
            _ => panic!("expected a select menu"),
        },
        _ => panic!("expected an action row"),
    }
    assert!(parse_select_menu(&commands[1].options).is_none());
}

#[test]
fn command_iter_walks_the_tree() {
    let commands = sample_commands();
    let mut iter = CommandIter::from_command(sample_commands().swap_remove(0));
    assert!(!iter.next("top"), "descending into an existing option succeeds");
    assert!(iter.next("nosuch"), "an unknown name leaves the walk stuck");
    let parts = Parts::from_iter(iter);
    assert_eq!(parts.name, "top");
    assert!(!parts.root);
    assert_eq!(parts.options.len(), 1);
    drop(commands);
}

#[test]
fn split_spaces_matches_std_split() {
    for s in ["osu top", "osu", "", "a  b", " lead"] {
        let ours: Vec<String> = split_spaces(s).into_iter().collect();
        let std_words: Vec<String> = s.split(' ').map(|w| w.to_string()).collect();
        assert_eq!(ours, std_words, "splitting {s:?}");
    }
}

#[test]
fn continue_subcommand_descends_and_extends_the_title() {
    let mut title = "osu".to_string();
    let (parts, authority) =
        continue_subcommand(&mut sample_commands(), &mut title, "top").expect("top exists under osu");
    assert_eq!(parts.name, "top");
    assert!(!authority);
    assert_eq!(title, "osu top");
    let mut title = "osu".to_string();
    assert!(continue_subcommand(&mut sample_commands(), &mut title, "nosuch").is_err());
    assert_eq!(title, "osu");
}

#[test]
fn backtrack_subcommand_cuts_the_last_name() {
    let mut title = "osu top".to_string();
    let (parts, authority) =
        backtrack_subcommand(&mut sample_commands(), &mut title).expect("osu exists");
    assert_eq!(parts.name, "osu");
    assert!(parts.root);
    assert!(!authority);
    assert_eq!(title, "osu");
    let mut title = "owner".to_string();
    let (parts, authority) =
        backtrack_subcommand(&mut sample_commands(), &mut title).expect("owner exists");
    assert_eq!(parts.name, "owner");
    assert!(authority, "the owner command requires authority");
    assert_eq!(title, "owner", "a one-word path has nothing to cut");
    let mut title = "unknown top".to_string();
    assert!(backtrack_subcommand(&mut sample_commands(), &mut title).is_err());
    assert_eq!(title, "unknown top");
}

#[test]
fn help_menu_update_descends_and_appends_back_button() {
    let mut title = "osu".to_string();
    let update = help_menu_update(&mut sample_commands(), &mut title, Some("top")).unwrap();
    assert_eq!(title, "osu top");
    assert_eq!(update.parts.name, "top");
    assert!(!update.authority);
    match update.components.last().unwrap() {
        Component::ActionRow(row) => match &row.components[0] {
            Component::Button(b) => assert!(!b.disabled, "a subpage can go back"),
            _ => panic!("the last row holds the back button"),
        },
        _ => panic!("the last component is a row"),
    }
}

#[test]
fn help_menu_update_backtracks_to_the_root() {
    let mut title = "osu top".to_string();
    let update = help_menu_update(&mut sample_commands(), &mut title, None).unwrap();
    assert_eq!(title, "osu");
    assert_eq!(update.parts.name, "osu");
    assert!(update.parts.root);
    match update.components.last().unwrap() {
        Component::ActionRow(row) => match &row.components[0] {
            Component::Button(b) => assert!(b.disabled, "the root page cannot go back"),
            _ => panic!("the last row holds the back button"),
        },
        _ => panic!("the last component is a row"),
    }
}

#[test]
fn board_message_renders_header_and_spoiler_tokens() {
    let all_mines = Minesweeper::new(1, 1, 1);
    assert_eq!(board_message(&all_mines), "Here's a 1x1 game with 1 mines:\n||:bomb:||");
    let no_mines = Minesweeper::new(2, 2, 0);
    assert_eq!(
        board_message(&no_mines),
        "Here's a 2x2 game with 0 mines:\n||:zero:||||:zero:||\n||:zero:||||:zero:||"
    );
}

#[test]
fn board_message_renders_every_cell() {
    let game = Difficulty::Easy.create();
    let message = board_message(&game);
    let tokens = message.matches("||:").count();
    assert_eq!(tokens, 36, "one spoiler token per cell of the 6x6 grid");
    assert_eq!(message.matches("||:bomb:||").count(), 6, "one token per mine");
}
