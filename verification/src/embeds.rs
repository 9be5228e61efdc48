//! The user-configuration embed: a fixed-width text panel marking the
//! user's chosen mode, profile size, embed size, and retry display.

use crate::numbers::{push_u64, spec_dec_digits};
use crate::osu::GameMode;
use vstd::prelude::*;

verus! {

/// How much of a profile a profile embed shows.
#[derive(Clone, Copy, PartialEq, Eq, Structural, Debug)]
pub enum ProfileSize {
    Compact,
    Medium,
    Full,
}

/// How score embeds are sized over their lifetime.
#[derive(Clone, Copy, PartialEq, Eq, Structural, Debug)]
pub enum EmbedsSize {
    AlwaysMinimized,
    AlwaysMaximized,
    InitialMaximized,
}

/// A user's stored configuration, as the embed shows it.
pub struct UserConfig {
    /// Linked osu! name, if any.
    pub username: Option<String>,
    /// Preferred game mode, if one is set.
    pub mode: Option<GameMode>,
    /// Preferred profile size; compact when unset.
    pub profile_size: Option<ProfileSize>,
    /// Preferred embed size.
    pub embeds_size: EmbedsSize,
    /// Whether to show retry counts; shown when unset.
    pub show_retries: Option<bool>,
}

impl UserConfig {
    /// The profile size in effect: the stored one, or compact.
    pub open spec fn spec_profile(self) -> ProfileSize {
        match self.profile_size {
            Some(p) => p,
            None => ProfileSize::Compact,
        }
    }

    /// Whether retries are shown: the stored choice, or yes.
    pub open spec fn spec_show_retries(self) -> bool {
        match self.show_retries {
            Some(b) => b,
            None => true,
        }
    }
}

/// The author line of an embed: display name, icon, and an optional link.
pub struct Author {
    pub name: String,
    pub icon_url: String,
    pub url: Option<String>,
}

/// A user's avatar: the image hash and whether it is animated.
pub struct Avatar {
    pub hash: String,
    pub animated: bool,
}

/// The platform user the embed is built for.
pub struct DiscordUser {
    pub id: u64,
    pub name: String,
    pub discriminator: u16,
    pub avatar: Option<Avatar>,
}

/// The selection marker: `>` on the chosen line, a space elsewhere.
pub open spec fn marker(chosen: bool) -> Seq<char> {
    if chosen {
        ">"@
    } else {
        " "@
    }
}

/// The avatar image URL: the user's own avatar — animated ones as GIF —
/// or the default avatar for their discriminator.
pub open spec fn spec_avatar_url(user: DiscordUser) -> Seq<char> {
    match user.avatar {
        Some(av) => "https://cdn.discordapp.com/avatars/"@ + spec_dec_digits(user.id as int)
            + "/"@ + av.hash@ + if av.animated {
            ".gif"@
        } else {
            ".png"@
        },
        None => "https://cdn.discordapp.com/embed/avatars/"@ + spec_dec_digits(
            user.discriminator as int,
        ) + ".png"@,
    }
}

/// The head of the panel: the linked names and the table heading.
pub open spec fn spec_config_head(config: UserConfig, twitch: Option<String>) -> Seq<char> {
    "```\nosu!: "@ + (match config.username {
        Some(name) => name@ + "\n"@,
        None => "-\n"@,
    }) + "Twitch: "@ + (match twitch {
        Some(name) => name@ + "\n"@,
        None => "-\n"@,
    }) + "\nMode:  | Profile: | Embeds:\n"@
}

/// The first half of the table: the "none" and "osu" rows.
pub open spec fn spec_config_table_a(config: UserConfig) -> Seq<char> {
    marker(config.mode is None) + "none  | "@ + marker(
        config.spec_profile() == ProfileSize::Compact,
    ) + "compact | "@ + marker(config.embeds_size == EmbedsSize::AlwaysMinimized)
        + "always minimized\n"@ + marker(config.mode === Some(GameMode::STD)) + "osu   | "@
        + marker(config.spec_profile() == ProfileSize::Medium) + "medium  | "@ + marker(
        config.embeds_size == EmbedsSize::AlwaysMaximized,
    ) + "always maximized\n"@
}

/// The "taiko" and "ctb" rows of the table.
pub open spec fn spec_config_table_b(config: UserConfig) -> Seq<char> {
    marker(config.mode === Some(GameMode::TKO)) + "taiko | "@ + marker(
        config.spec_profile() == ProfileSize::Full,
    ) + "full    | "@ + marker(config.embeds_size == EmbedsSize::InitialMaximized)
        + "initial maximized\n"@ + marker(config.mode === Some(GameMode::CTB))
        + "ctb   |----------|\n"@
}

/// The "mania" and retry rows of the table.
pub open spec fn spec_config_table_c(config: UserConfig) -> Seq<char> {
    marker(config.mode === Some(GameMode::MNA)) + "mania | Retries: |\n       | "@ + marker(
        config.spec_show_retries(),
    ) + "show    |\n       | "@ + marker(!config.spec_show_retries()) + "hide    |\n```"@
}

/// The whole configuration panel, character for character: the linked
/// names, then one table marking the chosen mode, profile size, embed
/// size, and retry display.
pub open spec fn spec_config_description(config: UserConfig, twitch: Option<String>) -> Seq<
    char,
> {
    spec_config_head(config, twitch) + spec_config_table_a(config) + spec_config_table_b(config)
        + spec_config_table_c(config)
}

/// The embed showing a user's current configuration.
pub struct ConfigEmbed {
    pub author: Author,
    pub description: String,
    pub title: String,
}

/// Appends `>` when the line is the chosen one, a space otherwise.
fn push_marker(s: &mut String, chosen: bool)
    ensures
        final(s)@ == old(s)@ + marker(chosen),
{
    if chosen {
        s.append(">");
    } else {
        s.append(" ");
    }
}

/// Appends the head of the panel: the linked names and the table heading.
fn append_head(d: &mut String, config: &UserConfig, twitch: &Option<String>)
    ensures
        final(d)@ == old(d)@ + spec_config_head(*config, *twitch),
{
    let ghost before = d@;
    d.append("```\nosu!: ");
    match &config.username {
        Some(name) => {
            d.append(name.as_str());
            d.append("\n");
        },
        None => {
            d.append("-\n");
        },
    }
    d.append("Twitch: ");
    match twitch {
        Some(name) => {
            d.append(name.as_str());
            d.append("\n");
        },
        None => {
            d.append("-\n");
        },
    }
    d.append("\nMode:  | Profile: | Embeds:\n");
    proof {
        assert(d@ =~= before + spec_config_head(*config, *twitch));
    }
}

/// Appends the first half of the table: the "none" and "osu" rows.
#[verifier::spinoff_prover]
#[verifier::rlimit(100)]
fn append_table_a(d: &mut String, config: &UserConfig)
    ensures
        final(d)@ == old(d)@ + spec_config_table_a(*config),
{
    let ghost before = d@;
    let profile = match config.profile_size {
        Some(p) => p,
        None => ProfileSize::Compact,
    };
    push_marker(d, matches!(config.mode, Option::None));
    d.append("none  | ");
    push_marker(d, matches!(profile, ProfileSize::Compact));
    d.append("compact | ");
    push_marker(d, matches!(config.embeds_size, EmbedsSize::AlwaysMinimized));
    d.append("always minimized\n");
    push_marker(d, matches!(config.mode, Some(GameMode::STD)));
    d.append("osu   | ");
    push_marker(d, matches!(profile, ProfileSize::Medium));
    d.append("medium  | ");
    push_marker(d, matches!(config.embeds_size, EmbedsSize::AlwaysMaximized));
    d.append("always maximized\n");
    proof {
        assert(d@ =~= before + spec_config_table_a(*config));
    }
}

/// Appends the "taiko" and "ctb" rows.
#[verifier::spinoff_prover]
#[verifier::rlimit(100)]
fn append_table_b(d: &mut String, config: &UserConfig)
    ensures
        final(d)@ == old(d)@ + spec_config_table_b(*config),
{
    let ghost before = d@;
    let profile = match config.profile_size {
        Some(p) => p,
        None => ProfileSize::Compact,
    };
    push_marker(d, matches!(config.mode, Some(GameMode::TKO)));
    d.append("taiko | ");
    push_marker(d, matches!(profile, ProfileSize::Full));
    d.append("full    | ");
    push_marker(d, matches!(config.embeds_size, EmbedsSize::InitialMaximized));
    d.append("initial maximized\n");
    push_marker(d, matches!(config.mode, Some(GameMode::CTB)));
    d.append("ctb   |----------|\n");
    proof {
        assert(d@ =~= before + spec_config_table_b(*config));
    }
}

/// Appends the "mania" and retry rows.
#[verifier::spinoff_prover]
#[verifier::rlimit(100)]
fn append_table_c(d: &mut String, config: &UserConfig)
    ensures
        final(d)@ == old(d)@ + spec_config_table_c(*config),
{
    let ghost before = d@;
    let show_retries = match config.show_retries {
        Some(b) => b,
        None => true,
    };
    push_marker(d, matches!(config.mode, Some(GameMode::MNA)));
    d.append("mania | Retries: |\n       | ");
    push_marker(d, show_retries);
    d.append("show    |\n       | ");
    push_marker(d, !show_retries);
    d.append("hide    |\n```");
    proof {
        assert(d@ =~= before + spec_config_table_c(*config));
    }
}

impl ConfigEmbed {
    /// Builds the configuration embed for `author`: their avatar and name
    /// in the author line, and the configuration panel as the description.
    pub fn new(author: &DiscordUser, config: UserConfig, twitch: Option<String>) -> (embed:
        ConfigEmbed)
        ensures
            embed.author.name == author.name,
            embed.author.icon_url@ == spec_avatar_url(*author),
            embed.author.url is None,
            embed.description@ == spec_config_description(config, twitch),
            embed.title@ == "Current user configuration:"@,
    {
        let mut icon_url = String::new();
        match &author.avatar {
            Some(av) => {
                icon_url.append("https://cdn.discordapp.com/avatars/");
                push_u64(&mut icon_url, author.id);
                icon_url.append("/");
                icon_url.append(av.hash.as_str());
                if av.animated {
                    icon_url.append(".gif");
                } else {
                    icon_url.append(".png");
                }
            },
            None => {
                icon_url.append("https://cdn.discordapp.com/embed/avatars/");
                push_u64(&mut icon_url, author.discriminator as u64);
                icon_url.append(".png");
            },
        }
        proof {
            assert(icon_url@ =~= spec_avatar_url(*author));
        }
        let embed_author = Author { name: author.name.clone(), icon_url, url: None };
        let mut d = String::new();
        append_head(&mut d, &config, &twitch);
        append_table_a(&mut d, &config);
        append_table_b(&mut d, &config);
        append_table_c(&mut d, &config);
        proof {
            assert(d@ =~= spec_config_description(config, twitch));
        }
        ConfigEmbed {
            author: embed_author,
            description: d,
            title: String::from_str("Current user configuration:"),
        }
    }
}

} // verus!
