use themeprism::command_palette::{
    command_items, filter_commands, match_command, move_palette_selection, rank_commands,
    CommandId,
};
use themeprism::state::CommandPaletteState;
use themeprism::workspace::PanelId;

#[test]
fn command_provider_exposes_expected_core_commands() {
    let items = command_items(PanelId::Tokens);

    assert!(items.iter().any(|item| item.id == CommandId::SaveProject));
    assert!(items.iter().any(|item| item.id == CommandId::OpenConfig));
    assert!(items.iter().any(|item| item.id == CommandId::Quit));
}

#[test]
fn empty_query_keeps_context_commands_ahead_of_global_commands() {
    let ranked = filter_commands(PanelId::Preview, "");
    let preview_index = ranked
        .iter()
        .position(|item| item.id == CommandId::ToggleFullscreen)
        .unwrap();
    let quit_index = ranked
        .iter()
        .position(|item| item.id == CommandId::Quit)
        .unwrap();

    assert!(preview_index < quit_index);
}

#[test]
fn query_matching_is_case_insensitive_and_substring_friendly() {
    let ranked = filter_commands(PanelId::Tokens, "expo");

    assert_eq!(
        ranked.first().map(|item| item.id),
        Some(CommandId::ExportTheme)
    );
}

#[test]
fn empty_query_lists_every_command_with_context_first() {
    let ranked: Vec<CommandId> = filter_commands(PanelId::Preview, "   ")
        .iter()
        .map(|item| item.id)
        .collect();
    assert_eq!(
        ranked,
        vec![
            CommandId::ToggleFullscreen,
            CommandId::SaveProject,
            CommandId::LoadProject,
            CommandId::ExportTheme,
            CommandId::Reset,
            CommandId::OpenConfig,
            CommandId::OpenHelp,
            CommandId::Quit,
        ]
    );
}

#[test]
fn config_panels_raise_open_config() {
    let ranked = filter_commands(PanelId::ExportTargets, "");
    assert_eq!(ranked[0].id, CommandId::OpenConfig);
    let items = command_items(PanelId::ExportTargets);
    assert_eq!(items[4].context_score, 10);
    assert_eq!(items[6].context_score, 0);
}

#[test]
fn title_matches_rank_before_keyword_matches() {
    // "open" is in the titles of Open Config and Open Help, and a keyword of Load Project.
    let ranked: Vec<CommandId> = filter_commands(PanelId::Tokens, " OPEN ")
        .iter()
        .map(|item| item.id)
        .collect();
    assert_eq!(
        ranked,
        vec![CommandId::OpenConfig, CommandId::OpenHelp, CommandId::LoadProject]
    );
}

#[test]
fn unmatched_query_lists_nothing() {
    assert!(filter_commands(PanelId::Tokens, "zzz").is_empty());
}

#[test]
fn match_command_ranks_title_keyword_and_miss() {
    let items = command_items(PanelId::Tokens);
    let reset = items.iter().find(|item| item.id == CommandId::Reset).unwrap();
    assert_eq!(match_command(reset, ""), Some(0));
    assert_eq!(match_command(reset, "res"), Some(0));
    assert_eq!(match_command(reset, "defaults"), Some(1));
    assert_eq!(match_command(reset, "quit"), None);
    // The query is expected lower-cased already.
    assert_eq!(match_command(reset, "RES"), None);
}

#[test]
fn rank_commands_keeps_list_order_among_equals() {
    let items = command_items(PanelId::Tokens);
    let ranked: Vec<CommandId> = rank_commands(&items, "project")
        .iter()
        .map(|item| item.id)
        .collect();
    assert_eq!(ranked, vec![CommandId::SaveProject, CommandId::LoadProject]);
}

fn palette(query: &str, selected: usize) -> CommandPaletteState {
    CommandPaletteState {
        query: query.to_string(),
        selected,
    }
}

#[test]
fn palette_selection_wraps_around_the_matching_commands() {
    let mut p = palette("", 7);
    move_palette_selection(&mut p, PanelId::Tokens, 1);
    assert_eq!(p.selected, 0);
    move_palette_selection(&mut p, PanelId::Tokens, -1);
    assert_eq!(p.selected, 7);
    move_palette_selection(&mut p, PanelId::Tokens, -3);
    assert_eq!(p.selected, 4);
    assert_eq!(p.query, "");
}

#[test]
fn palette_selection_past_the_matches_is_held_to_the_last_one() {
    let matches = filter_commands(PanelId::Tokens, "project").len();
    assert_eq!(matches, 2);
    let mut p = palette("project", 5);
    move_palette_selection(&mut p, PanelId::Tokens, 0);
    assert_eq!(p.selected, 1);
    move_palette_selection(&mut p, PanelId::Tokens, 1);
    assert_eq!(p.selected, 0);
}

#[test]
fn palette_selection_without_matches_stays_on_the_first_row() {
    let mut p = palette("zzz", 3);
    move_palette_selection(&mut p, PanelId::Tokens, 1);
    assert_eq!(p.selected, 0);
}
