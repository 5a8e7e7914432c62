use twitch_cli::select::{
    begin_choice, choose_line_string, column_widths, confirm_prompt_string, confirm_step,
    number_step, render_table, retry_notice, ChoicePhase, ConfirmStep, NumberStep,
};
use twitch_cli::types::{Game, Listable, Stream};

fn game(name: &str) -> Game {
    Game {
        name: name.to_string(),
        id: "0".to_string(),
    }
}

fn row(value: &str) -> Vec<(String, String)> {
    vec![(value.to_string(), "Name".to_string())]
}

#[test]
fn column_width_counts_graphemes_not_bytes() {
    let rows = vec![row("\u{e9}"), row("ab")];
    assert_eq!(column_widths(&rows), vec![2]);
}

#[test]
fn column_width_of_decomposed_grapheme_is_one() {
    // Two chars and three bytes, but a single grapheme cluster.
    let rows = vec![row("e\u{301}")];
    assert_eq!(column_widths(&rows), vec![1]);
}

#[test]
fn column_widths_per_column() {
    let rows = vec![
        vec![
            ("alice".to_string(), "Name".to_string()),
            ("Chess".to_string(), "Game".to_string()),
        ],
        vec![
            ("bo".to_string(), "Name".to_string()),
            ("Shogidokoro".to_string(), "Game".to_string()),
        ],
    ];
    assert_eq!(column_widths(&rows), vec![5, 11]);
}

#[test]
fn table_lines_are_aligned() {
    let rows = vec![row("Chess"), row("Go")];
    let lines = render_table(&rows);
    assert_eq!(lines, vec!["   Name    ", "1) Chess   ", "2) Go      "]);
}

#[test]
fn table_label_wider_than_column_keeps_overhang() {
    // Column width is 2 ("Go"), label "Name" is 4: it overruns the width
    // and keeps one space of the gutter.
    let rows = vec![row("Go")];
    let lines = render_table(&rows);
    assert_eq!(lines, vec!["   Name ", "1) Go   "]);
}

#[test]
fn table_number_column_width_grows_with_count() {
    let mut rows = Vec::new();
    for _ in 0..10 {
        rows.push(row("x"));
    }
    let lines = render_table(&rows);
    assert_eq!(lines[0], "    Name");
    assert_eq!(lines[1], " 1) x   ");
    assert_eq!(lines[10], "10) x   ");
}

#[test]
fn info_mode_renders_table_and_reads_nothing() {
    let games = vec![game("Chess"), game("Go")];
    let screen = begin_choice(&games, true);
    assert_eq!(screen.phase, ChoicePhase::DoneInfo);
    assert_eq!(screen.lines.len(), 3);
}

#[test]
fn info_mode_with_single_entity_still_reads_nothing() {
    let games = vec![game("Chess")];
    let screen = begin_choice(&games, true);
    assert_eq!(screen.phase, ChoicePhase::DoneInfo);
}

#[test]
fn single_entity_prompts_for_confirmation() {
    let games = vec![game("Chess")];
    let screen = begin_choice(&games, false);
    assert_eq!(screen.phase, ChoicePhase::AwaitConfirm);
    assert_eq!(screen.lines, vec!["Want to watch Chess? [y/N]"]);
}

#[test]
fn several_entities_prompt_for_a_number() {
    let games = vec![game("Chess"), game("Go")];
    let screen = begin_choice(&games, false);
    assert_eq!(screen.phase, ChoicePhase::AwaitNumber);
    assert_eq!(
        screen.lines[0],
        "Choose by typing the number next to the option [1 - 2]"
    );
    assert_eq!(screen.lines.len(), 4);
}

#[test]
fn stream_rows_render_their_three_cells() {
    let streams = vec![Stream {
        game: "Chess".to_string(),
        viewers: 1234,
        channel: "alice".to_string(),
    }];
    let fields = streams[0].fields();
    assert_eq!(fields.len(), 3);
    assert_eq!(fields[0], ("alice".to_string(), "Name".to_string()));
    assert_eq!(fields[1], ("Chess".to_string(), "Game".to_string()));
    assert_eq!(fields[2], ("1234".to_string(), "Viewers".to_string()));
}

#[test]
fn stream_table_aligns_all_three_columns() {
    let streams = vec![
        Stream {
            game: "Chess".to_string(),
            viewers: 10,
            channel: "alice".to_string(),
        },
        Stream {
            game: "Go".to_string(),
            viewers: 2,
            channel: "bob".to_string(),
        },
    ];
    let screen = begin_choice(&streams, true);
    assert_eq!(screen.phase, ChoicePhase::DoneInfo);
    assert_eq!(
        screen.lines,
        vec![
            "   Name    Game    Viewers",
            "1) alice   Chess   10   ",
            "2) bob     Go      2    ",
        ]
    );
}

#[test]
fn confirm_accepts_y() {
    assert_eq!(confirm_step("y"), ConfirmStep::Accept);
    assert_eq!(confirm_step("y\n"), ConfirmStep::Accept);
    assert_eq!(confirm_step("  y  "), ConfirmStep::Accept);
}

#[test]
fn confirm_declines_capital_n() {
    assert_eq!(confirm_step("N"), ConfirmStep::Decline);
    assert_eq!(confirm_step("N\n"), ConfirmStep::Decline);
}

#[test]
fn confirm_reprompts_anything_else() {
    assert_eq!(confirm_step("maybe"), ConfirmStep::RetryPrompt);
    assert_eq!(confirm_step("Y"), ConfirmStep::RetryPrompt);
    assert_eq!(confirm_step("n"), ConfirmStep::RetryPrompt);
    assert_eq!(confirm_step(""), ConfirmStep::RetryPrompt);
}

#[test]
fn number_zero_and_above_count_are_rejected() {
    assert_eq!(number_step("0", 3), NumberStep::RetryNumber);
    assert_eq!(number_step("4", 3), NumberStep::RetryNumber);
}

#[test]
fn number_in_range_selects_zero_indexed() {
    assert_eq!(number_step("1", 3), NumberStep::Chosen(0));
    assert_eq!(number_step("2", 3), NumberStep::Chosen(1));
    assert_eq!(number_step("3", 3), NumberStep::Chosen(2));
}

#[test]
fn number_input_is_trimmed() {
    assert_eq!(number_step(" 2\n", 3), NumberStep::Chosen(1));
}

#[test]
fn number_accepts_leading_plus() {
    assert_eq!(number_step("+2", 3), NumberStep::Chosen(1));
}

#[test]
fn number_rejects_non_numeric() {
    assert_eq!(number_step("abc", 3), NumberStep::RetryNumber);
    assert_eq!(number_step("", 3), NumberStep::RetryNumber);
    assert_eq!(number_step("-1", 3), NumberStep::RetryNumber);
    assert_eq!(number_step("1.5", 3), NumberStep::RetryNumber);
}

#[test]
fn number_rejects_overflowing_numerals() {
    assert_eq!(
        number_step("18446744073709551616", 3),
        NumberStep::RetryNumber
    );
}

#[test]
fn prompt_strings() {
    assert_eq!(confirm_prompt_string("Chess"), "Want to watch Chess? [y/N]");
    assert_eq!(
        choose_line_string(12),
        "Choose by typing the number next to the option [1 - 12]"
    );
    assert_eq!(retry_notice(), "Try again!\n");
}

#[test]
fn listable_names() {
    let g = game("Chess");
    assert_eq!(g.name(), "Chess");
    let s = Stream {
        game: String::new(),
        viewers: 0,
        channel: "alice".to_string(),
    };
    assert_eq!(s.name(), "alice");
    assert_eq!(g.fields(), vec![("Chess".to_string(), "Name".to_string())]);
}
