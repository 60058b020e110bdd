use prompt_bot::error::PromptError;
use prompt_bot::ident::{decimal_string, make_button_id};
use prompt_bot::keyboard::{component_id_to_button, is_first_button, split_fields, Keyboard};
use prompt_bot::share::{BUTTON_SEP, ROW_SEP};

fn rows_of(keyboard: &Keyboard) -> Vec<Vec<String>> {
    let mut rows = Vec::new();
    for r in 0..keyboard.row_count() {
        let mut row = Vec::new();
        for b in 0..keyboard.row_len(r).unwrap() {
            row.push(keyboard.label(r, b).unwrap().clone());
        }
        rows.push(row);
    }
    rows
}

#[test]
fn separators_are_colon_and_comma() {
    assert_eq!(ROW_SEP, ':');
    assert_eq!(BUTTON_SEP, ',');
}

#[test]
fn parse_yes_no_maybe() {
    let keyboard = Keyboard::parse("Yes,No:Maybe");
    assert_eq!(keyboard.row_count(), 2);
    assert_eq!(keyboard.row_len(0), Some(2));
    assert_eq!(keyboard.row_len(1), Some(1));
    assert_eq!(keyboard.row_len(2), None);
    assert_eq!(rows_of(&keyboard), vec![vec!["Yes", "No"], vec!["Maybe"]]);
    assert_eq!(keyboard.label(1, 1), None);
    assert_eq!(keyboard.label(2, 0), None);
    assert_eq!(keyboard.first_label(), "Yes");
}

#[test]
fn parse_empty_text_is_one_empty_button() {
    let keyboard = Keyboard::parse("");
    assert_eq!(rows_of(&keyboard), vec![vec![""]]);
}

#[test]
fn parse_keeps_empty_fields() {
    let keyboard = Keyboard::parse("a,:,b,:");
    assert_eq!(rows_of(&keyboard), vec![vec!["a", ""], vec!["", "b", ""], vec![""]]);
}

#[test]
fn parse_keeps_labels_beyond_ascii() {
    let keyboard = Keyboard::parse("Да,Нет:可能 ✓");
    assert_eq!(rows_of(&keyboard), vec![vec!["Да", "Нет"], vec!["可能 ✓"]]);
}

#[test]
fn parse_agrees_with_std_split() {
    for text in ["Yes,No", "a:b:c", ",,", "::", "x,y:z,,w:", "one"] {
        let wanted: Vec<Vec<String>> = text
            .split(ROW_SEP)
            .map(|row| row.split(BUTTON_SEP).map(String::from).collect())
            .collect();
        assert_eq!(rows_of(&Keyboard::parse(text)), wanted);
    }
}

#[test]
fn split_fields_splits_at_every_separator() {
    assert_eq!(split_fields("a,b,,c", ','), vec!["a", "b", "", "c"]);
    assert_eq!(split_fields("", ','), vec![""]);
    assert_eq!(split_fields(",", ','), vec!["", ""]);
    assert_eq!(split_fields("a:b", ','), vec!["a:b"]);
}

#[test]
fn split_then_join_gives_the_text_back() {
    for text in ["a,b,,c", "", ",", "::x", "é,ü"] {
        assert_eq!(split_fields(text, ',').join(","), text);
    }
}

#[test]
fn decimal_string_writes_decimal() {
    assert_eq!(decimal_string(0), "0");
    assert_eq!(decimal_string(7), "7");
    assert_eq!(decimal_string(10), "10");
    assert_eq!(decimal_string(1234567890), "1234567890");
    assert_eq!(decimal_string(usize::MAX), usize::MAX.to_string());
}

#[test]
fn make_button_id_has_the_documented_form() {
    assert_eq!(make_button_id(0, 0), "id_0_0");
    assert_eq!(make_button_id(1, 0), "id_1_0");
    assert_eq!(make_button_id(12, 305), "id_12_305");
}

#[test]
fn button_ids_are_distinct() {
    let mut seen = Vec::new();
    for r in 0..25 {
        for b in 0..25 {
            let id = make_button_id(r, b);
            assert!(!seen.contains(&id));
            seen.push(id);
        }
    }
    assert_ne!(make_button_id(1, 11), make_button_id(11, 1));
}

#[test]
fn decode_gives_back_every_label() {
    let keyboard = Keyboard::parse("Yes,No:Maybe,Later,:x");
    for r in 0..keyboard.row_count() {
        for b in 0..keyboard.row_len(r).unwrap() {
            let id = make_button_id(r, b);
            assert_eq!(keyboard.decode(&id).as_ref(), Ok(keyboard.label(r, b).unwrap()));
        }
    }
}

#[test]
fn decode_of_rendered_ids_gives_the_rendered_labels() {
    let keyboard = Keyboard::parse("a,b,c:d:e,f");
    let tree = keyboard.render();
    assert_eq!(tree.len(), 3);
    assert_eq!(tree[0].len(), 3);
    assert_eq!(tree[1].len(), 1);
    assert_eq!(tree[2].len(), 2);
    assert_eq!(tree[2][1].label, "f");
    assert_eq!(tree[2][1].custom_id, "id_2_1");
    for row in &tree {
        for button in row {
            assert_eq!(keyboard.decode(&button.custom_id), Ok(button.label.clone()));
        }
    }
}

#[test]
fn decode_refuses_what_names_no_button() {
    let keyboard = Keyboard::parse("Yes,No:Maybe");
    for id in ["id_2_0", "id_0_2", "id_1_1", "", "Yes", "id_00_0", "id_0_0 ", "ID_0_0", "id_0"] {
        assert_eq!(keyboard.decode(id), Err(PromptError::Decode(String::from(id))));
    }
}

#[test]
fn component_id_to_button_reads_the_keyboard_text() {
    assert_eq!(component_id_to_button("id_1_0", "Yes,No:Maybe"), Ok(String::from("Maybe")));
    assert_eq!(component_id_to_button("id_0_1", "Yes,No:Maybe"), Ok(String::from("No")));
    assert_eq!(
        component_id_to_button("id_3_0", "Yes,No:Maybe"),
        Err(PromptError::Decode(String::from("id_3_0")))
    );
}

#[test]
fn first_button_is_first_of_first_row() {
    assert!(is_first_button("Yes", "Yes,No"));
    assert!(!is_first_button("No", "Yes,No"));
    assert!(is_first_button("", ""));
    assert!(is_first_button("", ",a:b"));
    assert!(!is_first_button("b", "a:b"));
}

#[test]
fn every_error_has_its_reason() {
    assert_eq!(PromptError::Send(String::from("timeout")).reason(), "timeout");
    assert_eq!(PromptError::Listen(String::from("refused")).reason(), "refused");
    assert_eq!(PromptError::NoInteraction.reason(), "no interaction received");
    assert_eq!(
        PromptError::Decode(String::from("id_9_9")).reason(),
        "unknown button identifier: id_9_9"
    );
    assert_eq!(PromptError::Edit(String::from("gone")).reason(), "gone");
}
